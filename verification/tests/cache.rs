use browser_rust::cache::content::put;
use browser_rust::cache::error::CacheError;
use browser_rust::cache::index::{add_index, entry_write, get_key_path, key_path_of, Index};
use browser_rust::cache::save::{save, SavePlan, Saving};
use browser_rust::cache::tree::{FileWrite, ReadOutcome};
use browser_rust::cache::{decode, Cache, Decoded, Lookup};
use std::collections::HashMap;

// A key with one identity field, written as a JSON object.
#[derive(Debug, PartialEq, Eq)]
struct Key {
    data: String,
    inner_hash_path: Option<String>,
}

fn key_text(data: &str, pointer: &Option<String>) -> Option<String> {
    let mut object = serde_json::Map::new();
    object.insert("data".to_string(), serde_json::Value::String(data.to_string()));
    object.insert(
        "inner_hash_path".to_string(),
        match pointer {
            Some(path) => serde_json::Value::String(path.clone()),
            None => serde_json::Value::Null,
        },
    );
    serde_json::to_string(&serde_json::Value::Object(object)).ok()
}

impl Index for Key {
    fn set_value_hash_path(&mut self, path: String) {
        self.inner_hash_path = Some(path);
    }

    fn get_value_hash_path(&self) -> Option<String> {
        self.inner_hash_path.clone()
    }

    fn serialize(&self) -> Option<String> {
        key_text(&self.data, &self.inner_hash_path)
    }

    fn serialize_identity(&self) -> Option<String> {
        key_text(&self.data, &None)
    }

    fn deserialize(text: &str) -> Option<Self> {
        let value: serde_json::Value = serde_json::from_str(text).ok()?;
        let object = value.as_object()?;
        let data = object.get("data")?.as_str()?.to_string();
        let inner_hash_path = match object.get("inner_hash_path")? {
            serde_json::Value::Null => None,
            serde_json::Value::String(path) => Some(path.clone()),
            _ => return None,
        };
        Some(Key { data, inner_hash_path })
    }
}

fn pointer_text(field: &str, pointer: &Option<String>) -> Option<String> {
    let mut object = serde_json::Map::new();
    object.insert(
        field.to_string(),
        match pointer {
            Some(path) => serde_json::Value::String(path.clone()),
            None => serde_json::Value::Null,
        },
    );
    serde_json::to_string(&serde_json::Value::Object(object)).ok()
}

fn pointer_read(field: &str, text: &str) -> Option<Option<String>> {
    let value: serde_json::Value = serde_json::from_str(text).ok()?;
    match value.as_object()?.get(field)? {
        serde_json::Value::Null => Some(None),
        serde_json::Value::String(path) => Some(Some(path.clone())),
        _ => None,
    }
}

// A key that is nothing but its pointer.
#[derive(Debug, PartialEq, Eq)]
struct Bare {
    inner_hash_path: Option<String>,
}

impl Index for Bare {
    fn set_value_hash_path(&mut self, path: String) {
        self.inner_hash_path = Some(path);
    }

    fn get_value_hash_path(&self) -> Option<String> {
        self.inner_hash_path.clone()
    }

    fn serialize(&self) -> Option<String> {
        pointer_text("inner_hash_path", &self.inner_hash_path)
    }

    fn serialize_identity(&self) -> Option<String> {
        pointer_text("inner_hash_path", &None)
    }

    fn deserialize(text: &str) -> Option<Self> {
        Some(Bare { inner_hash_path: pointer_read("inner_hash_path", text)? })
    }
}

// The same under another field name.
#[derive(Debug, PartialEq, Eq)]
struct Valued {
    value_hash_path: Option<String>,
}

impl Index for Valued {
    fn set_value_hash_path(&mut self, path: String) {
        self.value_hash_path = Some(path)
    }

    fn get_value_hash_path(&self) -> Option<String> {
        self.value_hash_path.clone()
    }

    fn serialize(&self) -> Option<String> {
        pointer_text("value_hash_path", &self.value_hash_path)
    }

    fn serialize_identity(&self) -> Option<String> {
        pointer_text("value_hash_path", &None)
    }

    fn deserialize(text: &str) -> Option<Self> {
        Some(Valued { value_hash_path: pointer_read("value_hash_path", text)? })
    }
}

// A key that has no canonical text once it points somewhere.
struct Stubborn {
    pointed: bool,
}

impl Index for Stubborn {
    fn set_value_hash_path(&mut self, _path: String) {
        self.pointed = true;
    }

    fn get_value_hash_path(&self) -> Option<String> {
        None
    }

    fn serialize(&self) -> Option<String> {
        if self.pointed {
            None
        } else {
            Some("stubborn".to_string())
        }
    }

    fn serialize_identity(&self) -> Option<String> {
        Some("stubborn".to_string())
    }

    fn deserialize(_text: &str) -> Option<Self> {
        None
    }
}

// A key that has no text at all.
struct Mute;

impl Index for Mute {
    fn set_value_hash_path(&mut self, _path: String) {
        panic!("a key without identity text is not to be pointed")
    }

    fn get_value_hash_path(&self) -> Option<String> {
        None
    }

    fn serialize(&self) -> Option<String> {
        None
    }

    fn serialize_identity(&self) -> Option<String> {
        None
    }

    fn deserialize(_text: &str) -> Option<Self> {
        None
    }
}

type Tree = HashMap<String, Vec<u8>>;

fn perform(tree: &mut Tree, write: &FileWrite) {
    tree.insert(write.path.clone(), write.bytes.clone());
}

fn perform_all(tree: &mut Tree, plan: SavePlan) -> Result<String, CacheError> {
    let mut saving = plan.begin();
    loop {
        match saving.wanted() {
            Some(write) => perform(tree, write),
            None => match saving {
                Saving::Done(result) => return result,
                _ => unreachable!(),
            },
        }
        saving = saving.resume(Ok(()));
    }
}

fn read(tree: &Tree, path: &str) -> ReadOutcome {
    match tree.get(path) {
        Some(bytes) => ReadOutcome::Found(bytes.clone()),
        None => ReadOutcome::Absent("No such file or directory".to_string()),
    }
}

fn run_get<K: Index>(cache: &Cache, tree: &Tree, key: &K) -> Result<Vec<u8>, CacheError> {
    let mut lookup = cache.get(key);
    loop {
        let answer = match lookup.wanted() {
            Some(path) => read(tree, path),
            None => match lookup {
                Lookup::Done(result) => return result,
                _ => unreachable!(),
            },
        };
        lookup = lookup.resume::<K>(answer);
    }
}

fn fresh(data: &str) -> Key {
    Key { data: data.to_string(), inner_hash_path: None }
}

#[test]
fn add_index_test() {
    let mut test_index = fresh("test_add_index");

    let write = add_index("test-index", &mut test_index, "this is a fake path".into()).unwrap();

    assert_eq!(write.bytes, test_index.serialize().unwrap().into_bytes());
    assert_eq!(
        write.bytes,
        br#"{"data":"test_add_index","inner_hash_path":"this is a fake path"}"#
    );
    assert_eq!(
        write.path,
        "test-index/9a/7f/087a959931fce94eeb6025c9097f3b1ccb7e42a27b00549233855ab6ad62"
    );
    assert_eq!(write.dir, "test-index/9a/7f");
}

#[test]
fn save_in_cache() {
    let cache = Cache::new("test-index".into(), "test-cache".into());
    let mut tree = Tree::new();
    let mut key = Bare { inner_hash_path: None };

    let plan = cache.save(&mut key, b"hello").unwrap();
    let key_path = perform_all(&mut tree, plan).unwrap();
    assert_eq!(
        key_path,
        "test-index/77/d1/ba0ce683455c2eb381eb1fce9fd71946acadf81f3aca039433fe9c908bfa"
    );

    let key_raw = String::from_utf8(tree[&key_path].clone()).unwrap();
    let key_deser = Bare::deserialize(&key_raw).unwrap();
    assert_eq!(key_deser, key);

    let Some(value_path) = key_deser.inner_hash_path else {
        panic!("missing value path in deser")
    };
    let value = String::from_utf8(tree[&value_path].clone()).unwrap();
    assert_eq!("hello", value);
}

#[test]
fn retrieve_from_cache() {
    let cache = Cache::new("test-index".into(), "test-cache".into());
    let mut tree = Tree::new();
    let mut key = fresh("retrieve_from_cache");

    let plan = cache.save(&mut key, b"hello from the other side").unwrap();
    let _ = perform_all(&mut tree, plan).unwrap();
    let new_key = fresh("retrieve_from_cache");

    let res = run_get(&cache, &tree, &new_key).unwrap();

    assert_eq!(res, b"hello from the other side")
}

#[test]
fn save_key_value_to_index_and_cache() {
    let mut tree = Tree::new();
    let mut key = Valued { value_hash_path: None };

    let plan = save("test_index", "test_cache", &mut key, b"some testing input").unwrap();
    let key_path = perform_all(&mut tree, plan).unwrap();
    assert_eq!(
        key_path,
        "test_index/cc/aa/8230f03e764f3259e2c85c67208aad5f84116b2f35fd9a3b70c283de024d"
    );
    assert_eq!(
        key.value_hash_path.as_deref(),
        Some("test_cache/sha256/U9/Z4/hdVMkFmoFeZqlWm5qKeudH7MIQceihgKAHBBr14=")
    );

    let key_read = String::from_utf8(tree[&key_path].clone()).unwrap();
    let key_read = Valued::deserialize(&key_read).unwrap();

    assert_eq!(key, key_read)
}

#[test]
fn save_writes_content_before_index() {
    let cache = Cache::new("idx".into(), "blobs".into());
    let mut key = fresh("order");
    let plan = cache.save(&mut key, b"hello").unwrap();
    let content_path = plan.content.path.clone();
    let entry_path = plan.entry.path.clone();
    assert_eq!(key.inner_hash_path, Some(content_path.clone()));

    let saving = plan.begin();
    let first = saving.wanted().unwrap();
    assert_eq!(first.path, content_path);
    assert_eq!(first.path, "blobs/sha256/LP/JN/ul+wow4m6DsqxbninhsWHlwfp0JecwQzYpOLmCQ=");
    assert_eq!(first.dir, "blobs/sha256/LP/JN");
    assert_eq!(first.bytes, b"hello");
    let saving = saving.resume(Ok(()));
    let second = saving.wanted().unwrap();
    assert_eq!(second.path, entry_path);
    assert_eq!(
        second.bytes,
        br#"{"data":"order","inner_hash_path":"blobs/sha256/LP/JN/ul+wow4m6DsqxbninhsWHlwfp0JecwQzYpOLmCQ="}"#
    );
    let saving = saving.resume(Ok(()));
    assert!(saving.wanted().is_none());
    assert!(matches!(&saving, Saving::Done(Ok(path)) if *path == entry_path));
    // A save that is over stays as it is.
    let saving = saving.resume(Err("late".to_string()));
    assert!(matches!(&saving, Saving::Done(Ok(path)) if *path == entry_path));
}

#[test]
fn failed_content_write_ends_the_save_before_the_entry() {
    let cache = Cache::new("idx".into(), "blobs".into());
    let plan = cache.save(&mut fresh("failing"), b"hello").unwrap();
    let content_path = plan.content.path.clone();
    let saving = plan.begin().resume(Err("disk full".to_string()));
    assert!(saving.wanted().is_none());
    match saving {
        Saving::Done(Err(CacheError::Io { path, cause })) => {
            assert_eq!(path, content_path);
            assert_eq!(cause, "disk full");
        }
        other => panic!("{:?}", other),
    }
}

#[test]
fn failed_entry_write_is_reported_with_the_path_of_the_entry() {
    let cache = Cache::new("idx".into(), "blobs".into());
    let plan = cache.save(&mut fresh("failing"), b"hello").unwrap();
    let entry_path = plan.entry.path.clone();
    let saving = plan.begin().resume(Ok(())).resume(Err("permission denied".to_string()));
    match saving {
        Saving::Done(Err(CacheError::Io { path, cause })) => {
            assert_eq!(path, entry_path);
            assert_eq!(cause, "permission denied");
        }
        other => panic!("{:?}", other),
    }
}

#[test]
fn save_then_get_round_trip() {
    let cache = Cache::new("i".into(), "c".into());
    let mut tree = Tree::new();
    for value in [&b""[..], b"x", b"70", b"\xff\xfe not text", b"hello from the other side"] {
        let mut key = fresh("round trip");
        let plan = cache.save(&mut key, value).unwrap();
        perform_all(&mut tree, plan).unwrap();
        assert_eq!(run_get(&cache, &tree, &fresh("round trip")).unwrap(), value);
        // A key that points somewhere already finds the same entry.
        assert_eq!(run_get(&cache, &tree, &key).unwrap(), value);
    }
}

#[test]
fn last_write_wins() {
    let cache = Cache::new("i".into(), "c".into());
    let mut tree = Tree::new();
    let mut key = fresh("twice");
    let first = cache.save(&mut key, b"v1").unwrap();
    let first_content = first.content.path.clone();
    let first_entry = perform_all(&mut tree, first).unwrap();
    // The same instance is saved again, pointer and all.
    let second = cache.save(&mut key, b"v2").unwrap();
    let second_content = second.content.path.clone();
    let second_entry = perform_all(&mut tree, second).unwrap();

    assert_eq!(first_entry, second_entry);
    assert_eq!(run_get(&cache, &tree, &fresh("twice")).unwrap(), b"v2");
    assert_ne!(first_content, second_content);
    assert_eq!(tree[&first_content], b"v1");
    assert_eq!(tree[&second_content], b"v2");
    assert_eq!(tree.len(), 3);
}

#[test]
fn get_of_unsaved_key_is_not_found() {
    let cache = Cache::new("i".into(), "c".into());
    let mut tree = Tree::new();
    let plan = cache.save(&mut fresh("saved"), b"v").unwrap();
    perform_all(&mut tree, plan).unwrap();

    let miss = run_get(&cache, &tree, &fresh("never saved")).unwrap_err();
    let expected = get_key_path("i", &fresh("never saved")).unwrap();
    assert!(matches!(&miss, CacheError::NotFound { path } if *path == expected));
    assert!(miss.is_miss());
    assert!(matches!(
        run_get(&cache, &Tree::new(), &fresh("saved")),
        Err(CacheError::NotFound { .. })
    ));
}

#[test]
fn index_path_is_the_same_for_save_and_get() {
    let mut key = fresh("retrieve_from_cache");
    let before = get_key_path("test-index", &key).unwrap();
    assert_eq!(
        before,
        "test-index/3f/71/f40836e00199e81d25b24073188f1ca387601ee2efe97ca94e40c731cd88"
    );
    let plan = save("test-index", "test-cache", &mut key, b"payload").unwrap();
    assert_eq!(plan.entry.path, before);
    assert!(key.inner_hash_path.is_some());
    // The entry holds the pointer; the path does not depend on it.
    assert_ne!(plan.entry.bytes, key.serialize_identity().unwrap().into_bytes());
    assert_eq!(get_key_path("test-index", &key).unwrap(), before);
    match Cache::new("test-index".into(), "test-cache".into()).get(&fresh("retrieve_from_cache")) {
        Lookup::Entry { path } => assert_eq!(path, before),
        other => panic!("{:?}", other),
    }
}

#[test]
fn key_path_of_known_text() {
    // SHA-256("abc") = ba7816bf 8f01cfea 414140de 5dae2223 b00361a3 96177a9c b410ff61 f20015ad
    assert_eq!(
        key_path_of("idx", "abc"),
        "idx/ba/78/16bf8f01cfea414140de5dae2223b00361a396177a9cb410ff61f20015ad"
    );
    assert_eq!(
        key_path_of("", ""),
        "/e3/b0/c44298fc1c149afbf4c8996fb92427ae41e4649b934ca495991b7852b855"
    );
}

#[test]
fn entry_write_of_known_texts() {
    let write = entry_write("idx", "abc", "ä entry");
    assert_eq!(
        write.path,
        "idx/ba/78/16bf8f01cfea414140de5dae2223b00361a396177a9cb410ff61f20015ad"
    );
    assert_eq!(write.dir, "idx/ba/78");
    assert_eq!(write.bytes, "ä entry".as_bytes());
}

#[test]
fn keys_without_text_fail_with_serialization() {
    let cache = Cache::new("i".into(), "c".into());
    assert!(matches!(get_key_path("i", &Mute), Err(CacheError::Serialization)));
    assert!(matches!(add_index("i", &mut Mute, "p".into()), Err(CacheError::Serialization)));
    assert!(matches!(cache.save(&mut Mute, b"v"), Err(CacheError::Serialization)));
    assert!(matches!(cache.get(&Mute), Lookup::Done(Err(CacheError::Serialization))));
    assert!(matches!(
        run_get(&cache, &Tree::new(), &Mute),
        Err(CacheError::Serialization)
    ));

    let mut stubborn = Stubborn { pointed: false };
    assert!(get_key_path("i", &stubborn).is_ok());
    assert!(matches!(cache.save(&mut stubborn, b"v"), Err(CacheError::Serialization)));
    assert!(stubborn.pointed);
}

#[test]
fn entry_without_pointer_is_missing_pointer() {
    let cache = Cache::new("i".into(), "c".into());
    let mut tree = Tree::new();
    let key = fresh("half written");
    let path = get_key_path("i", &key).unwrap();
    tree.insert(path, key.serialize().unwrap().into_bytes());
    let err = run_get(&cache, &tree, &key).unwrap_err();
    assert!(matches!(err, CacheError::MissingPointer));
    assert!(err.is_miss());
}

#[test]
fn entry_that_is_no_key_is_serialization_failure() {
    let cache = Cache::new("i".into(), "c".into());
    let mut tree = Tree::new();
    let key = fresh("torn");
    let path = get_key_path("i", &key).unwrap();
    tree.insert(path.clone(), b"{\"data\":\"to".to_vec());
    assert!(matches!(run_get(&cache, &tree, &key), Err(CacheError::Serialization)));
    tree.insert(path.clone(), vec![0xff, 0xfe]);
    match run_get(&cache, &tree, &key) {
        Err(CacheError::Io { path: p, cause }) => {
            assert_eq!(p, path);
            assert_eq!(cause, "index entry is not valid UTF-8");
        }
        other => panic!("{:?}", other),
    }
}

#[test]
fn entry_that_points_at_nothing_is_io_failure() {
    let cache = Cache::new("i".into(), "c".into());
    let mut tree = Tree::new();
    let mut key = fresh("dangling");
    let plan = cache.save(&mut key, b"v").unwrap();
    let content_path = plan.content.path.clone();
    perform(&mut tree, &plan.entry);
    match run_get(&cache, &tree, &fresh("dangling")) {
        Err(CacheError::Io { path, cause }) => {
            assert_eq!(path, content_path);
            assert_eq!(cause, "No such file or directory");
        }
        other => panic!("{:?}", other),
    }
}

#[test]
fn lookup_steps_one_by_one() {
    let entry = Lookup::Entry { path: "e".to_string() };
    assert_eq!(entry.wanted(), Some("e"));
    let next = entry.resume_decoded(
        ReadOutcome::Found(b"text".to_vec()),
        Decoded::Pointer("c".to_string()),
    );
    assert!(matches!(&next, Lookup::Content { path } if path == "c"));
    assert_eq!(next.wanted(), Some("c"));
    let done = next.resume_decoded(ReadOutcome::Found(vec![1, 2, 3]), Decoded::NoKey);
    assert!(matches!(&done, Lookup::Done(Ok(bytes)) if *bytes == vec![1, 2, 3]));
    assert_eq!(done.wanted(), None);
    // A lookup that is over stays as it is.
    let still = done.resume_decoded(ReadOutcome::Failed("late".to_string()), Decoded::NoPointer);
    assert!(matches!(&still, Lookup::Done(Ok(bytes)) if *bytes == vec![1, 2, 3]));

    let failed = Lookup::Entry { path: "e".to_string() }
        .resume_decoded(ReadOutcome::Failed("denied".to_string()), Decoded::NoKey);
    assert!(matches!(
        &failed,
        Lookup::Done(Err(CacheError::Io { path, cause })) if path == "e" && cause == "denied"
    ));
    let failed = Lookup::Content { path: "c".to_string() }
        .resume_decoded(ReadOutcome::Failed("denied".to_string()), Decoded::NoKey);
    assert!(matches!(
        &failed,
        Lookup::Done(Err(CacheError::Io { path, cause })) if path == "c" && cause == "denied"
    ));
    let none = Lookup::Entry { path: "e".to_string() }
        .resume_decoded(ReadOutcome::Found(b"{}".to_vec()), Decoded::NoPointer);
    assert!(matches!(none, Lookup::Done(Err(CacheError::MissingPointer))));
    let none = Lookup::Entry { path: "e".to_string() }
        .resume_decoded(ReadOutcome::Found(b"{}".to_vec()), Decoded::NoKey);
    assert!(matches!(none, Lookup::Done(Err(CacheError::Serialization))));
}

#[test]
fn decode_reads_the_pointer() {
    let text = r#"{"data":"d","inner_hash_path":"p/q"}"#;
    assert!(matches!(decode::<Key>(text), Decoded::Pointer(path) if path == "p/q"));
    let text = r#"{"data":"d","inner_hash_path":null}"#;
    assert!(matches!(decode::<Key>(text), Decoded::NoPointer));
    assert!(matches!(decode::<Key>("not json"), Decoded::NoKey));
}

#[test]
fn get_by_identity_text() {
    let cache = Cache::new("idx".into(), "c".into());
    match cache.get_by_identity(Some("abc")) {
        Lookup::Entry { path } => assert_eq!(
            path,
            "idx/ba/78/16bf8f01cfea414140de5dae2223b00361a396177a9cb410ff61f20015ad"
        ),
        other => panic!("{:?}", other),
    }
    assert!(matches!(
        cache.get_by_identity(None),
        Lookup::Done(Err(CacheError::Serialization))
    ));
}

#[test]
fn failed_write_reports_path_and_cause() {
    let write = put("c", b"hello").unwrap();
    let path = write.path.clone();
    match write.finish(Err("disk full".to_string())) {
        Err(CacheError::Io { path: p, cause }) => {
            assert_eq!(p, path);
            assert_eq!(cause, "disk full");
        }
        other => panic!("{:?}", other),
    }
    let write = FileWrite::new("a/b/c".to_string(), vec![1]);
    assert_eq!(write.dir, "a/b");
    assert_eq!(write.finish(Ok(())).unwrap(), "a/b/c");
    assert_eq!(FileWrite::new("plain".to_string(), vec![]).dir, "");
    assert_eq!(FileWrite::new("/top".to_string(), vec![]).dir, "");
    assert_eq!(FileWrite::new("a/".to_string(), vec![]).dir, "a");
}
