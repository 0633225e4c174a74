//! The content store: every payload lies under a path computed from its own
//! integrity string, so equal bytes always land in the same file.
use crate::cache::digest::{integrity_of, integrity_prefix, integrity_text};
use crate::cache::error::{CacheError, Failure};
use crate::cache::tree::{parent, FileWrite};
use crate::text::{find, find_in, lemma_find_first, tail, to_chars, to_text};
use vstd::prelude::*;
use vstd::slice::slice_to_vec;
use vstd::string::*;

verus! {

/// The content store. It keeps no state of its own: its operations are `put`
/// and `get_path`, and the root directory is handed to each.
pub struct Cacher;

/// `base/name[0..2]/name[2..4]/name[4..]`: the path of the entry called `name`
/// in a store rooted at `base`. Meant for names of four characters or more.
pub open spec fn sharded(base: Seq<char>, name: Seq<char>) -> Seq<char> {
    base + seq!['/'] + name.subrange(0, 2) + seq!['/'] + name.subrange(2, 4) + seq!['/']
        + name.subrange(4, name.len() as int)
}

/// The algorithm tag and the digest of an integrity string: what stands
/// before its first hyphen, and what stands after it.
pub open spec fn integrity_parts(text: Seq<char>) -> Option<(Seq<char>, Seq<char>)> {
    match find(text, seq!['-']) {
        Some(i) => Some((text.subrange(0, i), tail(text, i + 1))),
        None => None,
    }
}

/// Where a store rooted at `root` keeps the content whose integrity string is
/// `text`: `root/<tag>/<digest[0..2]>/<digest[2..4]>/<digest[4..]>`. There is
/// no such place where `text` has no hyphen or its digest is shorter than
/// four characters.
pub open spec fn content_path(root: Seq<char>, text: Seq<char>) -> Option<Seq<char>> {
    match integrity_parts(text) {
        Some((tag, digest)) => if digest.len() >= 4 {
            Some(sharded(root + seq!['/'] + tag, digest))
        } else {
            None
        },
        None => None,
    }
}

/// What the hashing is relied on to give for `content`: the tag `sha256`,
/// a hyphen and 44 characters of digest.
pub open spec fn well_rendered(content: Seq<u8>) -> bool {
    &&& integrity_text(content).len() == 51
    &&& integrity_text(content).subrange(0, 7) == integrity_prefix()
}

/// The path under `root` of the content `content`, given that its integrity
/// string is well rendered.
pub open spec fn blob_path(root: Seq<char>, content: Seq<u8>) -> Seq<char> {
    sharded(
        root + seq!['/', 's', 'h', 'a', '2', '5', '6'],
        integrity_text(content).subrange(7, 51),
    )
}

/// What `put` asks for, for `content` in a store rooted at `root`: the write
/// of these bytes to their blob path.
pub open spec fn put_gives(root: Seq<char>, content: Seq<u8>, write: FileWrite) -> bool {
    &&& well_rendered(content)
    &&& write.path@ == blob_path(root, content)
    &&& write.dir@ == parent(write.path@)
    &&& write.bytes@ == content
}

/// A well rendered integrity string splits at its seventh character, and the
/// path made from it is the blob path.
pub proof fn lemma_blob_path(root: Seq<char>, content: Seq<u8>)
    requires
        well_rendered(content),
    ensures
        content_path(root, integrity_text(content)) == Some(blob_path(root, content)),
{
    let text = integrity_text(content);
    let hyphen = seq!['-'];
    assert(text.subrange(0, 7) == integrity_prefix());
    assert forall|j: int| 0 <= j < 6 implies !crate::text::occurs_at(text, hyphen, j) by {
        assert(text[j] == text.subrange(0, 7)[j]);
        if crate::text::occurs_at(text, hyphen, j) {
            assert(text.subrange(j, j + 1)[0] == hyphen[0]);
        }
    }
    assert(text[6] == text.subrange(0, 7)[6]);
    assert(text.subrange(6, 7) =~= hyphen);
    lemma_find_first(text, hyphen, 6);
    assert(text.subrange(0, 6) =~= seq!['s', 'h', 'a', '2', '5', '6']) by {
        assert forall|j: int| 0 <= j < 6 implies text.subrange(0, 6)[j] == seq![
            's',
            'h',
            'a',
            '2',
            '5',
            '6',
        ][j] by {
            assert(text[j] == text.subrange(0, 7)[j]);
        }
    }
    assert(tail(text, 7) =~= text.subrange(7, 51));
    assert(root + seq!['/'] + text.subrange(0, 6) =~= root + seq!['/', 's', 'h', 'a', '2', '5', '6']);
}

/// The integrity string of some content: an algorithm tag, a hyphen, and the
/// digest in base64.
#[derive(Debug, Clone)]
pub struct Integrity {
    text: String,
}

impl View for Integrity {
    type V = Seq<char>;

    closed spec fn view(&self) -> Seq<char> {
        self.text@
    }
}

impl Integrity {
    /// The SHA-256 integrity of `content`.
    pub fn from(content: &[u8]) -> (integrity: Integrity)
        ensures
            integrity@ == integrity_text(content@),
            well_rendered(content@),
    {
        Integrity { text: integrity_of(content) }
    }

    /// The integrity that `text` spells out, taken as it is.
    pub fn from_text(text: &str) -> (integrity: Integrity)
        ensures
            integrity@ == text@,
    {
        Integrity { text: String::from_str(text) }
    }

    /// The integrity string.
    pub fn to_string(&self) -> (text: String)
        ensures
            text@ == self@,
    {
        self.text.clone()
    }
}

/// Appends `/name[0..2]/name[2..4]/name[4..]` to `base`, where `name` is
/// `chars[from..]`.
fn shard(base: String, chars: &Vec<char>, from: usize) -> (path: String)
    requires
        from + 4 <= chars.len(),
    ensures
        path@ == sharded(base@, tail(chars@, from as int)),
{
    let ghost name = tail(chars@, from as int);
    let mut path = base;
    path.push('/');
    path.append(to_text(chars, from, from + 2).as_str());
    path.push('/');
    path.append(to_text(chars, from + 2, from + 4).as_str());
    path.push('/');
    path.append(to_text(chars, from + 4, chars.len()).as_str());
    proof {
        assert(name.subrange(0, 2) =~= chars@.subrange(from as int, from + 2));
        assert(name.subrange(2, 4) =~= chars@.subrange(from + 2, from + 4));
        assert(name.subrange(4, name.len() as int) =~= chars@.subrange(
            from + 4,
            chars.len() as int,
        ));
        assert(path@ =~= sharded(base@, name));
    }
    path
}

/// The path at which a store rooted at `cache` keeps the content with the
/// given integrity.
pub fn get_path(cache: &str, integrity: &Integrity) -> (r: Result<String, CacheError>)
    ensures
        match r {
            Ok(path) => content_path(cache@, integrity@) == Some(path@),
            Err(e) => e@ == Failure::MalformedIntegrity && content_path(cache@, integrity@)
                is None,
        },
{
    let chars = to_chars(integrity.text.as_str());
    let hyphen: Vec<char> = vec!['-'];
    assert(hyphen@ =~= seq!['-']);
    assert(chars@.subrange(0, chars.len() as int) =~= chars@);
    match find_in(&chars, 0, chars.len(), &hyphen) {
        None => Err(CacheError::MalformedIntegrity),
        Some(i) => {
            if chars.len() - (i + 1) < 4 {
                return Err(CacheError::MalformedIntegrity);
            }
            let mut base = String::from_str(cache);
            base.push('/');
            base.append(to_text(&chars, 0, i).as_str());
            Ok(shard(base, &chars, i + 1))
        },
    }
}

/// Stores `content` under `cache`: the write to perform, to the path that the
/// bytes themselves determine. It never fails.
pub fn put(cache: &str, content: &[u8]) -> (r: Result<FileWrite, CacheError>)
    ensures
        r matches Ok(write) && put_gives(cache@, content@, write),
{
    let integrity = Integrity::from(content);
    proof {
        lemma_blob_path(cache@, content@);
    }
    match get_path(cache, &integrity) {
        Ok(path) => Ok(FileWrite::new(path, slice_to_vec(content))),
        Err(e) => Err(e),
    }
}

} // verus!
