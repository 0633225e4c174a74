//! The index: a key is stored under a path computed from its identity alone,
//! so that a key that names no content yet finds the entry of one that does.
use crate::cache::content::sharded;
use crate::cache::digest::{hex_encode, hex_text, lemma_hex_text, sha256, sha256_digest};
use crate::cache::error::{CacheError, Failure};
use crate::cache::tree::{parent, FileWrite};
use crate::text::{tail, to_chars};
use vstd::prelude::*;
use vstd::slice::slice_to_vec;
use vstd::string::*;
use vstd::utf8::encode_utf8;

verus! {

/// Some text, or none, for each key of type `K` and each number. Nothing
/// else is known of it.
pub closed spec fn some_text<K>(key: K, which: int) -> Option<Seq<char>> {
    arbitrary::<spec_fn(K, int) -> Option<Seq<char>>>()(key, which)
}

/// For each text, whether it is read as a key of type `K` and what that key
/// points at. Nothing else is known of it.
pub closed spec fn some_reading<K>(text: Seq<char>) -> Option<Option<Seq<char>>> {
    arbitrary::<spec_fn(Seq<char>) -> Option<Option<Seq<char>>>>()(text)
}

/// A lookup key of the cache. A key has identity fields, which are the
/// caller's business, and one content pointer: the path of the payload that
/// the key stands for, unset in a fresh key.
///
/// The cache asks a key to take and to tell its pointer, and to put itself
/// into a canonical text and come back from it. The spec functions give what
/// the methods return a name, and so say that it depends on the key alone.
/// Beyond that the methods promise only that pointing a key sets its pointer
/// and leaves its identity text as it was.
///
/// An implementation that Verus reads says what the spec functions are. One
/// that it does not read leaves them as they stand: each is then some
/// function of which nothing is known.
pub trait Index: Sized {
    /// The content pointer of the key.
    open spec fn value_hash_path(&self) -> Option<Seq<char>> {
        some_text(*self, 0)
    }

    /// The canonical text of the whole key, its pointer included, or `None`
    /// for a key that has no such text.
    open spec fn encoding(&self) -> Option<Seq<char>> {
        some_text(*self, 1)
    }

    /// The canonical text of the key as it is with its pointer unset, or
    /// `None` for a key that has no such text. Keys with the same identity
    /// fields have the same identity text.
    open spec fn identity(&self) -> Option<Seq<char>> {
        some_text(*self, 2)
    }

    /// What is read from `text`: `None` where it is the canonical text of no
    /// key, and else the content pointer of the key that it is the text of.
    open spec fn reading(text: Seq<char>) -> Option<Option<Seq<char>>> {
        some_reading::<Self>(text)
    }

    /// Points the key at the content stored at `path`. The identity fields
    /// stay as they are.
    fn set_value_hash_path(&mut self, path: String)
        ensures
            final(self).value_hash_path() == Some(path@),
            final(self).identity() == old(self).identity(),
    ;

    /// The content pointer of the key, if it is set.
    fn get_value_hash_path(&self) -> (path: Option<String>)
        ensures
            match path {
                Some(p) => self.value_hash_path() == Some(p@),
                None => self.value_hash_path() is None,
            },
    ;

    /// The canonical text of the whole key, its pointer included, or `None`
    /// where the key has no such text.
    fn serialize(&self) -> (text: Option<String>)
        ensures
            match text {
                Some(t) => self.encoding() == Some(t@),
                None => self.encoding() is None,
            },
    ;

    /// The canonical text of the key as it is with its pointer unset, or
    /// `None` where the key has no such text.
    fn serialize_identity(&self) -> (text: Option<String>)
        ensures
            match text {
                Some(t) => self.identity() == Some(t@),
                None => self.identity() is None,
            },
    ;

    /// Reads a key back from its canonical text, or `None` where the text is
    /// none of a key.
    fn deserialize(text: &str) -> (key: Option<Self>)
        ensures
            match key {
                Some(k) => Self::reading(text@) == Some(k.value_hash_path()),
                None => Self::reading(text@) is None,
            },
    ;
}

/// What the cache relies on in a key type beyond what its methods promise:
/// a key comes back from its canonical text with the pointer that it had.
pub open spec fn lawful<K: Index>() -> bool {
    forall|key: K|
        #![trigger key.encoding()]
        key.encoding() matches Some(text) ==> K::reading(text) == Some(key.value_hash_path())
}

/// The name under which the index files a key with the given identity text:
/// the SHA-256 hash of the text's UTF-8 bytes, in lower-case hexadecimal.
pub open spec fn index_name(identity: Seq<char>) -> Seq<char> {
    hex_text(sha256(encode_utf8(identity)))
}

/// Where an index rooted at `root` keeps the entry of a key with the given
/// identity text: `root/<name[0..2]>/<name[2..4]>/<name[4..]>`.
pub open spec fn index_path(root: Seq<char>, identity: Seq<char>) -> Seq<char> {
    sharded(root, index_name(identity))
}

/// What the hashing is relied on to give for an identity text: 32 bytes.
pub open spec fn well_hashed(identity: Seq<char>) -> bool {
    sha256(encode_utf8(identity)).len() == 32
}

/// The index path for a key of which the identity text is already at hand.
pub fn key_path_of(index_base_path: &str, identity: &str) -> (path: String)
    ensures
        path@ == index_path(index_base_path@, identity@),
        well_hashed(identity@),
{
    let hash = sha256_digest(identity.as_bytes());
    let name = hex_encode(hash.as_slice());
    proof {
        lemma_hex_text(hash@);
    }
    let chars = to_chars(name.as_str());
    assert(tail(chars@, 0) =~= chars@);
    let mut path = String::from_str(index_base_path);
    path.push('/');
    path.append(crate::text::to_text(&chars, 0, 2).as_str());
    path.push('/');
    path.append(crate::text::to_text(&chars, 2, 4).as_str());
    path.push('/');
    path.append(crate::text::to_text(&chars, 4, chars.len()).as_str());
    assert(path@ =~= sharded(index_base_path@, chars@));
    path
}

/// The path at which an index rooted at `index_base_path` keeps the entry for
/// `index`: the path made from the identity text of the key, whether or not
/// the key points at content already. It fails exactly where the key has no
/// identity text.
pub fn get_key_path<K: Index>(index_base_path: &str, index: &K) -> (r: Result<String, CacheError>)
    ensures
        match index.identity() {
            Some(identity) => r matches Ok(path) && path@ == index_path(
                index_base_path@,
                identity,
            ) && well_hashed(identity),
            None => r matches Err(e) && e@ == Failure::Serialization,
        },
{
    match index.serialize_identity() {
        Some(identity) => Ok(key_path_of(index_base_path, identity.as_str())),
        None => Err(CacheError::Serialization),
    }
}

/// What the write of an index entry is, for a key whose identity text is
/// `identity` and whose canonical text, pointer included, is `encoding`: the
/// UTF-8 bytes of the latter, to the path made from the former.
pub open spec fn entry_written(
    root: Seq<char>,
    identity: Seq<char>,
    encoding: Seq<char>,
    write: FileWrite,
) -> bool {
    &&& write.path@ == index_path(root, identity)
    &&& write.dir@ == parent(write.path@)
    &&& write.bytes@ == encode_utf8(encoding)
    &&& well_hashed(identity)
}

/// The write of the entry `encoding` for a key with the identity text
/// `identity`, in an index rooted at `index_base_path`.
pub fn entry_write(index_base_path: &str, identity: &str, encoding: &str) -> (write: FileWrite)
    ensures
        entry_written(index_base_path@, identity@, encoding@, write),
{
    FileWrite::new(key_path_of(index_base_path, identity), slice_to_vec(encoding.as_bytes()))
}

/// What `add_index` makes of the key `before` and the path `cache_path`: the
/// key that comes back, and the write or the failure.
pub open spec fn indexed<K: Index>(
    root: Seq<char>,
    before: K,
    cache_path: Seq<char>,
    after: K,
    r: Result<FileWrite, CacheError>,
) -> bool {
    match before.identity() {
        Some(identity) => {
            &&& after.value_hash_path() == Some(cache_path)
            &&& after.identity() == before.identity()
            &&& match after.encoding() {
                Some(encoding) => r matches Ok(write) && entry_written(
                    root,
                    identity,
                    encoding,
                    write,
                ),
                None => r matches Err(e) && e@ == Failure::Serialization,
            }
        },
        None => {
            &&& after == before
            &&& r matches Err(e) && e@ == Failure::Serialization
        },
    }
}

/// Files `index` as the key of the content stored at `cache_path`: takes the
/// identity text of the key, points the key at `cache_path`, and gives the
/// write of the key's canonical text as it then is, to the path made from
/// the identity text.
///
/// The key is changed, and the caller sees it. The call fails exactly where
/// the key has no identity text, in which case the key is not touched, or no
/// canonical text once it is pointed.
pub fn add_index<K: Index>(index_base_path: &str, index: &mut K, cache_path: String) -> (r: Result<
    FileWrite,
    CacheError,
>)
    ensures
        indexed(index_base_path@, *old(index), cache_path@, *final(index), r),
{
    let identity = match index.serialize_identity() {
        Some(identity) => identity,
        None => {
            return Err(CacheError::Serialization);
        },
    };
    index.set_value_hash_path(cache_path);
    let encoding = match index.serialize() {
        Some(encoding) => encoding,
        None => {
            return Err(CacheError::Serialization);
        },
    };
    Ok(entry_write(index_base_path, identity.as_str(), encoding.as_str()))
}

} // verus!
