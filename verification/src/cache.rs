//! A content-addressable cache on a directory tree: payloads are stored under
//! a path derived from their own hash, and an index maps caller-defined keys
//! to the place of their payload.
//!
//! The library computes; it never touches the file system. Each operation
//! says which files are to be written or read, and what follows from what was
//! found there. The caller performs the writes and the reads.
use crate::cache::error::{CacheError, Failure};
use crate::cache::index::{index_path, key_path_of, well_hashed, Index};
use crate::cache::save::{key_saved, SavePlan};
use crate::cache::tree::{read, ReadOutcome, Tree};
use vstd::prelude::*;
use vstd::string::*;
use vstd::utf8::{decode_utf8, valid_utf8};

pub mod content;
pub mod digest;
pub mod error;
pub mod index;
pub mod laws;
pub mod save;
pub mod tree;

verus! {

/// A cache: an index rooted at one directory and a content store rooted at
/// another.
#[derive(Debug, Clone)]
pub struct Cache {
    index_path: String,
    cache_path: String,
}

/// A lookup under way: which file is to be read next, or how it ended.
#[derive(Debug)]
pub enum Lookup {
    /// The index entry at this path is to be read.
    Entry { path: String },
    /// The content at this path is to be read.
    Content { path: String },
    /// The lookup is over: the payload, or why there is none.
    Done(Result<Vec<u8>, CacheError>),
}

/// What reading the text of an index entry back into a key gave.
#[derive(Debug, Clone)]
pub enum Decoded {
    /// The text is none of a key.
    NoKey,
    /// The text is one of a key that points at no content.
    NoPointer,
    /// The text is one of a key that points at the content at this path.
    Pointer(String),
}

/// A `ReadOutcome` with its bytes and texts as sequences.
pub enum Answer {
    Found(Seq<u8>),
    Absent(Seq<char>),
    Failed(Seq<char>),
}

/// A `Decoded` with its path as a sequence.
pub enum DecodedView {
    NoKey,
    NoPointer,
    Pointer(Seq<char>),
}

/// A `Lookup` with its bytes and texts as sequences.
pub enum LookupView {
    Entry { path: Seq<char> },
    Content { path: Seq<char> },
    Done(Result<Seq<u8>, Failure>),
}

impl View for ReadOutcome {
    type V = Answer;

    open spec fn view(&self) -> Answer {
        match self {
            ReadOutcome::Found(bytes) => Answer::Found(bytes@),
            ReadOutcome::Absent(cause) => Answer::Absent(cause@),
            ReadOutcome::Failed(cause) => Answer::Failed(cause@),
        }
    }
}

impl View for Decoded {
    type V = DecodedView;

    open spec fn view(&self) -> DecodedView {
        match self {
            Decoded::NoKey => DecodedView::NoKey,
            Decoded::NoPointer => DecodedView::NoPointer,
            Decoded::Pointer(path) => DecodedView::Pointer(path@),
        }
    }
}

impl View for Lookup {
    type V = LookupView;

    open spec fn view(&self) -> LookupView {
        match self {
            Lookup::Entry { path } => LookupView::Entry { path: path@ },
            Lookup::Content { path } => LookupView::Content { path: path@ },
            Lookup::Done(Ok(bytes)) => LookupView::Done(Ok(bytes@)),
            Lookup::Done(Err(e)) => LookupView::Done(Err(e@)),
        }
    }
}

/// The cause given for an index entry that is no text.
pub open spec fn not_text() -> Seq<char> {
    "index entry is not valid UTF-8"@
}

/// How a lookup for a key with the given identity text begins. A key without
/// one cannot be looked up.
pub open spec fn begun(index_root: Seq<char>, identity: Option<Seq<char>>) -> LookupView {
    match identity {
        Some(text) => LookupView::Entry { path: index_path(index_root, text) },
        None => LookupView::Done(Err(Failure::Serialization)),
    }
}

/// How a lookup goes on from `state` once the read that it asked for brought
/// `answer`. Where the answer is an index entry that is valid text, `decoded`
/// is what reading that text back into a key gave.
pub open spec fn resumed(state: LookupView, answer: Answer, decoded: DecodedView) -> LookupView {
    match state {
        LookupView::Entry { path } => match answer {
            Answer::Found(bytes) => if !valid_utf8(bytes) {
                LookupView::Done(Err(Failure::Io { path, cause: not_text() }))
            } else {
                match decoded {
                    DecodedView::NoKey => LookupView::Done(Err(Failure::Serialization)),
                    DecodedView::NoPointer => LookupView::Done(Err(Failure::MissingPointer)),
                    DecodedView::Pointer(pointer) => LookupView::Content { path: pointer },
                }
            },
            Answer::Absent(_) => LookupView::Done(Err(Failure::NotFound { path })),
            Answer::Failed(cause) => LookupView::Done(Err(Failure::Io { path, cause })),
        },
        LookupView::Content { path } => match answer {
            Answer::Found(bytes) => LookupView::Done(Ok(bytes)),
            Answer::Absent(cause) => LookupView::Done(Err(Failure::Io { path, cause })),
            Answer::Failed(cause) => LookupView::Done(Err(Failure::Io { path, cause })),
        },
        LookupView::Done(result) => LookupView::Done(result),
    }
}

/// What a read of `path` brings from `tree`, as an answer. The cause of an
/// absence is left empty.
pub open spec fn answer_of(tree: Tree, path: Seq<char>) -> Answer {
    match read(tree, path) {
        Some(bytes) => Answer::Found(bytes),
        None => Answer::Absent(Seq::empty()),
    }
}

/// What reading `text` back into a key of type `K` gives.
pub open spec fn decoded<K: Index>(text: Seq<char>) -> DecodedView {
    match K::reading(text) {
        None => DecodedView::NoKey,
        Some(None) => DecodedView::NoPointer,
        Some(Some(pointer)) => DecodedView::Pointer(pointer),
    }
}

/// What reading the answer to a lookup in `state` back into a key of type
/// `K` gives, where the answer is an index entry that is valid text, and no
/// key otherwise.
pub open spec fn decoded_answer<K: Index>(state: LookupView, answer: Answer) -> DecodedView {
    match (state, answer) {
        (LookupView::Entry { path }, Answer::Found(bytes)) => if valid_utf8(bytes) {
            decoded::<K>(decode_utf8(bytes))
        } else {
            DecodedView::NoKey
        },
        _ => DecodedView::NoKey,
    }
}

/// A lookup for a key of type `K` moved one read further on `tree`.
pub open spec fn stepped<K: Index>(state: LookupView, tree: Tree) -> LookupView {
    match state {
        LookupView::Entry { path } => resumed(
            state,
            answer_of(tree, path),
            decoded_answer::<K>(state, answer_of(tree, path)),
        ),
        LookupView::Content { path } => resumed(state, answer_of(tree, path), DecodedView::NoKey),
        LookupView::Done(_) => state,
    }
}

/// How a lookup for a key of type `K` with the given identity text ends on
/// `tree`, where every read succeeds or finds nothing: after the read of the
/// entry and the read of the content.
pub open spec fn fetched<K: Index>(
    index_root: Seq<char>,
    identity: Option<Seq<char>>,
    tree: Tree,
) -> LookupView {
    stepped::<K>(stepped::<K>(begun(index_root, identity), tree), tree)
}

/// The text that `bytes` are the UTF-8 form of, if they are one. This is
/// `core::str::from_utf8`, which checks the bytes and hands them back as text
/// without changing them.
#[verifier::external_body]
fn text_of(bytes: &[u8]) -> (text: Option<&str>)
    ensures
        match text {
            Some(t) => valid_utf8(bytes@) && t@ == decode_utf8(bytes@),
            None => !valid_utf8(bytes@),
        },
{
    core::str::from_utf8(bytes).ok()
}

/// Reads `text` back into a key of type `K` and asks it for its pointer.
pub fn decode<K: Index>(text: &str) -> (r: Decoded)
    ensures
        r@ == decoded::<K>(text@),
{
    match K::deserialize(text) {
        None => Decoded::NoKey,
        Some(key) => match key.get_value_hash_path() {
            None => Decoded::NoPointer,
            Some(pointer) => Decoded::Pointer(pointer),
        },
    }
}

impl Cache {
    /// The root of the index.
    pub closed spec fn index_root(&self) -> Seq<char> {
        self.index_path@
    }

    /// The root of the content store.
    pub closed spec fn content_root(&self) -> Seq<char> {
        self.cache_path@
    }

    /// A cache with its index under `index_path` and its content under
    /// `cache_path`.
    pub fn new(index_path: String, cache_path: String) -> (cache: Cache)
        ensures
            cache.index_root() == index_path@,
            cache.content_root() == cache_path@,
    {
        Cache { index_path, cache_path }
    }

    /// Saves `value` under `key`: the two writes to perform, the content
    /// first. The key comes back pointed at the content.
    pub fn save<K: Index>(&self, key: &mut K, value: &[u8]) -> (r: Result<SavePlan, CacheError>)
        ensures
            key_saved(self.index_root(), self.content_root(), *old(key), value@, *final(key), r),
    {
        crate::cache::save::save(self.index_path.as_str(), self.cache_path.as_str(), key, value)
    }

    /// Begins the lookup of the payload saved under the identity of `key`:
    /// the index entry to read, at the path made from the identity text of
    /// the key. Whether the key points at content makes no difference.
    pub fn get<K: Index>(&self, key: &K) -> (lookup: Lookup)
        ensures
            lookup@ == begun(self.index_root(), key.identity()),
            key.identity() matches Some(identity) ==> well_hashed(identity),
    {
        match key.serialize_identity() {
            Some(identity) => self.get_by_identity(Some(identity.as_str())),
            None => self.get_by_identity(None),
        }
    }

    /// Begins the lookup of the payload saved under the identity text
    /// `identity`.
    pub fn get_by_identity(&self, identity: Option<&str>) -> (lookup: Lookup)
        ensures
            match identity {
                Some(text) => lookup@ == begun(self.index_root(), Some(text@)) && well_hashed(
                    text@,
                ),
                None => lookup@ == begun(self.index_root(), None),
            },
    {
        match identity {
            Some(text) => Lookup::Entry { path: key_path_of(self.index_path.as_str(), text) },
            None => Lookup::Done(Err(CacheError::Serialization)),
        }
    }
}

impl Lookup {
    /// The path of the file that is to be read next, if the lookup is not over.
    pub fn wanted(&self) -> (path: Option<&str>)
        ensures
            match self@ {
                LookupView::Entry { path: p } => path matches Some(q) && q@ == p,
                LookupView::Content { path: p } => path matches Some(q) && q@ == p,
                LookupView::Done(_) => path is None,
            },
    {
        match self {
            Lookup::Entry { path } => Some(path.as_str()),
            Lookup::Content { path } => Some(path.as_str()),
            Lookup::Done(_) => None,
        }
    }

    /// Goes on with the lookup once the read that it asked for brought
    /// `answer`, for a caller that reads index entries back into keys
    /// itself: `decoded` is what that gave, and counts only where the answer
    /// is an index entry that is valid text. A lookup that is over stays as
    /// it is.
    pub fn resume_decoded(self, answer: ReadOutcome, decoded: Decoded) -> (next: Lookup)
        ensures
            next@ == resumed(self@, answer@, decoded@),
    {
        match self {
            Lookup::Entry { path } => match answer {
                ReadOutcome::Found(bytes) => match text_of(bytes.as_slice()) {
                    None => not_text_at(path),
                    Some(_) => pointed_by(decoded),
                },
                ReadOutcome::Absent(_) => Lookup::Done(Err(CacheError::NotFound { path })),
                ReadOutcome::Failed(cause) => Lookup::Done(Err(CacheError::Io { path, cause })),
            },
            Lookup::Content { path } => content_read(path, answer),
            Lookup::Done(result) => Lookup::Done(result),
        }
    }

    /// Goes on with the lookup of a key of type `K` once the read that it
    /// asked for brought `answer`. An index entry that is valid text is read
    /// back into a key of that type, and the lookup goes on to the content
    /// that this key points at. A lookup that is over stays as it is.
    pub fn resume<K: Index>(self, answer: ReadOutcome) -> (next: Lookup)
        ensures
            next@ == resumed(self@, answer@, decoded_answer::<K>(self@, answer@)),
    {
        match self {
            Lookup::Entry { path } => match answer {
                ReadOutcome::Found(bytes) => match text_of(bytes.as_slice()) {
                    None => not_text_at(path),
                    Some(text) => pointed_by(decode::<K>(text)),
                },
                ReadOutcome::Absent(_) => Lookup::Done(Err(CacheError::NotFound { path })),
                ReadOutcome::Failed(cause) => Lookup::Done(Err(CacheError::Io { path, cause })),
            },
            Lookup::Content { path } => content_read(path, answer),
            Lookup::Done(result) => Lookup::Done(result),
        }
    }
}

/// How a lookup ends on an index entry at `path` that is no text.
fn not_text_at(path: String) -> (next: Lookup)
    ensures
        next@ == LookupView::Done(Err(Failure::Io { path: path@, cause: not_text() })),
{
    Lookup::Done(
        Err(CacheError::Io { path, cause: String::from_str("index entry is not valid UTF-8") }),
    )
}

/// How a lookup goes on from an index entry that was read back into a key.
fn pointed_by(decoded: Decoded) -> (next: Lookup)
    ensures
        next@ == match decoded@ {
            DecodedView::NoKey => LookupView::Done(Err(Failure::Serialization)),
            DecodedView::NoPointer => LookupView::Done(Err(Failure::MissingPointer)),
            DecodedView::Pointer(pointer) => LookupView::Content { path: pointer },
        },
{
    match decoded {
        Decoded::NoKey => Lookup::Done(Err(CacheError::Serialization)),
        Decoded::NoPointer => Lookup::Done(Err(CacheError::MissingPointer)),
        Decoded::Pointer(pointer) => Lookup::Content { path: pointer },
    }
}

/// How a lookup ends once the read of the content at `path` brought `answer`.
fn content_read(path: String, answer: ReadOutcome) -> (next: Lookup)
    ensures
        next@ == resumed(LookupView::Content { path: path@ }, answer@, DecodedView::NoKey),
{
    match answer {
        ReadOutcome::Found(bytes) => Lookup::Done(Ok(bytes)),
        ReadOutcome::Absent(cause) => Lookup::Done(Err(CacheError::Io { path, cause })),
        ReadOutcome::Failed(cause) => Lookup::Done(Err(CacheError::Io { path, cause })),
    }
}

} // verus!
