//! Saving: the content is written first and the index entry that points at it
//! second, so that no entry ever names content that was not written.
use crate::cache::content::{blob_path, put, put_gives};
use crate::cache::error::{CacheError, Failure};
use crate::cache::index::{add_index, entry_written, Index};
use crate::cache::tree::{FileWrite, Tree};
use vstd::prelude::*;

verus! {

/// The two writes that make up a save, in the order in which they are to be
/// performed. Where the first fails the second is not to be tried.
#[derive(Debug, Clone)]
pub struct SavePlan {
    /// The payload, to its content path.
    pub content: FileWrite,
    /// The index entry, to the path of the key.
    pub entry: FileWrite,
}

/// A save under way: which write is to be performed next, or how the save
/// ended.
#[derive(Debug)]
pub enum Saving {
    /// The payload is to be written. The entry waits for it.
    Content { content: FileWrite, entry: FileWrite },
    /// The payload is written, and the entry is to be.
    Entry { entry: FileWrite },
    /// The save is over: the path of the index entry, or why there is none.
    Done(Result<String, CacheError>),
}

impl SavePlan {
    /// The tree once both writes have been performed on `tree`.
    pub open spec fn applied(&self, tree: Tree) -> Tree {
        self.entry.applied(self.content.applied(tree))
    }

    /// Begins the save: the payload is to be written first.
    pub fn begin(self) -> (saving: Saving)
        ensures
            saving == (Saving::Content { content: self.content, entry: self.entry }),
    {
        Saving::Content { content: self.content, entry: self.entry }
    }
}

impl Saving {
    /// The write that is to be performed next, if the save is not over.
    pub fn wanted(&self) -> (write: Option<&FileWrite>)
        ensures
            match *self {
                Saving::Content { content, entry } => write == Some(&content),
                Saving::Entry { entry } => write == Some(&entry),
                Saving::Done(_) => write is None,
            },
    {
        match self {
            Saving::Content { content, .. } => Some(content),
            Saving::Entry { entry } => Some(entry),
            Saving::Done(_) => None,
        }
    }

    /// Goes on with the save once the write that it asked for was tried:
    /// `outcome` is `Ok`, or the cause for which the write failed. After the
    /// payload comes the entry; after the entry the save is done and gives
    /// the path of the entry. A write that fails ends the save with that
    /// failure, so that no entry is written for a payload that was not.
    /// A save that is over stays as it is.
    pub fn resume(self, outcome: Result<(), String>) -> (next: Saving)
        ensures
            match self {
                Saving::Content { content, entry } => match outcome {
                    Ok(_) => next == (Saving::Entry { entry }),
                    Err(cause) => next matches Saving::Done(Err(e)) && e@ == (Failure::Io {
                        path: content.path@,
                        cause: cause@,
                    }),
                },
                Saving::Entry { entry } => match outcome {
                    Ok(_) => next matches Saving::Done(Ok(path)) && path@ == entry.path@,
                    Err(cause) => next matches Saving::Done(Err(e)) && e@ == (Failure::Io {
                        path: entry.path@,
                        cause: cause@,
                    }),
                },
                Saving::Done(result) => next == Saving::Done(result),
            },
    {
        match self {
            Saving::Content { content, entry } => match outcome {
                Ok(_) => Saving::Entry { entry },
                Err(cause) => Saving::Done(content.finish(Err(cause))),
            },
            Saving::Entry { entry } => Saving::Done(entry.finish(outcome)),
            Saving::Done(result) => Saving::Done(result),
        }
    }
}

/// What a save of `value` asks for in a cache with the given roots, under a
/// key whose identity text is `identity` and whose canonical text, once it
/// points at the content, is `encoding`.
pub open spec fn saved(
    index_root: Seq<char>,
    content_root: Seq<char>,
    identity: Seq<char>,
    encoding: Seq<char>,
    value: Seq<u8>,
    plan: SavePlan,
) -> bool {
    &&& put_gives(content_root, value, plan.content)
    &&& entry_written(index_root, identity, encoding, plan.entry)
}

/// What a save of `value` makes of the key `before`: the key that comes
/// back, pointed at the content path of `value`, and the plan or the failure.
/// The save fails exactly where the key has no identity text, in which case
/// it comes back as it was, or no canonical text once it is pointed.
pub open spec fn key_saved<K: Index>(
    index_root: Seq<char>,
    content_root: Seq<char>,
    before: K,
    value: Seq<u8>,
    after: K,
    r: Result<SavePlan, CacheError>,
) -> bool {
    match before.identity() {
        Some(identity) => {
            &&& after.value_hash_path() == Some(blob_path(content_root, value))
            &&& after.identity() == before.identity()
            &&& match after.encoding() {
                Some(encoding) => r matches Ok(plan) && saved(
                    index_root,
                    content_root,
                    identity,
                    encoding,
                    value,
                    plan,
                ),
                None => r matches Err(e) && e@ == Failure::Serialization,
            }
        },
        None => {
            &&& after == before
            &&& r matches Err(e) && e@ == Failure::Serialization
        },
    }
}

/// Saves `value` under the key `index`: the write of the payload to its
/// content path under `cache_base_path`, and the write of the key, pointed at
/// that path, to its index path under `index_base_path`.
pub fn save<K: Index>(
    index_base_path: &str,
    cache_base_path: &str,
    index: &mut K,
    value: &[u8],
) -> (r: Result<SavePlan, CacheError>)
    ensures
        key_saved(index_base_path@, cache_base_path@, *old(index), value@, *final(index), r),
{
    let content = match put(cache_base_path, value) {
        Ok(write) => write,
        Err(e) => {
            return Err(e);
        },
    };
    let entry = match add_index(index_base_path, index, content.path.clone()) {
        Ok(write) => write,
        Err(e) => {
            return Err(e);
        },
    };
    Ok(SavePlan { content, entry })
}

} // verus!
