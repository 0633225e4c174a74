//! The directory tree as the cache sees it, and the requests that the cache
//! makes of whoever holds the real one.
use crate::cache::error::{CacheError, Failure};
use vstd::prelude::*;
use vstd::string::*;

verus! {

/// What each path of the tree holds. A path that is no key holds no file.
pub type Tree = Map<Seq<char>, Seq<u8>>;

/// Whether `i` is the place of the last `/` in `path`.
pub open spec fn last_slash_at(path: Seq<char>, i: int) -> bool {
    &&& 0 <= i < path.len()
    &&& path[i] == '/'
    &&& forall|j: int| i < j < path.len() ==> path[j] != '/'
}

/// The directory in which `path` lies: everything before its last `/`.
/// Empty where `path` has none.
pub open spec fn parent(path: Seq<char>) -> Seq<char> {
    if exists|i: int| last_slash_at(path, i) {
        path.subrange(0, choose|i: int| last_slash_at(path, i))
    } else {
        Seq::empty()
    }
}

/// One whole-file write that the caller is to perform: create `dir` with all
/// that lies above it, then replace whatever `path` holds by `bytes`.
#[derive(Debug, Clone)]
pub struct FileWrite {
    pub dir: String,
    pub path: String,
    pub bytes: Vec<u8>,
}

/// What a read of one path brought.
#[derive(Debug, Clone)]
pub enum ReadOutcome {
    /// The file was there; these are its bytes.
    Found(Vec<u8>),
    /// There is no file at the path. The text says how the system put it.
    Absent(String),
    /// The read failed for another reason, given as text.
    Failed(String),
}

/// What a read of `path` brings from `tree`: its bytes, or nothing.
pub open spec fn read(tree: Tree, path: Seq<char>) -> Option<Seq<u8>> {
    if tree.contains_key(path) {
        Some(tree[path])
    } else {
        None
    }
}

impl FileWrite {
    /// The tree once this write has been performed on `tree`.
    pub open spec fn applied(&self, tree: Tree) -> Tree {
        tree.insert(self.path@, self.bytes@)
    }

    /// The write of `bytes` to `path`, with the directory that has to exist
    /// for it.
    pub fn new(path: String, bytes: Vec<u8>) -> (w: FileWrite)
        ensures
            w.path@ == path@,
            w.bytes@ == bytes@,
            w.dir@ == parent(path@),
    {
        let chars = crate::text::to_chars(path.as_str());
        let mut i: usize = chars.len();
        while i > 0 && chars[i - 1] != '/'
            invariant
                i <= chars.len(),
                forall|j: int| i <= j < chars.len() ==> chars@[j] != '/',
            decreases i,
        {
            i -= 1;
        }
        let dir = if i > 0 {
            proof {
                let k = choose|k: int| last_slash_at(chars@, k);
                assert(last_slash_at(chars@, i - 1));
                if k < i - 1 {
                    assert(chars@[i - 1] != '/');
                } else if k > i - 1 {
                    assert(chars@[k] != '/');
                }
            }
            crate::text::to_text(&chars, 0, i - 1)
        } else {
            assert(forall|k: int| !last_slash_at(chars@, k));
            String::new()
        };
        FileWrite { dir, path, bytes }
    }

    /// What the operation that asked for this write reports once the write
    /// was tried: the path written, or the failure with its cause.
    pub fn finish(self, outcome: Result<(), String>) -> (r: Result<String, CacheError>)
        ensures
            match outcome {
                Ok(_) => r matches Ok(p) && p@ == self.path@,
                Err(cause) => r matches Err(e) && e@ == (Failure::Io {
                    path: self.path@,
                    cause: cause@,
                }),
            },
    {
        match outcome {
            Ok(_) => Ok(self.path),
            Err(cause) => Err(CacheError::Io { path: self.path, cause }),
        }
    }
}

} // verus!
