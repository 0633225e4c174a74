//! What holds of the cache as a whole, stated over the tree of files that its
//! writes build up and its reads consult.
use crate::cache::content::{blob_path, put_gives, sharded, well_rendered};
use crate::cache::digest::{integrity_text, lemma_hex_text, sha256};
use crate::cache::error::Failure;
use crate::cache::index::{index_name, index_path, lawful, well_hashed, Index};
use crate::cache::save::{key_saved, SavePlan};
use crate::cache::tree::{read, FileWrite, Tree};
use crate::cache::{begun, decoded, fetched, stepped, DecodedView, LookupView};
use vstd::prelude::*;
use vstd::utf8::{encode_utf8, encode_utf8_decode_utf8, encode_utf8_valid_utf8};

verus! {

/// In a sharded path the `/` before the last part stands where the length of
/// that part says.
proof fn lemma_sharded_slash(base: Seq<char>, name: Seq<char>)
    requires
        name.len() >= 4,
    ensures
        sharded(base, name).len() == base.len() + name.len() + 3,
        sharded(base, name)[base.len() as int + 6] == '/',
        forall|i: int|
            base.len() + 7 <= i < sharded(base, name).len() ==> sharded(base, name)[i] == name[i
                - base.len() - 3],
{
}

/// No index entry lies where a content blob lies: the last part of an index
/// path is sixty hexadecimal digits, while a content path has a `/` forty
/// characters before its end.
pub proof fn lemma_paths_differ(
    index_root: Seq<char>,
    identity: Seq<char>,
    content_root: Seq<char>,
    content: Seq<u8>,
)
    requires
        well_hashed(identity),
        well_rendered(content),
    ensures
        index_path(index_root, identity) != blob_path(content_root, content),
{
    let name = index_name(identity);
    lemma_hex_text(sha256(encode_utf8(identity)));
    assert(name.len() == 64);
    let digest = integrity_text(content).subrange(7, 51);
    let base = content_root + seq!['/', 's', 'h', 'a', '2', '5', '6'];
    let entry = index_path(index_root, identity);
    let blob = blob_path(content_root, content);
    lemma_sharded_slash(index_root, name);
    lemma_sharded_slash(base, digest);
    if entry == blob {
        let at = blob.len() - 41;
        assert(at == base.len() + 6);
        assert(blob[at] == '/');
        assert(index_root.len() + 7 <= at < entry.len());
        assert(entry[at] == name[at - index_root.len() - 3]);
        assert(name[at - index_root.len() - 3] != '/');
    }
}

/// Storing the same bytes twice asks for the same write twice: the same path
/// both times, and after either write, or both, the file at that path holds
/// the bytes.
pub proof fn law_put_idempotent(
    root: Seq<char>,
    content: Seq<u8>,
    first: FileWrite,
    second: FileWrite,
    tree: Tree,
)
    requires
        put_gives(root, content, first),
        put_gives(root, content, second),
    ensures
        first.path@ == second.path@,
        read(first.applied(tree), first.path@) == Some(content),
        second.applied(first.applied(tree)) == first.applied(tree),
{
    assert(second.applied(first.applied(tree)) =~= first.applied(tree));
}

/// The path under which a save files the entry of a key is the path at
/// which a lookup with any key of the same identity text begins, whether or
/// not that key points at content, and although the entry itself holds the
/// pointer.
pub proof fn law_same_index_path<K: Index>(
    index_root: Seq<char>,
    content_root: Seq<char>,
    before: K,
    value: Seq<u8>,
    after: K,
    plan: SavePlan,
    probe: K,
)
    requires
        key_saved(index_root, content_root, before, value, after, Ok(plan)),
        probe.identity() == before.identity(),
    ensures
        begun(index_root, probe.identity()) == (LookupView::Entry { path: plan.entry.path@ }),
        plan.entry.path@ == index_path(index_root, before.identity()->0),
        begun(index_root, after.identity()) == (LookupView::Entry { path: plan.entry.path@ }),
        after.value_hash_path() is Some,
{
}

/// What was saved under a key is what a lookup with any key of the same
/// identity text delivers, on the tree that the two writes of the save leave.
pub proof fn law_round_trip<K: Index>(
    index_root: Seq<char>,
    content_root: Seq<char>,
    before: K,
    value: Seq<u8>,
    after: K,
    plan: SavePlan,
    probe: K,
    tree: Tree,
)
    requires
        lawful::<K>(),
        key_saved(index_root, content_root, before, value, after, Ok(plan)),
        probe.identity() == before.identity(),
    ensures
        fetched::<K>(index_root, probe.identity(), plan.applied(tree)) == LookupView::Done(
            Ok(value),
        ),
{
    let identity = before.identity()->0;
    let encoding = after.encoding()->0;
    let after_tree = plan.applied(tree);
    let entry_path = plan.entry.path@;
    let content_path = plan.content.path@;
    lemma_paths_differ(index_root, identity, content_root, value);
    assert(entry_path != content_path);
    let first = begun(index_root, probe.identity());
    assert(first == LookupView::Entry { path: entry_path });
    assert(read(after_tree, entry_path) == Some(encode_utf8(encoding)));
    encode_utf8_valid_utf8(encoding);
    encode_utf8_decode_utf8(encoding);
    assert(after.value_hash_path() == Some(content_path));
    assert(decoded::<K>(encoding) == DecodedView::Pointer(content_path));
    let second = stepped::<K>(first, after_tree);
    assert(second == LookupView::Content { path: content_path });
    assert(read(after_tree, content_path) == Some(value));
}

/// Of two saves under the same identity text the later one is the one that a
/// lookup finds. The content of both stays where it was put, as long as the
/// two do not share one content path.
pub proof fn law_last_write_wins<K: Index>(
    index_root: Seq<char>,
    content_root: Seq<char>,
    before1: K,
    value1: Seq<u8>,
    after1: K,
    plan1: SavePlan,
    before2: K,
    value2: Seq<u8>,
    after2: K,
    plan2: SavePlan,
    probe: K,
    tree: Tree,
)
    requires
        lawful::<K>(),
        key_saved(index_root, content_root, before1, value1, after1, Ok(plan1)),
        key_saved(index_root, content_root, before2, value2, after2, Ok(plan2)),
        before2.identity() == before1.identity(),
        probe.identity() == before1.identity(),
    ensures
        fetched::<K>(index_root, probe.identity(), plan2.applied(plan1.applied(tree)))
            == LookupView::Done(Ok(value2)),
        read(plan2.applied(plan1.applied(tree)), plan2.content.path@) == Some(value2),
        plan1.content.path@ != plan2.content.path@ ==> read(
            plan2.applied(plan1.applied(tree)),
            plan1.content.path@,
        ) == Some(value1),
{
    law_round_trip(
        index_root,
        content_root,
        before2,
        value2,
        after2,
        plan2,
        probe,
        plan1.applied(tree),
    );
    let identity = before1.identity()->0;
    lemma_paths_differ(index_root, identity, content_root, value1);
    lemma_paths_differ(index_root, identity, content_root, value2);
}

/// A lookup for a key under whose index path the tree holds nothing ends
/// with `NotFound` for that path: no payload, not even an empty one.
pub proof fn law_miss<K: Index>(index_root: Seq<char>, probe: K, tree: Tree)
    requires
        probe.identity() matches Some(identity) && !tree.contains_key(
            index_path(index_root, identity),
        ),
    ensures
        fetched::<K>(index_root, probe.identity(), tree) == LookupView::Done(
            Err(Failure::NotFound { path: index_path(index_root, probe.identity()->0) }),
        ),
{
}

} // verus!
