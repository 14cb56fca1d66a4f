//! The directory lister: immediate children of one directory.
//!
//! `list` enumerates the snapshot entries whose path is an immediate
//! child of the requested directory, in snapshot order. If the snapshot
//! records no readable directory at that path — it is missing, a file,
//! or unreadable — the listing is empty rather than an error: one
//! unreadable directory never aborts navigation.

use vstd::prelude::*;

use crate::path::{is_child_path, FsPath};
use crate::tree::{dir_readable_at, Entry, EntryView, FsTree};

verus! {

/// The snapshot entries that are immediate children of `d`, in snapshot
/// order, regardless of whether `d` itself can be enumerated.
pub open spec fn children_of(t: Seq<EntryView>, d: Seq<Seq<char>>) -> Seq<EntryView>
    decreases t.len(),
{
    if t.len() == 0 {
        Seq::empty()
    } else if is_child_path(t.last().path, d) {
        children_of(t.drop_last(), d).push(t.last())
    } else {
        children_of(t.drop_last(), d)
    }
}

/// What listing directory `d` in snapshot `t` returns: its immediate
/// children when `d` is a readable directory, and nothing otherwise.
pub open spec fn spec_list(t: Seq<EntryView>, d: Seq<Seq<char>>) -> Seq<EntryView> {
    if dir_readable_at(t, d) {
        children_of(t, d)
    } else {
        Seq::empty()
    }
}

/// Each listed entry is an immediate child of `d` taken from `t`.
proof fn lemma_children_of_sound(t: Seq<EntryView>, d: Seq<Seq<char>>, j: int)
    requires
        0 <= j < children_of(t, d).len(),
    ensures
        is_child_path(children_of(t, d)[j].path, d),
        t.contains(children_of(t, d)[j]),
    decreases t.len(),
{
    let t0 = t.drop_last();
    let c0 = children_of(t0, d);
    let c = children_of(t, d);
    if j < c0.len() {
        lemma_children_of_sound(t0, d, j);
        assert(c[j] == c0[j]);
        let k = choose|k: int| 0 <= k < t0.len() && t0[k] == c0[j];
        assert(t[k] == t0[k]);
        assert(t.contains(c[j]));
    } else {
        assert(c[j] == t.last());
        assert(t[t.len() - 1] == t.last());
        assert(t.contains(c[j]));
    }
}

/// Each immediate child of `d` recorded in `t` is listed.
proof fn lemma_children_of_complete(t: Seq<EntryView>, d: Seq<Seq<char>>, j: int)
    requires
        0 <= j < t.len(),
        is_child_path(t[j].path, d),
    ensures
        children_of(t, d).contains(t[j]),
    decreases t.len(),
{
    let t0 = t.drop_last();
    let c0 = children_of(t0, d);
    let c = children_of(t, d);
    if j < t.len() - 1 {
        assert(t0[j] == t[j]);
        lemma_children_of_complete(t0, d, j);
        let k = choose|k: int| 0 <= k < c0.len() && c0[k] == t0[j];
        assert(c[k] == c0[k]);
        assert(c.contains(t[j]));
    } else {
        assert(t[j] == t.last());
        assert(c[c.len() - 1] == t.last());
        assert(c.contains(t[j]));
    }
}

/// Listing law: `list(D)` returns only entries of the snapshot that are
/// immediate children of `D` — never a grandchild and never `D` itself —
/// and, when `D` is a readable directory, all of them.
pub proof fn lemma_list_members(t: Seq<EntryView>, d: Seq<Seq<char>>)
    ensures
        forall|j: int|
            0 <= j < spec_list(t, d).len() ==> is_child_path(
                #[trigger] spec_list(t, d)[j].path,
                d,
            ) && t.contains(spec_list(t, d)[j]),
        forall|j: int|
            0 <= j < t.len() && is_child_path(#[trigger] t[j].path, d) && dir_readable_at(t, d)
                ==> spec_list(t, d).contains(t[j]),
{
    assert forall|j: int| 0 <= j < spec_list(t, d).len() implies is_child_path(
        #[trigger] spec_list(t, d)[j].path,
        d,
    ) && t.contains(spec_list(t, d)[j]) by {
        lemma_children_of_sound(t, d, j);
    }
    assert forall|j: int|
        0 <= j < t.len() && is_child_path(#[trigger] t[j].path, d) && dir_readable_at(
            t,
            d,
        ) implies spec_list(t, d).contains(t[j]) by {
        lemma_children_of_complete(t, d, j);
    }
}

/// Lists the immediate children of `dir` recorded in the snapshot, in
/// snapshot order; empty when the snapshot has no readable directory at
/// `dir` (missing, a file, or unreadable) — such a failure is silent.
pub fn list(tree: &FsTree, dir: &FsPath) -> (r: Vec<Entry>)
    ensures
        r.deep_view() == spec_list(tree@, dir@),
        !dir_readable_at(tree@, dir@) ==> r@.len() == 0,
{
    let mut r: Vec<Entry> = Vec::new();
    if !tree.dir_readable(dir) {
        proof {
            assert(r.deep_view() =~= spec_list(tree@, dir@));
        }
        return r;
    }
    let ghost gview = Seq::<EntryView>::empty();
    let mut gview = Ghost(gview);
    let mut i: usize = 0;
    while i < tree.entries.len()
        invariant
            0 <= i <= tree.entries.len(),
            gview@ == children_of(tree@.take(i as int), dir@),
            r@.len() == gview@.len(),
            forall|j: int| 0 <= j < r@.len() ==> r@[j]@ == gview@[j],
        decreases tree.entries.len() - i,
    {
        let e = &tree.entries[i];
        proof {
            assert(tree@[i as int] == e@);
            assert(tree@.take(i + 1).drop_last() =~= tree@.take(i as int));
            assert(tree@.take(i + 1).last() == tree@[i as int]);
        }
        if e.path.is_child_of(dir) {
            r.push(e.clone());
            proof {
                gview@ = gview@.push(e@);
            }
        }
        i += 1;
    }
    proof {
        assert(tree@.take(tree@.len() as int) =~= tree@);
        assert(r.deep_view() =~= gview@);
    }
    r
}

} // verus!
