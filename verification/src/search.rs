//! The recursive search engine: depth-first substring search over a
//! subtree.
//!
//! A file in the snapshot is a hit when it lies strictly below the
//! search root, its name (last segment, not the full path) contains the
//! query as a literal case-sensitive substring, and every directory on
//! the way down from the root — the root itself included — can be
//! enumerated. An unreadable directory silently hides its whole subtree,
//! exactly as a depth-first walk that skips directories it cannot read
//! would; it never aborts the search. A blank query (empty or
//! whitespace-only) returns no hits and traverses nothing.

use vstd::prelude::*;

use crate::path::{in_subtree, name_of, FsPath};
use crate::text::{blank, contains_seq, is_blank, str_contains};
use crate::tree::{dir_readable_at, Entry, EntryKind, EntryView, FsTree};

verus! {

/// Every directory strictly above `p` and at or below `root` — that is,
/// every directory a walk from `root` passes through to reach `p` — is
/// recorded in `t` as readable.
pub open spec fn ancestors_readable(
    t: Seq<EntryView>,
    root: Seq<Seq<char>>,
    p: Seq<Seq<char>>,
) -> bool {
    forall|k: int| root.len() <= k < p.len() ==> dir_readable_at(t, #[trigger] p.take(k))
}

/// `e` is a hit of a search from `root` with query `q` in snapshot `t`:
/// a file, strictly inside the subtree, name containing the query, and
/// reachable through readable directories only.
pub open spec fn is_hit(
    t: Seq<EntryView>,
    root: Seq<Seq<char>>,
    q: Seq<char>,
    e: EntryView,
) -> bool {
    &&& e.kind == EntryKind::File
    &&& in_subtree(e.path, root)
    &&& contains_seq(name_of(e.path), q)
    &&& ancestors_readable(t, root, e.path)
}

/// The hits among `cands`, in order, judged against the whole snapshot `t`.
pub open spec fn hits_in(
    cands: Seq<EntryView>,
    t: Seq<EntryView>,
    root: Seq<Seq<char>>,
    q: Seq<char>,
) -> Seq<EntryView>
    decreases cands.len(),
{
    if cands.len() == 0 {
        Seq::empty()
    } else if is_hit(t, root, q, cands.last()) {
        hits_in(cands.drop_last(), t, root, q).push(cands.last())
    } else {
        hits_in(cands.drop_last(), t, root, q)
    }
}

/// All hits of the snapshot, in snapshot order, blank or not.
pub open spec fn spec_hits(t: Seq<EntryView>, root: Seq<Seq<char>>, q: Seq<char>) -> Seq<
    EntryView,
> {
    hits_in(t, t, root, q)
}

/// What a search returns: nothing for a blank query, the hits otherwise.
pub open spec fn spec_search(t: Seq<EntryView>, root: Seq<Seq<char>>, q: Seq<char>) -> Seq<
    EntryView,
> {
    if blank(q) {
        Seq::empty()
    } else {
        spec_hits(t, root, q)
    }
}

/// Each element of `hits_in` is a hit and comes from the candidates.
proof fn lemma_hits_sound(
    cands: Seq<EntryView>,
    t: Seq<EntryView>,
    root: Seq<Seq<char>>,
    q: Seq<char>,
    j: int,
)
    requires
        0 <= j < hits_in(cands, t, root, q).len(),
    ensures
        is_hit(t, root, q, hits_in(cands, t, root, q)[j]),
        cands.contains(hits_in(cands, t, root, q)[j]),
    decreases cands.len(),
{
    let c0 = hits_in(cands.drop_last(), t, root, q);
    let c = hits_in(cands, t, root, q);
    if j < c0.len() {
        lemma_hits_sound(cands.drop_last(), t, root, q, j);
        assert(c[j] == c0[j]);
        let k = choose|k: int|
            0 <= k < cands.drop_last().len() && cands.drop_last()[k] == c0[j];
        assert(cands[k] == cands.drop_last()[k]);
        assert(cands.contains(c[j]));
    } else {
        assert(c[j] == cands.last());
        assert(cands[cands.len() - 1] == cands.last());
        assert(cands.contains(c[j]));
    }
}

/// Each candidate that is a hit appears in `hits_in`.
proof fn lemma_hits_complete(
    cands: Seq<EntryView>,
    t: Seq<EntryView>,
    root: Seq<Seq<char>>,
    q: Seq<char>,
    j: int,
)
    requires
        0 <= j < cands.len(),
        is_hit(t, root, q, cands[j]),
    ensures
        hits_in(cands, t, root, q).contains(cands[j]),
    decreases cands.len(),
{
    let c0 = hits_in(cands.drop_last(), t, root, q);
    let c = hits_in(cands, t, root, q);
    if j < cands.len() - 1 {
        assert(cands.drop_last()[j] == cands[j]);
        lemma_hits_complete(cands.drop_last(), t, root, q, j);
        let k = choose|k: int| 0 <= k < c0.len() && c0[k] == cands.drop_last()[j];
        assert(c[k] == c0[k]);
        assert(c.contains(cands[j]));
    } else {
        assert(cands[j] == cands.last());
        assert(c[c.len() - 1] == cands.last());
        assert(c.contains(cands[j]));
    }
}

/// Search law: every search result is a file — never a directory — lying
/// strictly within the root's subtree, reachable through readable
/// directories, with the query contained in its file name; and every
/// snapshot entry with those properties is a result, unless the query is
/// blank, in which case there are no results at all.
pub proof fn lemma_search_members(t: Seq<EntryView>, root: Seq<Seq<char>>, q: Seq<char>)
    ensures
        forall|j: int|
            0 <= j < spec_search(t, root, q).len() ==> is_hit(
                t,
                root,
                q,
                #[trigger] spec_search(t, root, q)[j],
            ) && t.contains(spec_search(t, root, q)[j]),
        forall|j: int|
            0 <= j < t.len() && is_hit(t, root, q, #[trigger] t[j]) && !blank(q) ==> spec_search(
                t,
                root,
                q,
            ).contains(t[j]),
        blank(q) ==> spec_search(t, root, q) == Seq::<EntryView>::empty(),
{
    if !blank(q) {
        assert forall|j: int| 0 <= j < spec_search(t, root, q).len() implies is_hit(
            t,
            root,
            q,
            #[trigger] spec_search(t, root, q)[j],
        ) && t.contains(spec_search(t, root, q)[j]) by {
            lemma_hits_sound(t, t, root, q, j);
        }
        assert forall|j: int|
            0 <= j < t.len() && is_hit(t, root, q, #[trigger] t[j]) && !blank(
                q,
            ) implies spec_search(t, root, q).contains(t[j]) by {
            lemma_hits_complete(t, t, root, q, j);
        }
    }
}

/// Probes every directory a walk from `root` to `p` passes through.
fn ancestors_readable_probe(tree: &FsTree, root: &FsPath, p: &FsPath) -> (r: bool)
    requires
        root@.len() <= p@.len(),
    ensures
        r == ancestors_readable(tree@, root@, p@),
{
    let mut k = root.depth();
    while k < p.depth()
        invariant
            root@.len() <= k <= p@.len(),
            forall|m: int| root@.len() <= m < k ==> dir_readable_at(tree@, #[trigger] p@.take(m)),
        decreases p@.len() - k,
    {
        let pref = p.prefix(k);
        if !tree.dir_readable(&pref) {
            return false;
        }
        k += 1;
    }
    true
}

/// Appends to `results` every hit of a search from `root` with `query`,
/// in snapshot order; what was already in `results` stays untouched.
/// The blank-query short circuit belongs to the caller: this walk itself
/// treats the query literally (an empty query matches every name).
pub fn search_files(tree: &FsTree, root: &FsPath, query: &str, results: &mut Vec<Entry>)
    ensures
        final(results).deep_view() == old(results).deep_view() + spec_hits(
            tree@,
            root@,
            query@,
        ),
{
    let ghost base = results.deep_view();
    let ghost gview0 = Seq::<EntryView>::empty();
    let mut gview = Ghost(gview0);
    let mut i: usize = 0;
    while i < tree.entries.len()
        invariant
            0 <= i <= tree.entries.len(),
            gview@ == hits_in(tree@.take(i as int), tree@, root@, query@),
            results@.len() == base.len() + gview@.len(),
            base.len() == old(results)@.len(),
            forall|j: int| 0 <= j < base.len() ==> results@[j]@ == base[j],
            forall|j: int| 0 <= j < gview@.len() ==> results@[base.len() + j]@ == gview@[j],
        decreases tree.entries.len() - i,
    {
        let e = &tree.entries[i];
        proof {
            assert(tree@[i as int] == e@);
            assert(tree@.take(i + 1).drop_last() =~= tree@.take(i as int));
            assert(tree@.take(i + 1).last() == tree@[i as int]);
        }
        let mut hit = false;
        if e.kind == EntryKind::File && e.path.in_subtree_of(root) {
            if let Some(nm) = e.path.name() {
                if str_contains(nm.as_str(), query) {
                    if ancestors_readable_probe(tree, root, &e.path) {
                        hit = true;
                    }
                }
            }
        }
        proof {
            assert(hit == is_hit(tree@, root@, query@, e@));
        }
        if hit {
            results.push(e.clone());
            proof {
                gview@ = gview@.push(e@);
            }
        }
        i += 1;
    }
    proof {
        assert(tree@.take(tree@.len() as int) =~= tree@);
        assert(final(results).deep_view() =~= base + gview@);
    }
}

/// Recursive search: every file strictly below `root` whose name
/// contains `query`, found through readable directories only, in
/// snapshot order. A blank query — empty or whitespace-only — returns
/// no results and traverses nothing.
pub fn search(tree: &FsTree, root: &FsPath, query: &str) -> (results: Vec<Entry>)
    ensures
        results.deep_view() == spec_search(tree@, root@, query@),
        blank(query@) ==> results@.len() == 0,
{
    let mut results: Vec<Entry> = Vec::new();
    if is_blank(query) {
        proof {
            assert(results.deep_view() =~= spec_search(tree@, root@, query@));
        }
        return results;
    }
    proof {
        assert(results.deep_view() =~= Seq::<EntryView>::empty());
    }
    search_files(tree, root, query, &mut results);
    proof {
        assert(Seq::<EntryView>::empty() + spec_hits(tree@, root@, query@) =~= spec_hits(
            tree@,
            root@,
            query@,
        ));
    }
    results
}

} // verus!
