//! An in-memory snapshot of a directory tree.
//!
//! The library never touches the real filesystem: the caller enumerates
//! whatever part of the disk it cares about into an [`FsTree`] — one
//! [`Entry`] per discovered path, tagged file or directory, with a flag
//! saying whether enumerating that entry succeeds. Every listing and
//! search contract is stated against this snapshot. A snapshot whose
//! entries were pushed in depth-first pre-order yields search results in
//! depth-first pre-order.

use vstd::prelude::*;

use crate::path::FsPath;

verus! {

/// What an entry was classified as at enumeration time.
#[derive(Clone, Copy, PartialEq, Eq, Structural, Debug)]
pub enum EntryKind {
    File,
    Directory,
}

/// One discovered filesystem object: its location, its classification,
/// and whether enumerating it succeeds (meaningful for directories; an
/// unreadable directory's subtree is silently skipped).
pub struct Entry {
    pub path: FsPath,
    pub kind: EntryKind,
    pub readable: bool,
}

/// The mathematical model of an [`Entry`].
#[verifier::ext_equal]
pub ghost struct EntryView {
    pub path: Seq<Seq<char>>,
    pub kind: EntryKind,
    pub readable: bool,
}

impl View for Entry {
    type V = EntryView;

    open spec fn view(&self) -> EntryView {
        EntryView { path: self.path@, kind: self.kind, readable: self.readable }
    }
}

impl DeepView for Entry {
    type V = EntryView;

    open spec fn deep_view(&self) -> EntryView {
        self.view()
    }
}

impl Clone for Entry {
    fn clone(&self) -> (res: Self)
        ensures
            res@ == self@,
    {
        Entry { path: self.path.clone(), kind: self.kind, readable: self.readable }
    }
}

/// A snapshot of part of a filesystem: the entries discovered, in
/// discovery order.
pub struct FsTree {
    pub entries: Vec<Entry>,
}

impl View for FsTree {
    type V = Seq<EntryView>;

    open spec fn view(&self) -> Seq<EntryView> {
        self.entries.deep_view()
    }
}

/// The snapshot records a directory at `p` (readable or not).
pub open spec fn is_dir_at(t: Seq<EntryView>, p: Seq<Seq<char>>) -> bool {
    exists|i: int|
        0 <= i < t.len() && t[i].path == p && t[i].kind == EntryKind::Directory
}

/// The snapshot records a readable directory at `p`: one whose children
/// can be enumerated.
pub open spec fn dir_readable_at(t: Seq<EntryView>, p: Seq<Seq<char>>) -> bool {
    exists|i: int|
        0 <= i < t.len() && t[i].path == p && t[i].kind == EntryKind::Directory
            && t[i].readable
}

impl FsTree {
    /// An empty snapshot.
    pub fn new() -> (r: FsTree)
        ensures
            r@ =~= Seq::<EntryView>::empty(),
    {
        FsTree { entries: Vec::new() }
    }

    /// Appends one discovered entry to the snapshot.
    pub fn add(&mut self, e: Entry)
        ensures
            final(self)@ == old(self)@.push(e@),
    {
        self.entries.push(e);
        proof {
            assert(self@ =~= old(self)@.push(e@));
        }
    }

    /// Appends one discovered entry given as plain values.
    pub fn add_parts(&mut self, path: FsPath, kind: EntryKind, readable: bool)
        ensures
            final(self)@ == old(self)@.push(
                EntryView { path: path@, kind: kind, readable: readable },
            ),
    {
        self.add(Entry { path, kind, readable });
    }

    /// Whether the snapshot records a directory at `p` (readable or not).
    pub fn has_dir(&self, p: &FsPath) -> (r: bool)
        ensures
            r == is_dir_at(self@, p@),
    {
        let mut i: usize = 0;
        while i < self.entries.len()
            invariant
                0 <= i <= self.entries.len(),
                forall|k: int|
                    0 <= k < i ==> !(self@[k].path == p@ && self@[k].kind
                        == EntryKind::Directory),
            decreases self.entries.len() - i,
        {
            let e = &self.entries[i];
            if e.kind == EntryKind::Directory && e.path.same_path(p) {
                proof {
                    assert(self@[i as int] == e@);
                    assert(is_dir_at(self@, p@));
                }
                return true;
            }
            i += 1;
        }
        false
    }

    /// Whether the snapshot records a readable directory at `p`: the probe
    /// that decides whether a directory's children can be enumerated.
    pub fn dir_readable(&self, p: &FsPath) -> (r: bool)
        ensures
            r == dir_readable_at(self@, p@),
    {
        let mut i: usize = 0;
        while i < self.entries.len()
            invariant
                0 <= i <= self.entries.len(),
                forall|k: int|
                    0 <= k < i ==> !(self@[k].path == p@ && self@[k].kind
                        == EntryKind::Directory && self@[k].readable),
            decreases self.entries.len() - i,
        {
            let e = &self.entries[i];
            if e.kind == EntryKind::Directory && e.readable && e.path.same_path(p) {
                proof {
                    assert(self@[i as int] == e@);
                    assert(dir_readable_at(self@, p@));
                }
                return true;
            }
            i += 1;
        }
        false
    }
}

} // verus!
