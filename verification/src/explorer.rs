//! The navigation controller: the one stateful piece of the library.
//!
//! A [`FileExplorer`] owns the current directory, the last listing of it,
//! the search query, the last search results, and a mode flag saying
//! whether a renderer should show the listing or the results. It is
//! mutated only through the operations here, each against a snapshot of
//! the filesystem handed in by the caller; nothing in this type touches
//! the real disk.

use vstd::prelude::*;

use crate::lister::{list, spec_list};
use crate::path::FsPath;
use crate::search::{search, spec_search};
use crate::text::{blank, is_blank};
use crate::tree::{is_dir_at, Entry, EntryKind, EntryView, FsTree};

verus! {

/// What the renderer should show: the directory listing or the search
/// results.
#[derive(Clone, Copy, PartialEq, Eq, Structural, Debug)]
pub enum Mode {
    Browsing,
    Searching,
}

/// A navigation request the controller refuses.
#[derive(Clone, Copy, PartialEq, Eq, Structural, Debug)]
pub enum NavError {
    /// `enter` was asked for a target the snapshot does not classify as a
    /// directory: a file, or nothing at all.
    NotADirectory,
    /// `open_entry` was asked for a directory; directories are entered,
    /// not opened.
    NotAFile,
}

/// The controller state: current directory, its last listing, the query,
/// the last results, and the mode flag.
pub struct FileExplorer {
    pub current_path: FsPath,
    pub items: Vec<Entry>,
    pub search_query: String,
    pub search_results: Vec<Entry>,
    pub mode: Mode,
}

impl FileExplorer {
    /// The state invariant: searching mode only ever shows results of a
    /// non-blank query.
    pub open spec fn wf(&self) -> bool {
        self.mode == Mode::Searching ==> !blank(self.search_query@)
    }

    /// The location invariant, relative to a snapshot: the current path
    /// is recorded there as a directory. Every operation keeps it as
    /// long as the snapshot classifies what the operation lands on —
    /// `new` and `enter` their target, `up` the parent — as a directory.
    pub open spec fn current_is_dir(&self, t: Seq<EntryView>) -> bool {
        is_dir_at(t, self.current_path@)
    }

    /// `post` is `pre` with its listing reloaded from snapshot `t` and
    /// nothing else changed.
    pub open spec fn refreshed(pre: FileExplorer, post: FileExplorer, t: Seq<EntryView>) -> bool {
        &&& post.current_path == pre.current_path
        &&& post.items.deep_view() == spec_list(t, pre.current_path@)
        &&& post.search_query == pre.search_query
        &&& post.search_results == pre.search_results
        &&& post.mode == pre.mode
    }

    /// A fresh controller at `start`, with `start`'s listing already
    /// loaded, an empty query, no results, browsing.
    pub fn new(start: FsPath, tree: &FsTree) -> (r: FileExplorer)
        ensures
            r.current_path@ == start@,
            r.items.deep_view() == spec_list(tree@, start@),
            r.search_query@ == Seq::<char>::empty(),
            r.search_results@.len() == 0,
            r.mode == Mode::Browsing,
            r.wf(),
            is_dir_at(tree@, start@) ==> r.current_is_dir(tree@),
    {
        let items = list(tree, &start);
        FileExplorer {
            current_path: start,
            items,
            search_query: String::new(),
            search_results: Vec::new(),
            mode: Mode::Browsing,
        }
    }

    /// Navigates into `target`. Succeeds exactly when the snapshot
    /// classifies `target` as a directory (readable or not): the target
    /// becomes current, its listing is loaded — empty when it cannot be
    /// enumerated — results are cleared and the mode returns to browsing.
    /// On anything else — a file, or a path the snapshot does not know —
    /// the whole state is left exactly as it was.
    pub fn enter(&mut self, target: &FsPath, tree: &FsTree) -> (r: Result<(), NavError>)
        ensures
            is_dir_at(tree@, target@) ==> {
                &&& r is Ok
                &&& final(self).current_path@ == target@
                &&& final(self).items.deep_view() == spec_list(tree@, target@)
                &&& final(self).mode == Mode::Browsing
                &&& final(self).search_results@.len() == 0
                &&& final(self).search_query == old(self).search_query
                &&& final(self).current_is_dir(tree@)
            },
            !is_dir_at(tree@, target@) ==> {
                &&& r == Result::<(), NavError>::Err(NavError::NotADirectory)
                &&& *final(self) == *old(self)
            },
            old(self).wf() ==> final(self).wf(),
    {
        if tree.has_dir(target) {
            self.current_path = target.clone();
            self.items = list(tree, &self.current_path);
            self.mode = Mode::Browsing;
            self.search_results = Vec::new();
            Ok(())
        } else {
            Err(NavError::NotADirectory)
        }
    }

    /// Moves to the parent directory and reloads the listing, back in
    /// browsing mode. From the root — the only path without a parent —
    /// it moves nowhere and changes nothing.
    pub fn up(&mut self, tree: &FsTree) -> (moved: bool)
        ensures
            old(self).current_path@.len() == 0 ==> !moved && *final(self) == *old(self),
            old(self).current_path@.len() > 0 ==> {
                &&& moved
                &&& final(self).current_path@ == old(self).current_path@.drop_last()
                &&& final(self).items.deep_view() == spec_list(
                    tree@,
                    old(self).current_path@.drop_last(),
                )
                &&& final(self).mode == Mode::Browsing
                &&& final(self).search_query == old(self).search_query
                &&& final(self).search_results == old(self).search_results
            },
            old(self).current_path@.len() > 0 && is_dir_at(
                tree@,
                old(self).current_path@.drop_last(),
            ) ==> final(self).current_is_dir(tree@),
            old(self).wf() ==> final(self).wf(),
    {
        match self.current_path.parent() {
            None => false,
            Some(p) => {
                self.current_path = p;
                self.items = list(tree, &self.current_path);
                self.mode = Mode::Browsing;
                true
            },
        }
    }

    /// Stores a new query. A blank query (empty or whitespace-only)
    /// forces the mode back to browsing and clears the results at once;
    /// a non-blank query waits for `perform_search`.
    pub fn set_search_query(&mut self, q: String)
        ensures
            final(self).search_query == q,
            final(self).current_path == old(self).current_path,
            final(self).items == old(self).items,
            blank(q@) ==> final(self).mode == Mode::Browsing && final(self).search_results@.len()
                == 0,
            !blank(q@) ==> final(self).mode == old(self).mode && final(self).search_results == old(
                self
            ).search_results,
            final(self).wf(),
    {
        let blank_q = is_blank(q.as_str());
        self.search_query = q;
        if blank_q {
            self.mode = Mode::Browsing;
            self.search_results = Vec::new();
        }
    }

    /// Runs the stored query against the subtree under the current
    /// directory. A blank query clears the results and returns to
    /// browsing without traversing anything; otherwise the results are
    /// exactly the search's hits and the mode switches to searching.
    pub fn perform_search(&mut self, tree: &FsTree)
        ensures
            final(self).current_path == old(self).current_path,
            final(self).items == old(self).items,
            final(self).search_query == old(self).search_query,
            final(self).search_results.deep_view() == spec_search(
                tree@,
                old(self).current_path@,
                old(self).search_query@,
            ),
            blank(old(self).search_query@) ==> final(self).mode == Mode::Browsing,
            !blank(old(self).search_query@) ==> final(self).mode == Mode::Searching,
            final(self).wf(),
            old(self).current_is_dir(tree@) ==> final(self).current_is_dir(tree@),
    {
        self.search_results = Vec::new();
        if is_blank(self.search_query.as_str()) {
            self.mode = Mode::Browsing;
            proof {
                assert(self.search_results.deep_view() =~= spec_search(
                    tree@,
                    self.current_path@,
                    self.search_query@,
                ));
            }
            return ;
        }
        let results = search(tree, &self.current_path, self.search_query.as_str());
        self.search_results = results;
        self.mode = Mode::Searching;
    }

    /// Reloads the listing of the current directory from the snapshot,
    /// changing nothing else; the filesystem may have changed since the
    /// last load, the controller never caches staleness.
    pub fn load_items(&mut self, tree: &FsTree)
        ensures
            Self::refreshed(*old(self), *final(self), tree@),
            old(self).wf() ==> final(self).wf(),
            old(self).current_is_dir(tree@) ==> final(self).current_is_dir(tree@),
    {
        self.items = list(tree, &self.current_path);
    }

    /// Re-lists the current directory without changing it.
    pub fn refresh(&mut self, tree: &FsTree)
        ensures
            Self::refreshed(*old(self), *final(self), tree@),
            old(self).wf() ==> final(self).wf(),
            old(self).current_is_dir(tree@) ==> final(self).current_is_dir(tree@),
    {
        self.load_items(tree);
    }

    /// Refresh law: refreshing twice against the same snapshot yields
    /// the very same listing as refreshing once — the second refresh
    /// changes nothing.
    pub proof fn lemma_refresh_idempotent(
        pre: FileExplorer,
        mid: FileExplorer,
        post: FileExplorer,
        t: Seq<EntryView>,
    )
        requires
            Self::refreshed(pre, mid, t),
            Self::refreshed(mid, post, t),
        ensures
            post.items.deep_view() == mid.items.deep_view(),
            post.current_path == mid.current_path,
    {
    }

    /// Decides an open request: a file yields the path to hand to the
    /// host's opener, a directory is refused — directories are entered,
    /// not opened.
    pub fn open_entry(&self, e: &Entry) -> (r: Result<FsPath, NavError>)
        ensures
            e.kind == EntryKind::File ==> (r matches Ok(p) && p@ == e.path@),
            e.kind != EntryKind::File ==> r == Result::<FsPath, NavError>::Err(NavError::NotAFile),
    {
        if e.kind == EntryKind::File {
            Ok(e.path.clone())
        } else {
            Err(NavError::NotAFile)
        }
    }
}

} // verus!
