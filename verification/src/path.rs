//! Paths as sequences of name segments.
//!
//! A path is modelled as the list of its segments below the filesystem
//! root: the root itself is the empty sequence, `/home/me` is
//! `["home", "me"]`. Comparison is exact segment-by-segment equality —
//! no normalisation, no filesystem identity. The view of a path is a
//! `Seq<Seq<char>>` of its segments' characters.

use vstd::prelude::*;

verus! {

/// A filesystem location, as the sequence of name segments below the root.
pub struct FsPath {
    pub segments: Vec<String>,
}

impl View for FsPath {
    type V = Seq<Seq<char>>;

    open spec fn view(&self) -> Seq<Seq<char>> {
        self.segments.deep_view()
    }
}

impl DeepView for FsPath {
    type V = Seq<Seq<char>>;

    open spec fn deep_view(&self) -> Seq<Seq<char>> {
        self.view()
    }
}

/// `c` is an immediate child location of `d`: one segment longer, same prefix.
pub open spec fn is_child_path(c: Seq<Seq<char>>, d: Seq<Seq<char>>) -> bool {
    c.len() == d.len() + 1 && c.take(d.len() as int) == d
}

/// `p` lies strictly below `root` (any number of levels down).
pub open spec fn in_subtree(p: Seq<Seq<char>>, root: Seq<Seq<char>>) -> bool {
    p.len() > root.len() && p.take(root.len() as int) == root
}

/// The file name of a non-root path: its last segment.
pub open spec fn name_of(p: Seq<Seq<char>>) -> Seq<char> {
    p.last()
}

impl Clone for FsPath {
    fn clone(&self) -> (res: Self)
        ensures
            res@ == self@,
    {
        let segments = clone_segments(&self.segments);
        FsPath { segments }
    }
}

/// An element-exact copy of a segment vector.
fn clone_segments(v: &Vec<String>) -> (r: Vec<String>)
    ensures
        r.deep_view() == v.deep_view(),
{
    let mut r: Vec<String> = Vec::new();
    let mut i: usize = 0;
    while i < v.len()
        invariant
            0 <= i <= v.len(),
            r@.len() == i,
            forall|k: int| 0 <= k < i ==> r@[k]@ == v@[k]@,
        decreases v.len() - i,
    {
        let s = v[i].clone();
        r.push(s);
        i += 1;
    }
    proof {
        assert(r.deep_view() =~= v.deep_view());
    }
    r
}

impl FsPath {
    /// The filesystem root: the empty segment sequence; it has no parent.
    pub fn root() -> (r: FsPath)
        ensures
            r@ =~= Seq::<Seq<char>>::empty(),
    {
        FsPath { segments: Vec::new() }
    }

    /// A path made of the given segments.
    pub fn new(segments: Vec<String>) -> (r: FsPath)
        ensures
            r@ == segments.deep_view(),
    {
        FsPath { segments }
    }

    /// How many segments the path has; zero exactly for the root.
    pub fn depth(&self) -> (n: usize)
        ensures
            n == self@.len(),
    {
        self.segments.len()
    }

    /// Whether the path is the filesystem root, the only path with no parent.
    pub fn is_root(&self) -> (r: bool)
        ensures
            r == (self@.len() == 0),
    {
        self.segments.len() == 0
    }

    /// The parent location: the path with the last segment removed.
    /// The root has no parent.
    pub fn parent(&self) -> (r: Option<FsPath>)
        ensures
            self@.len() == 0 ==> r is None,
            self@.len() > 0 ==> (r matches Some(p) && p@ == self@.drop_last()),
    {
        if self.segments.len() == 0 {
            None
        } else {
            let mut p = self.clone();
            p.segments.pop();
            proof {
                assert(p@ =~= self@.drop_last());
            }
            Some(p)
        }
    }

    /// The path extended by one more segment.
    pub fn child(&self, segment: String) -> (r: FsPath)
        ensures
            r@ == self@.push(segment@),
    {
        let mut r = self.clone();
        r.segments.push(segment);
        proof {
            assert(r@ =~= self@.push(segment@));
        }
        r
    }

    /// The first `k` segments of the path, as a path of their own.
    pub fn prefix(&self, k: usize) -> (r: FsPath)
        requires
            k <= self@.len(),
        ensures
            r@ == self@.take(k as int),
    {
        let mut segments: Vec<String> = Vec::new();
        let mut i: usize = 0;
        while i < k
            invariant
                0 <= i <= k <= self.segments.len(),
                segments@.len() == i,
                forall|j: int| 0 <= j < i ==> segments@[j]@ == self.segments@[j]@,
            decreases k - i,
        {
            let s = self.segments[i].clone();
            segments.push(s);
            i += 1;
        }
        proof {
            assert(segments.deep_view() =~= self@.take(k as int));
        }
        FsPath { segments }
    }

    /// The file name: the last segment, absent for the root.
    pub fn name(&self) -> (r: Option<&String>)
        ensures
            self@.len() == 0 ==> r is None,
            self@.len() > 0 ==> (r matches Some(s) && s@ == name_of(self@)),
    {
        if self.segments.len() == 0 {
            None
        } else {
            Some(&self.segments[self.segments.len() - 1])
        }
    }

    /// Exact segment-by-segment equality of two paths.
    pub fn same_path(&self, other: &FsPath) -> (r: bool)
        ensures
            r == (self@ == other@),
    {
        if self.segments.len() != other.segments.len() {
            proof {
                assert(self@.len() == self.segments@.len());
                assert(other@.len() == other.segments@.len());
            }
            return false;
        }
        let mut i: usize = 0;
        while i < self.segments.len()
            invariant
                0 <= i <= self.segments.len(),
                self.segments.len() == other.segments.len(),
                forall|k: int| 0 <= k < i ==> self@[k] == other@[k],
            decreases self.segments.len() - i,
        {
            if !(self.segments[i] == other.segments[i]) {
                proof {
                    assert(self@[i as int] != other@[i as int]);
                }
                return false;
            }
            i += 1;
        }
        proof {
            assert(self@ =~= other@);
        }
        true
    }

    /// Whether `self` is an immediate child location of `d`.
    pub fn is_child_of(&self, d: &FsPath) -> (r: bool)
        ensures
            r == is_child_path(self@, d@),
    {
        if self.segments.len() == 0 || self.segments.len() - 1 != d.segments.len() {
            proof {
                assert(self@.len() == self.segments@.len());
                assert(d@.len() == d.segments@.len());
            }
            return false;
        }
        self.prefix_matches(d)
    }

    /// Whether `self` lies strictly below `root`.
    pub fn in_subtree_of(&self, root: &FsPath) -> (r: bool)
        ensures
            r == in_subtree(self@, root@),
    {
        if self.segments.len() <= root.segments.len() {
            return false;
        }
        self.prefix_matches(root)
    }

    /// Whether the first segments of `self` spell out all of `d`.
    fn prefix_matches(&self, d: &FsPath) -> (r: bool)
        requires
            d@.len() <= self@.len(),
        ensures
            r == (self@.take(d@.len() as int) == d@),
    {
        let mut i: usize = 0;
        while i < d.segments.len()
            invariant
                0 <= i <= d.segments.len() <= self.segments.len(),
                forall|k: int| 0 <= k < i ==> self@[k] == d@[k],
            decreases d.segments.len() - i,
        {
            if !(self.segments[i] == d.segments[i]) {
                proof {
                    let pre = self@.take(d@.len() as int);
                    assert(pre[i as int] != d@[i as int]);
                }
                return false;
            }
            i += 1;
        }
        proof {
            assert(self@.take(d@.len() as int) =~= d@);
        }
        true
    }
}

} // verus!
