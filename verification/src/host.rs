//! The one call that leaves the snapshot model: asking the host where
//! the user's home directory is, to pick the starting location.

use vstd::prelude::*;
use vstd::string::StrSliceExecFns;

use crate::path::FsPath;

verus! {

/// The segment a host spells its root marker as: a lone `/` or `\`.
pub open spec fn is_sep_seg(s: Seq<char>) -> bool {
    s.len() == 1 && (s[0] == '/' || s[0] == '\\')
}

/// `v` with every root-marker segment removed: hosts write the root —
/// and after a drive prefix, the drive root — as a component of its own,
/// and no real file or directory name can be a lone separator.
pub open spec fn strip_sep(v: Seq<Seq<char>>) -> Seq<Seq<char>>
    decreases v.len(),
{
    if v.len() == 0 {
        Seq::empty()
    } else if is_sep_seg(v.last()) {
        strip_sep(v.drop_last())
    } else {
        strip_sep(v.drop_last()).push(v.last())
    }
}

/// Nothing that stripping leaves is a root marker.
pub proof fn lemma_strip_sep_clean(v: Seq<Seq<char>>)
    ensures
        forall|j: int| 0 <= j < strip_sep(v).len() ==> !is_sep_seg(#[trigger] strip_sep(v)[j]),
    decreases v.len(),
{
    if v.len() > 0 {
        lemma_strip_sep_clean(v.drop_last());
        let r0 = strip_sep(v.drop_last());
        let r = strip_sep(v);
        assert forall|j: int| 0 <= j < r.len() implies !is_sep_seg(#[trigger] r[j]) by {
            if j < r0.len() {
                assert(r[j] == r0[j]);
                assert(!is_sep_seg(strip_sep(v.drop_last())[j]));
            } else {
                assert(r[j] == v.last());
            }
        }
    }
}

/// Relies on dirs::home_dir: the path of the user's home directory, read
/// from the process environment or the OS user database, split into its
/// components — or None when the host knows none. The result depends on
/// the environment, so nothing is promised of it.
#[verifier::external_body]
fn home_dir_segments() -> (r: Option<Vec<String>>) {
    dirs::home_dir().map(|p| p.iter().map(|c| c.to_string_lossy().into_owned()).collect())
}

/// Whether a segment is a host root marker: a lone `/` or `\`.
fn is_separator_segment(s: &String) -> (r: bool)
    ensures
        r == is_sep_seg(s@),
{
    let st = s.as_str();
    if st.unicode_len() == 1 {
        let c = st.get_char(0);
        c == '/' || c == '\\'
    } else {
        false
    }
}

/// A sequence with no root marker left in it is already stripped.
proof fn lemma_strip_sep_fixed(v: Seq<Seq<char>>)
    requires
        forall|j: int| 0 <= j < v.len() ==> !is_sep_seg(#[trigger] v[j]),
    ensures
        strip_sep(v) == v,
    decreases v.len(),
{
    if v.len() > 0 {
        assert(forall|j: int|
            0 <= j < v.drop_last().len() ==> !is_sep_seg(#[trigger] v.drop_last()[j]));
        lemma_strip_sep_fixed(v.drop_last());
        assert(strip_sep(v) =~= v);
    } else {
        assert(strip_sep(v) =~= v);
    }
}

/// Turns host path components into a path of this library: the root
/// markers the host spells as components of their own are dropped, so
/// the result is the segment sequence below the root.
pub fn path_from_components(segments: Vec<String>) -> (r: FsPath)
    ensures
        r@ == strip_sep(segments.deep_view()),
{
    let ghost gview0 = Seq::<Seq<char>>::empty();
    let mut gview = Ghost(gview0);
    let mut rest: Vec<String> = Vec::new();
    let mut i: usize = 0;
    while i < segments.len()
        invariant
            0 <= i <= segments.len(),
            gview@ == strip_sep(segments.deep_view().take(i as int)),
            rest@.len() == gview@.len(),
            forall|j: int| 0 <= j < rest@.len() ==> rest@[j]@ == gview@[j],
        decreases segments.len() - i,
    {
        let s = &segments[i];
        proof {
            assert(segments.deep_view()[i as int] == s@);
            assert(segments.deep_view().take(i + 1).drop_last() =~= segments.deep_view().take(
                i as int,
            ));
            assert(segments.deep_view().take(i + 1).last() == segments.deep_view()[i as int]);
        }
        if !is_separator_segment(s) {
            let kept = s.clone();
            rest.push(kept);
            proof {
                gview@ = gview@.push(s@);
            }
        }
        i += 1;
    }
    proof {
        assert(segments.deep_view().take(segments.deep_view().len() as int)
            =~= segments.deep_view());
        assert(rest.deep_view() =~= gview@);
    }
    FsPath::new(rest)
}

/// The starting location: the user's home directory when the host knows
/// one, the filesystem root otherwise. Whatever the host answered, no
/// segment of the returned path is a root marker: the markers the host
/// spells as components are stripped, and the fallback is the root
/// itself.
pub fn default_root() -> (r: FsPath)
    ensures
        forall|j: int| 0 <= j < r@.len() ==> !is_sep_seg(#[trigger] r@[j]),
        r@ == strip_sep(r@),
{
    match home_dir_segments() {
        None => {
            let r = FsPath::root();
            proof {
                assert(strip_sep(r@) =~= r@);
            }
            r
        },
        Some(segments) => {
            let r = path_from_components(segments);
            proof {
                lemma_strip_sep_clean(segments.deep_view());
                lemma_strip_sep_fixed(r@);
            }
            r
        },
    }
}

} // verus!
