//! Character-level helpers: literal substring containment and the
//! blank-query test that decides whether a search should run at all.
//!
//! Matching is case-sensitive throughout the library: a query matches a
//! file name exactly when the query's characters occur contiguously in
//! the name, with no case folding on either side.

use vstd::prelude::*;
use vstd::string::StrSliceExecFns;

verus! {

/// The needle occurs in the haystack starting at character position `i`.
pub open spec fn contains_at(hay: Seq<char>, needle: Seq<char>, i: int) -> bool {
    0 <= i && i + needle.len() <= hay.len() && hay.subrange(i, i + needle.len()) == needle
}

/// Literal, case-sensitive substring containment over character sequences.
pub open spec fn contains_seq(hay: Seq<char>, needle: Seq<char>) -> bool {
    exists|i: int| contains_at(hay, needle, i)
}

/// The whitespace characters recognised when deciding that a query is
/// blank: the Unicode White_Space set, the same characters trimming
/// removes.
pub open spec fn is_space_char(c: char) -> bool {
    ||| c == '\t'
    ||| c == '\n'
    ||| c == '\u{000B}'
    ||| c == '\u{000C}'
    ||| c == '\r'
    ||| c == ' '
    ||| c == '\u{0085}'
    ||| c == '\u{00A0}'
    ||| c == '\u{1680}'
    ||| c == '\u{2000}'
    ||| c == '\u{2001}'
    ||| c == '\u{2002}'
    ||| c == '\u{2003}'
    ||| c == '\u{2004}'
    ||| c == '\u{2005}'
    ||| c == '\u{2006}'
    ||| c == '\u{2007}'
    ||| c == '\u{2008}'
    ||| c == '\u{2009}'
    ||| c == '\u{200A}'
    ||| c == '\u{2028}'
    ||| c == '\u{2029}'
    ||| c == '\u{202F}'
    ||| c == '\u{205F}'
    ||| c == '\u{3000}'
}

/// A query is blank when every character is whitespace; the empty query is blank.
pub open spec fn blank(q: Seq<char>) -> bool {
    forall|i: int| 0 <= i < q.len() ==> is_space_char(#[trigger] q[i])
}

/// The characters of `needle` all occur in `hay` starting at position `i`.
fn match_at(hay: &str, needle: &str, i: usize, n: usize, m: usize) -> (r: bool)
    requires
        n == hay@.len(),
        m == needle@.len(),
        i + m <= n,
    ensures
        r == contains_at(hay@, needle@, i as int),
{
    let mut j: usize = 0;
    while j < m
        invariant
            n == hay@.len(),
            m == needle@.len(),
            i + m <= n,
            0 <= j <= m,
            forall|k: int| 0 <= k < j ==> hay@[i + k] == needle@[k],
        decreases m - j,
    {
        if hay.get_char(i + j) != needle.get_char(j) {
            proof {
                let sub = hay@.subrange(i as int, i + m);
                assert(sub[j as int] != needle@[j as int]);
            }
            return false;
        }
        j += 1;
    }
    proof {
        assert(hay@.subrange(i as int, i + m) =~= needle@);
    }
    true
}

/// Case-sensitive substring test: does `hay` contain `needle`?
pub fn str_contains(hay: &str, needle: &str) -> (r: bool)
    ensures
        r == contains_seq(hay@, needle@),
{
    let n = hay.unicode_len();
    let m = needle.unicode_len();
    if m == 0 {
        proof {
            assert(hay@.subrange(0, 0) =~= needle@);
            assert(contains_at(hay@, needle@, 0));
        }
        return true;
    }
    if m > n {
        return false;
    }
    let mut i: usize = 0;
    while i <= n - m
        invariant
            n == hay@.len(),
            m == needle@.len(),
            0 < m <= n,
            0 <= i <= n - m + 1,
            forall|k: int| 0 <= k < i ==> !contains_at(hay@, needle@, k),
        decreases n - m - i + 1,
    {
        if match_at(hay, needle, i, n, m) {
            return true;
        }
        i += 1;
    }
    false
}

/// Whether `c` is a Unicode whitespace character.
fn is_space(c: char) -> (r: bool)
    ensures
        r == is_space_char(c),
{
    c == '\t' || c == '\n' || c == '\u{000B}' || c == '\u{000C}' || c == '\r' || c == ' ' || c
        == '\u{0085}' || c == '\u{00A0}' || c == '\u{1680}' || c == '\u{2000}' || c == '\u{2001}'
        || c == '\u{2002}' || c == '\u{2003}' || c == '\u{2004}' || c == '\u{2005}' || c
        == '\u{2006}' || c == '\u{2007}' || c == '\u{2008}' || c == '\u{2009}' || c == '\u{200A}'
        || c == '\u{2028}' || c == '\u{2029}' || c == '\u{202F}' || c == '\u{205F}' || c
        == '\u{3000}'
}

/// A string is blank when every character is Unicode whitespace — when
/// trimming would leave nothing.
pub fn is_blank(q: &str) -> (r: bool)
    ensures
        r == blank(q@),
{
    let n = q.unicode_len();
    let mut i: usize = 0;
    while i < n
        invariant
            n == q@.len(),
            0 <= i <= n,
            forall|k: int| 0 <= k < i ==> is_space_char(#[trigger] q@[k]),
        decreases n - i,
    {
        let c = q.get_char(i);
        if !is_space(c) {
            return false;
        }
        i += 1;
    }
    true
}

} // verus!
