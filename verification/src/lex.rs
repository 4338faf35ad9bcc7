//! Lexicographic order on character sequences, with executable comparison
//! and prefix tests on `&str`.
//!
//! Module paths are compared by Unicode scalar value, character by character.
//! This is the same total order that the standard library's ordered string
//! collections use, since UTF-8 byte order coincides with scalar value order.

use vstd::prelude::*;

verus! {

/// `a` is lexicographically less than or equal to `b`, comparing characters
/// by Unicode scalar value; a proper prefix precedes every extension of it.
pub open spec fn lex_le(a: Seq<char>, b: Seq<char>) -> bool
    decreases a.len(),
{
    if a.len() == 0 {
        true
    } else if b.len() == 0 {
        false
    } else if a[0] < b[0] {
        true
    } else if b[0] < a[0] {
        false
    } else {
        lex_le(a.skip(1), b.skip(1))
    }
}

/// The order is reflexive.
pub proof fn lex_le_refl(a: Seq<char>)
    ensures
        lex_le(a, a),
    decreases a.len(),
{
    if a.len() > 0 {
        lex_le_refl(a.skip(1));
    }
}

/// The order is total: any two sequences are comparable.
pub proof fn lex_le_total(a: Seq<char>, b: Seq<char>)
    ensures
        lex_le(a, b) || lex_le(b, a),
    decreases a.len(),
{
    if a.len() > 0 && b.len() > 0 && a[0] == b[0] {
        lex_le_total(a.skip(1), b.skip(1));
    }
}

/// The order is antisymmetric: mutual `lex_le` means equality.
pub proof fn lex_le_antisym(a: Seq<char>, b: Seq<char>)
    requires
        lex_le(a, b),
        lex_le(b, a),
    ensures
        a == b,
    decreases a.len(),
{
    if a.len() == 0 {
        assert(b.len() == 0);
        assert(a =~= b);
    } else {
        assert(b.len() > 0);
        assert(a[0] == b[0]);
        lex_le_antisym(a.skip(1), b.skip(1));
        assert(a.skip(1).len() == b.skip(1).len());
        assert(a.len() == b.len());
        assert forall|i: int| 0 <= i < a.len() implies a[i] == b[i] by {
            if i > 0 {
                assert(a.skip(1)[i - 1] == a[i]);
                assert(b.skip(1)[i - 1] == b[i]);
            }
        }
        assert(a =~= b);
    }
}

/// The order is transitive.
pub proof fn lex_le_trans(a: Seq<char>, b: Seq<char>, c: Seq<char>)
    requires
        lex_le(a, b),
        lex_le(b, c),
    ensures
        lex_le(a, c),
    decreases a.len(),
{
    if a.len() > 0 && b.len() > 0 && c.len() > 0 && a[0] == b[0] && b[0] == c[0] {
        lex_le_trans(a.skip(1), b.skip(1), c.skip(1));
    }
}

/// Executable comparison of the tails of `a` and `b` from position `i` on.
fn str_le_from(a: &str, b: &str, i: usize) -> (r: bool)
    requires
        i <= a@.len(),
        i <= b@.len(),
    ensures
        r == lex_le(a@.skip(i as int), b@.skip(i as int)),
    decreases a@.len() - i,
{
    let la = a.unicode_len();
    if i == la {
        true
    } else {
        let lb = b.unicode_len();
        if i == lb {
            false
        } else {
            let ca = a.get_char(i);
            let cb = b.get_char(i);
            if ca < cb {
                true
            } else if cb < ca {
                false
            } else {
                proof {
                    assert(a@.skip(i as int).skip(1) =~= a@.skip(i as int + 1));
                    assert(b@.skip(i as int).skip(1) =~= b@.skip(i as int + 1));
                }
                str_le_from(a, b, i + 1)
            }
        }
    }
}

/// Executable test of the lexicographic order on two strings.
pub fn str_le(a: &str, b: &str) -> (r: bool)
    ensures
        r == lex_le(a@, b@),
{
    proof {
        assert(a@.skip(0) =~= a@);
        assert(b@.skip(0) =~= b@);
    }
    str_le_from(a, b, 0)
}

/// Executable check that the characters of `p` and `s` agree at every
/// position from `i` up to the end of `p`.
fn eq_prefix_from(s: &str, p: &str, i: usize) -> (r: bool)
    requires
        p@.len() <= s@.len(),
        i <= p@.len(),
    ensures
        r == (forall|j: int| i <= j < p@.len() ==> s@[j] == p@[j]),
    decreases p@.len() - i,
{
    let lp = p.unicode_len();
    if i == lp {
        true
    } else {
        let cs = s.get_char(i);
        let cp = p.get_char(i);
        if cs == cp {
            eq_prefix_from(s, p, i + 1)
        } else {
            assert(!(s@[i as int] == p@[i as int]));
            false
        }
    }
}

/// Executable test that `p` is a textual prefix of `s`. The test is purely
/// textual: no module-path segment boundary is required, so `"ab"` counts as
/// a prefix of `"abc"`.
pub fn str_starts_with(s: &str, p: &str) -> (r: bool)
    ensures
        r == p@.is_prefix_of(s@),
{
    let lp = p.unicode_len();
    let ls = s.unicode_len();
    if lp > ls {
        false
    } else {
        let r = eq_prefix_from(s, p, 0);
        proof {
            if r {
                assert(p@ =~= s@.subrange(0, p@.len() as int));
            } else {
                let j = choose|j: int| 0 <= j < p@.len() && !(s@[j] == p@[j]);
                assert(p@[j] != s@.subrange(0, p@.len() as int)[j]);
            }
        }
        r
    }
}

} // verus!
