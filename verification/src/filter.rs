//! The module allow-list filter.
//!
//! A filter owns a set of module-path prefixes. When the set is empty, every
//! module may emit. Otherwise a candidate module path is admitted exactly
//! when the lexicographically greatest registered entry that is no greater
//! than the path is a textual prefix of it. The prefix test is purely
//! textual, so registering `"ab"` admits the unrelated module `"abc"`.

use vstd::prelude::*;
use crate::lex::lex_le;
use crate::lex::lex_le_refl;
use crate::lex::lex_le_total;
use crate::lex::lex_le_trans;
use crate::lex::lex_le_antisym;
use crate::lex::str_le;
use crate::lex::str_starts_with;

verus! {

/// The registered prefixes held in `mods`, viewed as a set of character
/// sequences.
pub open spec fn registered(mods: Seq<String>) -> Set<Seq<char>> {
    mods.map_values(|s: String| s@).to_set()
}

/// `m` is the lexicographically greatest registered entry that is no greater
/// than `path`.
pub open spec fn is_greatest_le(mods: Set<Seq<char>>, path: Seq<char>, m: Seq<char>) -> bool {
    &&& mods.contains(m)
    &&& lex_le(m, path)
    &&& forall|x: Seq<char>| #[trigger] mods.contains(x) && lex_le(x, path) ==> lex_le(x, m)
}

/// The filter's decision: an empty registration admits every path; otherwise
/// the greatest registered entry no greater than `path` must exist and be a
/// textual prefix of `path`.
pub open spec fn includes_spec(mods: Set<Seq<char>>, path: Seq<char>) -> bool {
    if mods == Set::<Seq<char>>::empty() {
        true
    } else if exists|m: Seq<char>| is_greatest_le(mods, path, m) {
        (choose|m: Seq<char>| is_greatest_le(mods, path, m)).is_prefix_of(path)
    } else {
        false
    }
}

/// A filter with an empty registration restricts nothing: every module path,
/// whatever its text, is included.
pub proof fn lemma_empty_filter_includes_all(mods: Set<Seq<char>>, path: Seq<char>)
    requires
        mods == Set::<Seq<char>>::empty(),
    ensures
        includes_spec(mods, path),
{
}

/// A registered path is always included itself: the greatest registered
/// entry no greater than it is the path itself, which is its own prefix.
pub proof fn lemma_exact_match_included(mods: Set<Seq<char>>, path: Seq<char>)
    requires
        mods.contains(path),
    ensures
        includes_spec(mods, path),
{
    lex_le_refl(path);
    assert(is_greatest_le(mods, path, path));
    let m2 = choose|m: Seq<char>| is_greatest_le(mods, path, m);
    assert(is_greatest_le(mods, path, m2));
    assert(lex_le(m2, path));
    assert(lex_le(path, m2));
    lex_le_antisym(path, m2);
    assert(path =~= path.subrange(0, path.len() as int));
    assert(!Set::<Seq<char>>::empty().contains(path));
    assert(mods != Set::<Seq<char>>::empty());
}

/// Decides `includes_spec` for the entries of `mods` by scanning for the
/// greatest entry that is lexicographically no greater than `path`.
pub(crate) fn filter_includes(mods: &Vec<String>, path: &str) -> (r: bool)
    ensures
        r == includes_spec(registered(mods@), path@),
{
    if mods.len() == 0 {
        proof {
            assert(registered(mods@) =~= Set::<Seq<char>>::empty());
        }
        return true;
    }
    let ghost mset = registered(mods@);
    proof {
        assert(mods@.map_values(|s: String| s@)[0] == mods@[0]@);
        assert(mods@.map_values(|s: String| s@).contains(mods@[0]@));
        assert(mset.contains(mods@[0]@));
        assert(!Set::<Seq<char>>::empty().contains(mods@[0]@));
        assert(mset != Set::<Seq<char>>::empty());
    }
    let mut best: usize = 0;
    let mut found: bool = false;
    let mut i: usize = 0;
    while i < mods.len()
        invariant
            i <= mods@.len(),
            found ==> best < i,
            found ==> lex_le(mods@[best as int]@, path@),
            found ==> forall|j: int|
                0 <= j < i && #[trigger] lex_le(mods@[j]@, path@) ==> lex_le(
                    mods@[j]@,
                    mods@[best as int]@,
                ),
            !found ==> forall|j: int| 0 <= j < i ==> !(#[trigger] lex_le(mods@[j]@, path@)),
        decreases mods@.len() - i,
    {
        if str_le(mods[i].as_str(), path) {
            if !found {
                found = true;
                best = i;
                proof {
                    lex_le_refl(mods@[i as int]@);
                }
            } else if str_le(mods[best].as_str(), mods[i].as_str()) {
                proof {
                    lex_le_refl(mods@[i as int]@);
                    assert forall|j: int|
                        0 <= j < i + 1 && #[trigger] lex_le(mods@[j]@, path@) implies lex_le(
                        mods@[j]@,
                        mods@[i as int]@,
                    ) by {
                        if j < i {
                            lex_le_trans(mods@[j]@, mods@[best as int]@, mods@[i as int]@);
                        }
                    }
                }
                best = i;
            } else {
                proof {
                    lex_le_total(mods@[best as int]@, mods@[i as int]@);
                }
            }
        }
        i += 1;
    }
    if found {
        let r = str_starts_with(path, mods[best].as_str());
        proof {
            let m = mods@[best as int]@;
            assert(mods@.map_values(|s: String| s@)[best as int] == m);
            assert(mods@.map_values(|s: String| s@).contains(m));
            assert(mset.contains(m));
            assert forall|x: Seq<char>| #[trigger] mset.contains(x) && lex_le(x, path@) implies lex_le(
                x,
                m,
            ) by {
                assert(mods@.map_values(|s: String| s@).contains(x));
                let j = mods@.map_values(|s: String| s@).index_of(x);
                assert(mods@[j]@ == x);
                assert(lex_le(mods@[j]@, mods@[best as int]@));
            }
            assert(is_greatest_le(mset, path@, m));
            let m2 = choose|mm: Seq<char>| is_greatest_le(mset, path@, mm);
            assert(is_greatest_le(mset, path@, m2));
            assert(lex_le(m2, m));
            assert(lex_le(m, m2));
            lex_le_antisym(m, m2);
            assert(includes_spec(mset, path@) == m.is_prefix_of(path@));
        }
        r
    } else {
        proof {
            assert forall|m: Seq<char>| !is_greatest_le(mset, path@, m) by {
                if mset.contains(m) && lex_le(m, path@) {
                    assert(mods@.map_values(|s: String| s@).contains(m));
                    let j = mods@.map_values(|s: String| s@).index_of(m);
                    assert(mods@[j]@ == m);
                    assert(!lex_le(mods@[j]@, path@));
                }
            }
        }
        false
    }
}

/// Registering the first `i + 1` entries of `mods` registers the first `i`
/// and then inserts entry `i`.
pub proof fn lemma_registered_take_step(mods: Seq<String>, i: int)
    requires
        0 <= i < mods.len(),
    ensures
        registered(mods.take(i + 1)) == registered(mods.take(i)).insert(mods[i]@),
{
    let a = mods.take(i).map_values(|s: String| s@);
    let b = mods.take(i + 1).map_values(|s: String| s@);
    assert forall|x: Seq<char>| b.to_set().contains(x) implies a.to_set().insert(
        mods[i]@,
    ).contains(x) by {
        let j = b.index_of(x);
        if j < i {
            assert(a[j] == mods.take(i)[j]@);
            assert(a.contains(x));
        } else {
            assert(b[j] == mods.take(i + 1)[j]@);
            assert(x == mods[i]@);
        }
    }
    assert forall|x: Seq<char>| a.to_set().insert(mods[i]@).contains(x) implies b.to_set().contains(
        x,
    ) by {
        if x == mods[i]@ {
            assert(b[i] == mods.take(i + 1)[i]@);
            assert(b.contains(x));
        } else {
            let j = a.index_of(x);
            assert(b[j] == mods.take(i + 1)[j]@);
            assert(b.contains(x));
        }
    }
    assert(registered(mods.take(i + 1)) =~= registered(mods.take(i)).insert(mods[i]@));
}

/// Adds `m` to the registered entries; registering an entry twice leaves the
/// set unchanged.
pub(crate) fn register(mods: &mut Vec<String>, m: &str)
    ensures
        registered(final(mods)@) == registered(old(mods)@).insert(m@),
{
    let mut i: usize = 0;
    while i < mods.len()
        invariant
            i <= mods@.len(),
            mods@ == old(mods)@,
            forall|j: int| 0 <= j < i ==> #[trigger] mods@[j]@ != m@,
        decreases mods@.len() - i,
    {
        let le1 = str_le(mods[i].as_str(), m);
        let le2 = str_le(m, mods[i].as_str());
        if le1 && le2 {
            proof {
                lex_le_antisym(mods@[i as int]@, m@);
                assert(mods@.map_values(|s: String| s@)[i as int] == m@);
                assert(mods@.map_values(|s: String| s@).contains(m@));
                assert(registered(mods@).contains(m@));
                assert(registered(mods@).insert(m@) =~= registered(mods@));
            }
            return ;
        }
        proof {
            if mods@[i as int]@ == m@ {
                lex_le_refl(m@);
            }
        }
        i += 1;
    }
    let owned = m.to_owned();
    mods.push(owned);
    proof {
        let oldseq = old(mods)@.map_values(|s: String| s@);
        let newseq = mods@.map_values(|s: String| s@);
        assert(newseq.len() == oldseq.len() + 1);
        assert forall|x: Seq<char>| registered(mods@).contains(x) implies registered(
            old(mods)@,
        ).insert(m@).contains(x) by {
            let j = newseq.index_of(x);
            if j < oldseq.len() {
                assert(oldseq[j] == old(mods)@[j]@);
                assert(newseq[j] == mods@[j]@);
                assert(mods@[j] == old(mods)@[j]);
                assert(oldseq.contains(x));
            } else {
                assert(newseq[j] == mods@[j]@);
                assert(x == m@);
            }
        }
        assert forall|x: Seq<char>| registered(old(mods)@).insert(m@).contains(x) implies registered(
            mods@,
        ).contains(x) by {
            if x == m@ {
                assert(newseq[oldseq.len() as int] == mods@[oldseq.len() as int]@);
                assert(newseq[oldseq.len() as int] == x);
                assert(newseq.contains(x));
            } else {
                assert(oldseq.contains(x));
                let j = oldseq.index_of(x);
                assert(newseq[j] == mods@[j]@);
                assert(mods@[j] == old(mods)@[j]);
                assert(newseq[j] == x);
                assert(newseq.contains(x));
            }
        }
        assert(registered(mods@) =~= registered(old(mods)@).insert(m@));
    }
}

} // verus!
