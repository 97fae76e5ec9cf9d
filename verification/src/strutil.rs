//! Helpers for vectors of strings viewed as sequences of character sequences.

use vstd::prelude::*;

verus! {

/// The views of a vector of strings, as a sequence of character sequences.
pub open spec fn views_of(v: Seq<String>) -> Seq<Seq<char>> {
    v.map_values(|s: String| s@)
}

/// The view of an optional string.
pub open spec fn opt_view(o: Option<String>) -> Option<Seq<char>> {
    match o {
        Some(s) => Some(s@),
        None => None,
    }
}

/// Pushing onto a sequence inserts the new element into its set of members.
pub proof fn lemma_push_to_set(s: Seq<Seq<char>>, x: Seq<char>)
    ensures
        s.push(x).to_set() == s.to_set().insert(x),
{
    assert forall|y: Seq<char>| s.push(x).to_set().contains(y) implies s.to_set().insert(
        x,
    ).contains(y) by {
        let i = choose|i: int| 0 <= i < s.push(x).len() && s.push(x)[i] == y;
        if i < s.len() {
            assert(s.contains(y));
        }
    }
    assert forall|y: Seq<char>| s.to_set().insert(x).contains(y) implies s.push(
        x,
    ).to_set().contains(y) by {
        if s.to_set().contains(y) {
            let i = choose|i: int| 0 <= i < s.len() && s[i] == y;
            assert(s.push(x)[i] == y);
        } else {
            assert(s.push(x)[s.len() as int] == x);
        }
    }
    assert(s.push(x).to_set() =~= s.to_set().insert(x));
}

/// Whether some member of `v` has the same characters as `s`.
pub fn contains_string(v: &Vec<String>, s: &String) -> (r: bool)
    ensures
        r == views_of(v@).contains(s@),
{
    let mut i: usize = 0;
    while i < v.len()
        invariant
            i <= v@.len(),
            forall|j: int| 0 <= j < i ==> views_of(v@)[j] != s@,
        decreases v@.len() - i,
    {
        if v[i] == *s {
            assert(views_of(v@)[i as int] == s@);
            return true;
        }
        i += 1;
    }
    assert(!views_of(v@).contains(s@));
    false
}

/// Appends `s` unless a string with the same characters is already present,
/// so that the members stay distinct while the set of members grows by `s`.
pub fn push_if_absent(v: &mut Vec<String>, s: String)
    requires
        views_of(old(v)@).no_duplicates(),
    ensures
        views_of(final(v)@).no_duplicates(),
        views_of(final(v)@).to_set() == views_of(old(v)@).to_set().insert(s@),
{
    let ghost vs = views_of(v@);
    if !contains_string(v, &s) {
        let ghost sv = s@;
        v.push(s);
        proof {
            assert(views_of(v@) =~= vs.push(sv));
            lemma_push_to_set(vs, sv);
            assert forall|i: int, j: int|
                0 <= i < vs.push(sv).len() && 0 <= j < vs.push(sv).len() && i
                    != j implies vs.push(sv)[i] != vs.push(sv)[j] by {
                if i == vs.len() as int {
                    assert(vs.push(sv)[j] != sv) by {
                        if vs[j] == sv {
                            assert(vs.contains(sv));
                        }
                    }
                } else if j == vs.len() as int {
                    assert(vs.push(sv)[i] != sv) by {
                        if vs[i] == sv {
                            assert(vs.contains(sv));
                        }
                    }
                }
            }
        }
    } else {
        proof {
            assert(vs.to_set().contains(s@));
            assert(vs.to_set() =~= vs.to_set().insert(s@));
        }
    }
}

} // verus!
