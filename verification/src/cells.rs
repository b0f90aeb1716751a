//! Verified helpers on lists of coarse cells, used for the items that
//! occupy the arena.

use vstd::prelude::*;

use crate::components::ConsumablePosition;

verus! {

broadcast use vstd::seq_lib::group_to_multiset_ensures, vstd::multiset::group_multiset_axioms;

/// A sequence stays duplicate-free when an element it does not hold is
/// pushed.
pub proof fn lemma_push_keeps_no_dup(s: Seq<ConsumablePosition>, c: ConsumablePosition)
    requires
        s.no_duplicates(),
        !s.contains(c),
    ensures
        s.push(c).no_duplicates(),
        forall|d: ConsumablePosition| s.push(c).contains(d) <==> s.contains(d) || d == c,
{
    assert forall|d: ConsumablePosition| s.push(c).contains(d) <==> s.contains(d) || d == c by {
        if s.push(c).contains(d) {
            let k = choose|k: int| 0 <= k < s.push(c).len() && s.push(c)[k] == d;
            if k < s.len() {
                assert(s[k] == d);
            }
        }
        if s.contains(d) {
            let k = choose|k: int| 0 <= k < s.len() && s[k] == d;
            assert(s.push(c)[k] == d);
        }
        if d == c {
            assert(s.push(c)[s.len() as int] == d);
        }
    }
}

/// Removing one position of a duplicate-free sequence removes exactly
/// that cell from its membership.
pub proof fn lemma_remove_at_no_dup(s: Seq<ConsumablePosition>, i: int)
    requires
        s.no_duplicates(),
        0 <= i < s.len(),
    ensures
        s.remove(i).no_duplicates(),
        forall|d: ConsumablePosition| s.remove(i).contains(d) <==> s.contains(d) && d != s[i],
{
    let c = s[i];
    assert(s.contains(c));
    s.lemma_multiset_has_no_duplicates();
    assert(s.to_multiset().count(c) == 1);
    assert(s.remove(i).to_multiset() =~= s.to_multiset().remove(c));
    assert forall|d: ConsumablePosition| s.remove(i).contains(d) <==> s.contains(d) && d != c by {
        assert(s.remove(i).to_multiset().count(d) == s.to_multiset().remove(c).count(d));
    }
    assert forall|d: ConsumablePosition|
        s.remove(i).to_multiset().contains(d) implies s.remove(i).to_multiset().count(d) == 1 by {
        if d != c && s.to_multiset().count(d) > 0 {
            assert(s.contains(d));
        }
    }
    s.remove(i).lemma_multiset_has_no_duplicates_conv();
}

/// The index of the first occurrence of a cell, if the list holds it.
pub fn index_of_cell(v: &Vec<ConsumablePosition>, c: &ConsumablePosition) -> (r: Option<usize>)
    ensures
        match r {
            Some(i) => i < v@.len() && v@[i as int] == *c,
            None => !v@.contains(*c),
        },
{
    let n = v.len();
    let mut i: usize = 0;
    while i < n
        invariant
            n == v@.len(),
            0 <= i <= n,
            forall|j: int| 0 <= j < i ==> v@[j] != *c,
        decreases n - i,
    {
        if v[i] == *c {
            return Some(i);
        }
        i = i + 1;
    }
    None
}

/// Whether the list holds the given cell.
pub fn contains_cell(v: &Vec<ConsumablePosition>, c: &ConsumablePosition) -> (r: bool)
    ensures
        r == v@.contains(*c),
{
    let n = v.len();
    let mut i: usize = 0;
    while i < n
        invariant
            n == v@.len(),
            0 <= i <= n,
            forall|j: int| 0 <= j < i ==> v@[j] != *c,
        decreases n - i,
    {
        if v[i] == *c {
            return true;
        }
        i = i + 1;
    }
    false
}

/// Removes the given cell from a duplicate-free list, reporting
/// whether it was there.
pub fn take_cell(v: &mut Vec<ConsumablePosition>, c: &ConsumablePosition) -> (found: bool)
    requires
        old(v)@.no_duplicates(),
    ensures
        final(v)@.no_duplicates(),
        found == old(v)@.contains(*c),
        forall|d: ConsumablePosition| final(v)@.contains(d) <==> old(v)@.contains(d) && d != *c,
        found ==> final(v)@.len() == old(v)@.len() - 1,
        !found ==> final(v)@ == old(v)@,
{
    let n = v.len();
    let mut i: usize = 0;
    while i < n
        invariant
            n == v@.len(),
            0 <= i <= n,
            v@ == old(v)@,
            old(v)@.no_duplicates(),
            forall|j: int| 0 <= j < i ==> v@[j] != *c,
        decreases n - i,
    {
        if v[i] == *c {
            proof {
                let s = old(v)@;
                assert(s.contains(*c));
                s.lemma_multiset_has_no_duplicates();
                assert(s.to_multiset().count(*c) == 1);
            }
            v.remove(i);
            proof {
                let s = old(v)@;
                assert(v@.to_multiset() =~= s.to_multiset().remove(*c));
                assert forall|d: ConsumablePosition|
                    v@.contains(d) <==> s.contains(d) && d != *c by {
                    assert(v@.to_multiset().count(d) == s.to_multiset().remove(*c).count(d));
                }
                assert forall|d: ConsumablePosition|
                    v@.to_multiset().contains(d) implies v@.to_multiset().count(d) == 1 by {
                    if d != *c && s.to_multiset().count(d) > 0 {
                        assert(s.contains(d));
                    }
                }
                v@.lemma_multiset_has_no_duplicates_conv();
            }
            return true;
        }
        i = i + 1;
    }
    proof {
        assert(!old(v)@.contains(*c));
    }
    false
}

/// Adds a cell that the duplicate-free list does not hold yet.
pub fn add_cell(v: &mut Vec<ConsumablePosition>, c: ConsumablePosition)
    requires
        old(v)@.no_duplicates(),
        !old(v)@.contains(c),
    ensures
        final(v)@.no_duplicates(),
        final(v)@ == old(v)@.push(c),
        final(v)@.len() == old(v)@.len() + 1,
        forall|d: ConsumablePosition| final(v)@.contains(d) <==> old(v)@.contains(d) || d == c,
{
    proof {
        lemma_push_keeps_no_dup(old(v)@, c);
    }
    v.push(c);
}

} // verus!
