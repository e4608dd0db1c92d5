//! Sets of broadcast values.

use std::collections::HashSet;
use vstd::prelude::*;
use vstd::std_specs::hash::spec_hash_keys_iter;
use vstd::std_specs::iter::IteratorSpec;

verus! {

broadcast use vstd::std_specs::hash::group_hash_axioms;

/// The values of `s` as a list, each once, in no promised order.
pub fn to_vec(s: &HashSet<usize>) -> (r: Vec<usize>)
    ensures
        r@.to_set() == s@,
        r@.no_duplicates(),
        r@.len() == s@.len(),
{
    let mut out: Vec<usize> = Vec::new();
    let ghost all = spec_hash_keys_iter(s).remaining();
    for k in iter: s.iter()
        invariant
            iter.seq() == all,
            out@ =~= all.unref().take(iter.index()),
    {
        out.push(*k);
    }
    assert(out@ =~= all.unref());
    assert(all.unref().no_duplicates()) by {
        assert forall|i: int, j: int|
            0 <= i < all.len() && 0 <= j < all.len() && i != j implies all.unref()[i]
            != all.unref()[j] by {
            assert(all[i] != all[j]);
        }
    }
    out
}

/// A set holding every value of the list `v` and nothing else.
pub fn from_vec(v: &Vec<usize>) -> (r: HashSet<usize>)
    ensures
        r@ == v@.to_set(),
{
    let mut out: HashSet<usize> = HashSet::new();
    let mut i: usize = 0;
    while i < v.len()
        invariant
            i <= v.len(),
            out@ =~= v@.take(i as int).to_set(),
        decreases v.len() - i,
    {
        out.insert(v[i]);
        proof {
            let before = v@.take(i as int);
            let after = v@.take(i as int + 1);
            assert(after =~= before.push(v@[i as int]));
            assert forall|x: usize| after.to_set().contains(x) <==> before.to_set().insert(
                v@[i as int],
            ).contains(x) by {
                if after.contains(x) {
                    let j = choose|j: int| 0 <= j < after.len() && after[j] == x;
                    if j < i {
                        assert(before[j] == x);
                    }
                }
                if before.contains(x) {
                    let j = choose|j: int| 0 <= j < before.len() && before[j] == x;
                    assert(after[j] == x);
                }
                assert(after[i as int] == v@[i as int]);
            }
        }
        i += 1;
    }
    assert(v@.take(v.len() as int) =~= v@);
    out
}

/// An independent copy of `s`.
pub fn copy_set(s: &HashSet<usize>) -> (r: HashSet<usize>)
    ensures
        r@ == s@,
{
    let items = to_vec(s);
    from_vec(&items)
}

/// Adds every value of `more` to `known`.
pub fn merge_into(known: &mut HashSet<usize>, more: &HashSet<usize>)
    ensures
        final(known)@ == old(known)@.union(more@),
{
    let items = to_vec(more);
    let mut i: usize = 0;
    while i < items.len()
        invariant
            i <= items.len(),
            known@ =~= old(known)@.union(items@.take(i as int).to_set()),
        decreases items.len() - i,
    {
        known.insert(items[i]);
        proof {
            let before = items@.take(i as int);
            let after = items@.take(i as int + 1);
            assert(after =~= before.push(items@[i as int]));
            assert forall|x: usize| after.to_set().contains(x) <==> before.to_set().insert(
                items@[i as int],
            ).contains(x) by {
                if after.contains(x) {
                    let j = choose|j: int| 0 <= j < after.len() && after[j] == x;
                    if j < i {
                        assert(before[j] == x);
                    }
                }
                if before.contains(x) {
                    let j = choose|j: int| 0 <= j < before.len() && before[j] == x;
                    assert(after[j] == x);
                }
                assert(after[i as int] == items@[i as int]);
            }
            assert(after.to_set() =~= before.to_set().insert(items@[i as int]));
        }
        i += 1;
    }
    assert(items@.take(items.len() as int) =~= items@);
}

} // verus!
