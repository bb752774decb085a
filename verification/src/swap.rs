//! Exchanging two elements of a vector.

use vstd::prelude::*;
use vstd::pervasive::VecAdditionalExecFns;
use vstd::seq_lib::group_to_multiset_ensures;

verus! {

/// Exchanging two positions of a sequence leaves its multiset unchanged.
pub proof fn lemma_swap_to_multiset<T>(s: Seq<T>, i: int, j: int)
    requires
        0 <= i < s.len(),
        0 <= j < s.len(),
    ensures
        s.update(i, s[j]).update(j, s[i]).to_multiset() == s.to_multiset(),
{
    broadcast use group_to_multiset_ensures;

    if i == j {
        assert(s.update(i, s[j]).update(j, s[i]) =~= s);
    } else {
        let t = s.update(i, s[j]);
        let u = t.update(j, s[i]);
        assert(s.contains(s[i]));
        assert(s.contains(s[j]));
        assert(t.contains(t[j]));
        assert(u.to_multiset() =~= s.to_multiset());
    }
}

/// Swap the elements at positions `i` and `j`.
pub fn swap_elems<T: Copy>(v: &mut Vec<T>, i: usize, j: usize)
    requires
        i < old(v)@.len(),
        j < old(v)@.len(),
    ensures
        final(v)@ == old(v)@.update(i as int, old(v)@[j as int]).update(
            j as int,
            old(v)@[i as int],
        ),
        final(v)@.to_multiset() == old(v)@.to_multiset(),
        final(v)@.len() == old(v)@.len(),
{
    let a: T = v[i];
    let b: T = v[j];
    v.set(i, b);
    v.set(j, a);
    proof {
        lemma_swap_to_multiset(old(v)@, i as int, j as int);
    }
}

} // verus!
