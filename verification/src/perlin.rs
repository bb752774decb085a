//! Permutation tables for the value-noise generator.
//!
//! The noise field is driven by three independent shuffles of the indices
//! `0..255`.  A sample point is reduced (outside this module) to three
//! lattice indices; the three table lookups are combined with bitwise XOR
//! into an index below 256, which the caller uses to pick one of its 256
//! precomputed random amplitudes.

use vstd::prelude::*;
use vstd::seq_lib::group_to_multiset_ensures;
use crate::rng::Rng;
use crate::rng::mix;
use crate::swap::swap_elems;

verus! {

/// The identity table: the indices `0..255` in order.
pub open spec fn ident() -> Seq<usize> {
    Seq::new(256, |i: int| i as usize)
}

/// A sequence holding each of the indices `0..255` exactly once.
pub open spec fn is_permutation(s: Seq<usize>) -> bool {
    s.to_multiset() == ident().to_multiset()
}

/// The Fisher-Yates walk from position `i` down to 1: at each position the
/// stream is advanced once, the element there is exchanged with the element
/// at the drawn position, and the walk moves down one.  Returns the shuffled
/// sequence and the state the stream is left in.
pub open spec fn shuffle_from(s: Seq<usize>, st: u64, i: int) -> (Seq<usize>, u64)
    decreases i,
{
    if i < 1 {
        (s, st)
    } else {
        let st2 = mix(st);
        let t = (st2 % ((i + 1) as u64)) as int;
        shuffle_from(s.update(i, s[t]).update(t, s[i]), st2, i - 1)
    }
}

/// Every value of a permutation of `0..255` is below 256.
proof fn lemma_permutation_values_bounded(s: Seq<usize>)
    requires
        is_permutation(s),
    ensures
        forall|j: int| 0 <= j < s.len() ==> s[j] < 256,
{
    broadcast use group_to_multiset_ensures;

    assert forall|j: int| 0 <= j < s.len() implies s[j] < 256 by {
        assert(s.contains(s[j]));
        assert(s.to_multiset().count(s[j]) > 0);
        assert(ident().contains(s[j]));
        let w = choose|w: int| 0 <= w < ident().len() && ident()[w] == s[j];
        assert(ident()[w] == w as usize);
    }
}

/// Shuffle the first `n` elements of `v` in place, exchanging each position
/// from `n - 1` down to 1 with a position drawn at or below it.
pub fn permute(v: &mut Vec<usize>, n: usize, rng: &mut Rng)
    requires
        old(rng).inv(),
        n <= old(v)@.len(),
        n <= 0xFFFF_FFFF,
    ensures
        final(rng).inv(),
        final(v)@.len() == old(v)@.len(),
        final(v)@.to_multiset() == old(v)@.to_multiset(),
        final(v)@ == shuffle_from(old(v)@, old(rng).raw(), n - 1).0,
        final(rng).raw() == shuffle_from(old(v)@, old(rng).raw(), n - 1).1,
{
    if n == 0 {
        return ;
    }
    let ghost s0 = old(v)@;
    let ghost st0 = old(rng).raw();
    let mut i: usize = n - 1;
    while i >= 1
        invariant
            rng.inv(),
            v@.len() == s0.len(),
            v@.to_multiset() == s0.to_multiset(),
            i < n <= v@.len(),
            n <= 0xFFFF_FFFF,
            shuffle_from(v@, rng.raw(), i as int) == shuffle_from(s0, st0, n - 1),
        decreases i,
    {
        let ghost pre_v = v@;
        let ghost pre_st = rng.raw();
        let t32: u32 = rng.below((i + 1) as u32);
        let t: usize = t32 as usize;
        swap_elems(v, i, t);
        proof {
            assert(t32 == mix(pre_st) % ((i + 1) as u64));
            assert(shuffle_from(pre_v, pre_st, i as int) == shuffle_from(
                v@,
                rng.raw(),
                i as int - 1,
            ));
        }
        i = i - 1;
    }
}

/// Generate one shuffled table of the indices `0..255`.
pub fn perlin_generate_perm(rng: &mut Rng) -> (r: Vec<usize>)
    requires
        old(rng).inv(),
    ensures
        final(rng).inv(),
        r@.len() == 256,
        is_permutation(r@),
        forall|t: int| 0 <= t < 256 ==> r@[t] < 256,
        r@ == shuffle_from(ident(), old(rng).raw(), 255).0,
        final(rng).raw() == shuffle_from(ident(), old(rng).raw(), 255).1,
{
    let mut v: Vec<usize> = Vec::new();
    let mut i: usize = 0;
    while i < 256
        invariant
            i <= 256,
            v@.len() == i,
            forall|k: int| 0 <= k < i ==> v@[k] == k as usize,
        decreases 256 - i,
    {
        v.push(i);
        i = i + 1;
    }
    proof {
        assert(v@ =~= ident());
    }
    permute(&mut v, 256, rng);
    proof {
        lemma_permutation_values_bounded(v@);
    }
    v
}

/// The three permutation tables of the noise generator.
#[derive(Debug, Clone)]
pub struct Perlin {
    /// The table combined along the first lattice axis.
    pub perm_x: Vec<usize>,
    /// The table combined along the second lattice axis.
    pub perm_y: Vec<usize>,
    /// The table combined along the third lattice axis.
    pub perm_z: Vec<usize>,
}

/// The XOR-combined table index for lattice indices `i`, `j`, `k`.
pub open spec fn spec_noise_index(p: Perlin, i: usize, j: usize, k: usize) -> usize {
    ((p.perm_x@[(i % 256) as int] as u32) ^ (p.perm_y@[(j % 256) as int] as u32) ^ (
    p.perm_z@[(k % 256) as int] as u32)) as usize
}

impl Perlin {
    /// Each table holds each of `0..255` exactly once.
    pub open spec fn inv(self) -> bool {
        &&& self.perm_x@.len() == 256
        &&& self.perm_y@.len() == 256
        &&& self.perm_z@.len() == 256
        &&& forall|t: int| 0 <= t < 256 ==> #[trigger] self.perm_x@[t] < 256
        &&& forall|t: int| 0 <= t < 256 ==> #[trigger] self.perm_y@[t] < 256
        &&& forall|t: int| 0 <= t < 256 ==> #[trigger] self.perm_z@[t] < 256
    }

    /// Generate the three tables, in order, from the stream.
    pub fn new(rng: &mut Rng) -> (p: Perlin)
        requires
            old(rng).inv(),
        ensures
            final(rng).inv(),
            p.inv(),
            is_permutation(p.perm_x@),
            is_permutation(p.perm_y@),
            is_permutation(p.perm_z@),
            ({
                let (px, st1) = shuffle_from(ident(), old(rng).raw(), 255);
                let (py, st2) = shuffle_from(ident(), st1, 255);
                let (pz, st3) = shuffle_from(ident(), st2, 255);
                &&& p.perm_x@ == px
                &&& p.perm_y@ == py
                &&& p.perm_z@ == pz
                &&& final(rng).raw() == st3
            }),
    {
        let perm_x = perlin_generate_perm(rng);
        let perm_y = perlin_generate_perm(rng);
        let perm_z = perlin_generate_perm(rng);
        Perlin { perm_x, perm_y, perm_z }
    }

    /// Combine the three table lookups for lattice indices `i`, `j`, `k`
    /// into one index below 256.
    pub fn noise_index(&self, i: usize, j: usize, k: usize) -> (r: usize)
        requires
            self.inv(),
        ensures
            r == spec_noise_index(*self, i, j, k),
            r < 256,
    {
        let a: u32 = self.perm_x[i % 256] as u32;
        let b: u32 = self.perm_y[j % 256] as u32;
        let c: u32 = self.perm_z[k % 256] as u32;
        let r: u32 = a ^ b ^ c;
        proof {
            assert(r < 256) by (bit_vector)
                requires
                    a < 256 && b < 256 && c < 256 && r == a ^ b ^ c,
            ;
        }
        r as usize
    }
}

} // verus!
