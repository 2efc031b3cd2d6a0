//! Buffer sizing helpers.

use vstd::prelude::*;

verus! {

/// Units in which an average cell area is expressed.
#[derive(Clone, Copy, Debug, PartialEq, Eq, Structural)]
pub enum AreaUnits {
    M2,
    Km2,
}

/// Number of cells within grid distance `k` of an origin cell:
/// one for the origin, and `6 * i` more for each ring `i` in `1..=k`.
pub open spec fn k_ring_size(k: nat) -> nat
    decreases k,
{
    if k == 0 {
        1
    } else {
        k_ring_size((k - 1) as nat) + 6 * k
    }
}

proof fn lemma_k_ring_size_closed_form(k: nat)
    ensures
        k_ring_size(k) == 3 * k * (k + 1) + 1,
    decreases k,
{
    if k > 0 {
        let j: int = k - 1;
        lemma_k_ring_size_closed_form(j as nat);
        assert(k_ring_size(k) == k_ring_size(j as nat) + 6 * k);
        assert(3 * j * (j + 1) + 1 + 6 * k == 3 * k * (k + 1) + 1) by (nonlinear_arith)
            requires
                k == j + 1,
        ;
    } else {
        assert(3 * k * (k + 1) == 0) by (nonlinear_arith)
            requires
                k == 0,
        ;
    }
}

/// Exact cell count of the k-ring around a cell: `3 * k * (k + 1) + 1`.
pub fn max_k_ring_size(k: u32) -> (r: usize)
    requires
        3 * (k as int) * (k as int + 1) + 1 <= usize::MAX,
    ensures
        r == 3 * (k as int) * (k as int + 1) + 1,
        r == k_ring_size(k as nat),
{
    proof {
        lemma_k_ring_size_closed_form(k as nat);
        assert(0 <= 3 * (k as int) * (k as int + 1)) by (nonlinear_arith);
        assert((k as int) * (k as int + 1) <= 3 * (k as int) * (k as int + 1)) by (nonlinear_arith);
        assert(k as int + 1 <= 3 * (k as int) * (k as int + 1) + 1) by (nonlinear_arith);
    }
    let kk = k as usize;
    let a: usize = kk * (kk + 1);
    assert(3 * (a as int) + 1 == 3 * (k as int) * (k as int + 1) + 1) by (nonlinear_arith)
        requires
            a == (k as int) * (k as int + 1),
    ;
    3 * a + 1
}

} // verus!
