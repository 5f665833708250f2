//! The dwell times of binary code modulation: how long each bit plane is
//! shown.

use vstd::arithmetic::power2::{lemma_pow2_strictly_increases, pow2};
use vstd::bits::lemma_u32_shl_is_mul;
use vstd::prelude::*;

verus! {

/// Number of clock ticks that the output stays enabled for bit plane
/// `plane`: `2^plane - 1`.
pub open spec fn dwell(plane: nat) -> nat {
    (pow2(plane) - 1) as nat
}

/// Computes an array with number of clock ticks to wait for every n-th color bit
pub fn delays<const B: usize>() -> (ds: [u32; B])
    requires
        B <= 32,
    ensures
        forall|i: int| 0 <= i < B ==> ds@[i] == dwell(i as nat),
{
    let mut ds: [u32; B] = [0u32; B];
    let mut i: usize = 0;
    while i < B
        invariant
            i <= B,
            B <= 32,
            forall|k: int| 0 <= k < i ==> ds@[k] == dwell(k as nat),
        decreases B - i,
    {
        proof {
            vstd::bits::lemma_u32_pow2_no_overflow(i as nat);
            lemma_u32_shl_is_mul(1, i as u32);
        }
        ds[i] = (1u32 << i) - 1;
        i += 1;
    }
    ds
}

/// A higher bit plane is shown strictly longer than a lower one.
pub proof fn lemma_dwell_strictly_increasing(i: nat, j: nat)
    requires
        i < j,
    ensures
        dwell(i) < dwell(j),
{
    lemma_pow2_strictly_increases(i, j);
    vstd::arithmetic::power2::lemma_pow2_pos(i);
}

/// In a table of `planes` dwell times the last one is strictly the largest.
pub proof fn lemma_last_dwell_is_largest(planes: nat, i: nat)
    requires
        i + 1 < planes,
    ensures
        dwell(i) < dwell((planes - 1) as nat),
{
    lemma_dwell_strictly_increasing(i, (planes - 1) as nat);
}

} // verus!
