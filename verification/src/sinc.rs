//! The time grid of the windowed-sinc method.
//!
//! Tap `n` of a filter of order `order` sits at time `n - order / 2` samples,
//! a multiple of one half. The grid is kept here exactly, in half-sample units.

use vstd::prelude::*;

use crate::order::spec_coefficient_count;

verus! {

/// Time of tap `n` in a design of order `order`, in half samples:
/// twice `n - order / 2`.
pub open spec fn half_sample_offset(order: int, n: int) -> int {
    2 * n - order
}

/// The symmetric time vector centred at zero, one entry per tap
/// (`order + 1` entries), each in half-sample units: entry `n` is
/// `2 * n - order`, so that dividing by two gives the time in samples.
pub fn half_sample_offsets(order: usize) -> (offsets: Vec<i128>)
    requires
        order < usize::MAX,
    ensures
        offsets.len() == order + 1,
        forall|n: int| 0 <= n <= order ==> #[trigger] offsets@[n] == 2 * n - order,
        forall|n: int| 0 <= n <= order ==> #[trigger] offsets@[n] == half_sample_offset(order as int, n),
        // the grid starts at minus the order and advances one sample (two
        // half samples) per tap
        offsets@[0] == -(order as int),
        offsets@[order as int] == order as int,
        forall|n: int| 0 <= n < order ==> #[trigger] offsets@[n + 1] - offsets@[n] == 2,
        // the grid is symmetric about zero
        forall|n: int| 0 <= n <= order ==> #[trigger] offsets@[n] + offsets@[order - n] == 0,
        // an even order has its centre tap at time zero
        order % 2 == 0 ==> offsets@[(order / 2) as int] == 0,
{
    let mut offsets: Vec<i128> = Vec::new();
    let last = order as i128;
    let mut n: usize = 0;
    while n <= order
        invariant
            n <= order + 1,
            order < usize::MAX,
            last == order,
            offsets.len() == n,
            forall|k: int| 0 <= k < n ==> #[trigger] offsets@[k] == 2 * k - order,
        decreases order + 1 - n,
    {
        let k = n as i128;
        offsets.push(2 * k - last);
        n = n + 1;
    }
    assert forall|m: int| 0 <= m <= order implies #[trigger] offsets@[m] + offsets@[order - m] == 0 by {
        assert(offsets@[order - m] == half_sample_offset(order as int, order - m));
    }
    offsets
}

/// A design of even order has exactly one grid time per coefficient, and
/// the centre tap `order / 2`, the one that spectral inversion changes, sits at
/// time zero.
pub proof fn lemma_one_time_per_tap(order: nat)
    requires
        order % 2 == 0,
    ensures
        spec_coefficient_count(order) == Some(order + 1),
        half_sample_offset(order as int, (order / 2) as int) == 0,
{
}

/// The grid, one sample apart: tap `n` of a design of order `order` sits
/// `2 * n - order` half samples from the centre; the first tap at `-order`,
/// the last at `order`, and consecutive taps exactly two half samples apart.
pub proof fn lemma_half_sample_grid(order: int, n: int)
    ensures
        half_sample_offset(order, n) == 2 * n - order,
        half_sample_offset(order, 0) == -order,
        half_sample_offset(order, order) == order,
        half_sample_offset(order, n + 1) - half_sample_offset(order, n) == 2,
        half_sample_offset(order, n) + half_sample_offset(order, order - n) == 0,
{
}

} // verus!
