//! The filter-order rule shared by every windowed-sinc design.

use vstd::prelude::*;

verus! {

/// Number of coefficients a design of the given order produces, when the
/// order is admissible: `order + 1` taps for an even order, none for an odd one.
pub open spec fn spec_coefficient_count(order: nat) -> Option<nat> {
    if order % 2 == 0 {
        Some(order + 1)
    } else {
        None
    }
}

/// Checks the filter order of a lowpass, highpass, bandpass or bandstop
/// design. The order must be even; a design of order `order` then has
/// `order + 1` coefficients, symmetric about the centre tap `order / 2`.
/// Returns `None` for an odd order, which every design rejects.
pub fn coefficient_count(order: usize) -> (count: Option<usize>)
    ensures
        // every odd order is rejected
        order % 2 == 1 ==> count is None,
        // every even order gives one coefficient more than the order
        order % 2 == 0 ==> count is Some && count->0 == order + 1,
        count matches Some(n) ==> spec_coefficient_count(order as nat) == Some(n as nat),
        count is None <==> spec_coefficient_count(order as nat) is None,
        // the centre tap splits the taps into two halves of equal length
        count matches Some(n) ==> n == 2 * (order / 2) + 1,
{
    if order % 2 == 0 {
        Some(order + 1)
    } else {
        None
    }
}

/// The order rule: an odd order admits no design, an even order admits one
/// of `order + 1` coefficients, and two orders that differ by two give taps
/// that differ by two.
pub proof fn lemma_coefficient_count_rule(order: nat)
    ensures
        order % 2 == 1 ==> spec_coefficient_count(order) is None,
        order % 2 == 0 ==> spec_coefficient_count(order) == Some(order + 1),
        order % 2 == 0 ==> spec_coefficient_count(order + 2) == Some(order + 3),
        spec_coefficient_count(order) is Some <==> spec_coefficient_count(order + 2) is Some,
        spec_coefficient_count(order) is Some <==> spec_coefficient_count(order + 1) is None,
{
}

} // verus!
