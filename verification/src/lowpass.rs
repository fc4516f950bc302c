//! The half-power (-3 dB) frequency search of a lowpass design.
//!
//! The search walks a grid of frequencies `pi * i / HALF_POWER_GRID_STEPS`
//! for `i` in `1..HALF_POWER_GRID_STEPS`, and at each point only asks how the
//! filter's magnitude compares with the target `1/sqrt(2)`. That comparison is
//! handed in as a [`GainLevel`] per grid point; the search itself is here.

use vstd::prelude::*;

verus! {

/// Number of steps that divide `[0, pi]` in the half-power search; grid
/// point `i` is the frequency `pi * i / HALF_POWER_GRID_STEPS`.
pub const HALF_POWER_GRID_STEPS: usize = 1000;

/// How the magnitude response at one grid point compares with the target.
#[derive(Debug, Clone, Copy, PartialEq, Eq, Structural)]
pub enum GainLevel {
    /// The magnitude is below the target.
    Below,
    /// The magnitude reaches the target (greater or equal).
    Reached,
    /// Neither: the magnitude does not compare with the target (not a number).
    Unordered,
}

/// Some point before position `k` of `levels` reaches the target.
pub open spec fn reached_before(levels: Seq<GainLevel>, k: int) -> bool {
    exists|j: int| 0 <= j < k && #[trigger] levels[j] == GainLevel::Reached
}

/// Position `k` is where the magnitude falls below the target after having
/// reached it at some earlier point.
pub open spec fn is_drop(levels: Seq<GainLevel>, k: int) -> bool {
    &&& 0 <= k < levels.len()
    &&& levels[k] == GainLevel::Below
    &&& reached_before(levels, k)
}

/// Grid index of the half-power frequency.
///
/// `levels[k]` tells how the magnitude at grid point `k + 1` compares with
/// the target. The result is the grid point of the first drop below the
/// target after the target was reached; if there is no such drop, the last
/// grid point that reaches the target; if none does, `0` (frequency zero).
pub fn half_power_grid_index(levels: &[GainLevel]) -> (index: usize)
    ensures
        index <= levels@.len(),
        (exists|k: int| is_drop(levels@, k)) ==> {
            &&& index >= 1
            &&& is_drop(levels@, index - 1)
            &&& forall|k: int| 0 <= k < index - 1 ==> !is_drop(levels@, k)
        },
        !(exists|k: int| is_drop(levels@, k)) ==> {
            ||| index == 0 && forall|j: int| 0 <= j < levels@.len() ==> levels@[j] != GainLevel::Reached
            ||| {
                &&& index >= 1
                &&& levels@[index - 1] == GainLevel::Reached
                &&& forall|j: int| index <= j < levels@.len() ==> levels@[j] != GainLevel::Reached
            }
        },
{
    // grid point of the last point so far that reached the target, or 0
    let mut last: usize = 0;
    let mut k: usize = 0;
    while k < levels.len()
        invariant
            k <= levels@.len(),
            last <= k,
            forall|j: int| 0 <= j < k ==> !is_drop(levels@, j),
            last == 0 ==> forall|j: int| 0 <= j < k ==> levels@[j] != GainLevel::Reached,
            last > 0 ==> levels@[last - 1] == GainLevel::Reached,
            forall|j: int| last <= j < k ==> levels@[j] != GainLevel::Reached,
        decreases levels@.len() - k,
    {
        match levels[k] {
            GainLevel::Below => {
                if last > 0 {
                    assert(reached_before(levels@, k as int)) by {
                        assert(levels@[last - 1] == GainLevel::Reached);
                    }
                    assert(is_drop(levels@, k as int));
                    return k + 1;
                }
            },
            GainLevel::Reached => {
                last = k + 1;
            },
            GainLevel::Unordered => {},
        }
        k = k + 1;
    }
    last
}

/// What a drop is: a grid position below the target with some earlier
/// position that reached it. A target reached at position `j` and missed at a
/// later position `k` always makes some position in `(j, k]` a drop.
pub proof fn lemma_drop_meaning(levels: Seq<GainLevel>, j: int, k: int)
    ensures
        is_drop(levels, k) <==> (0 <= k < levels.len() && levels[k] == GainLevel::Below && exists|i: int|
            0 <= i < k && #[trigger] levels[i] == GainLevel::Reached),
        0 <= j < k < levels.len() && levels[j] == GainLevel::Reached && levels[k]
            == GainLevel::Below ==> is_drop(levels, k),
        !reached_before(levels, 0),
{
}

} // verus!
