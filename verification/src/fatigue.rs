//! The fatigue need tracker: a bounded scalar that rises at a fixed rate
//! every tick and is lowered again by the sleep task action.

use vstd::prelude::*;

verus! {

/// Upper bound of the fatigue scale; the tracker is clamped to
/// `[0, FATIGUE_CEILING]` after every update.
pub const FATIGUE_CEILING: u32 = 100;

/// Per-agent fatigue state: the current level and the rate (units per time
/// unit) at which it rises while the agent is awake.
#[derive(Clone, Copy, PartialEq, Eq, Structural, Debug)]
pub struct Fatigue {
    /// Increase per time unit, applied by [`fatigue_system`].
    pub change: u32,
    /// Current level; kept within `[0, FATIGUE_CEILING]` by every update.
    pub current: u32,
}

/// The fatigue level after one update over `dt` time units: the level rises
/// by `change * dt` and is clamped to the ceiling, whatever the starting
/// value was.
pub open spec fn fatigue_after(current: u32, change: u32, dt: u32) -> u32 {
    if current + change * dt > FATIGUE_CEILING {
        FATIGUE_CEILING
    } else {
        (current + change * dt) as u32
    }
}

/// Advances a fatigue tracker by `dt` time units.
///
/// The resulting level always lies in `[0, FATIGUE_CEILING]`, for every
/// `dt >= 0` and every starting value, including updates large enough to
/// overshoot the ceiling in one step.
pub fn fatigue_system(fatigue: &mut Fatigue, dt: u32)
    ensures
        final(fatigue).change == old(fatigue).change,
        final(fatigue).current == fatigue_after(old(fatigue).current, old(fatigue).change, dt),
        final(fatigue).current <= FATIGUE_CEILING,
{
    proof {
        vstd::arithmetic::mul::lemma_mul_upper_bound(
            fatigue.change as int,
            u32::MAX as int,
            dt as int,
            u32::MAX as int,
        );
    }
    let raised: u64 = fatigue.current as u64 + fatigue.change as u64 * dt as u64;
    fatigue.current = if raised > FATIGUE_CEILING as u64 {
        FATIGUE_CEILING
    } else {
        raised as u32
    };
}

/// The fatigue level after resting for `dt` time units at `per_unit` recovery
/// per time unit: the level falls by `per_unit * dt` and stops at zero.
pub open spec fn fatigue_rested(current: u32, per_unit: u32, dt: u32) -> u32 {
    if current <= per_unit * dt {
        0u32
    } else {
        (current - per_unit * dt) as u32
    }
}

/// Lowers a fatigue tracker by `per_unit * dt`, stopping at zero. Used by
/// the sleep task action; the rate field is untouched.
pub fn rest(fatigue: &mut Fatigue, per_unit: u32, dt: u32)
    ensures
        final(fatigue).change == old(fatigue).change,
        final(fatigue).current == fatigue_rested(old(fatigue).current, per_unit, dt),
        final(fatigue).current <= old(fatigue).current,
{
    proof {
        vstd::arithmetic::mul::lemma_mul_upper_bound(
            per_unit as int,
            u32::MAX as int,
            dt as int,
            u32::MAX as int,
        );
    }
    let relief: u64 = per_unit as u64 * dt as u64;
    fatigue.current = if fatigue.current as u64 <= relief {
        0
    } else {
        (fatigue.current as u64 - relief) as u32
    };
}

} // verus!
