//! Tilt quantization: maps one signed acceleration component (milli-g) and
//! the current sensitivity bound to a grid offset in [-2, 2].

use vstd::prelude::*;

verus! {

/// Mathematical model of the quantizer. `interval = bound / 5` splits the
/// magnitude axis into a dead zone (`|x| < interval`, offset 0), a middle
/// band (`interval <= |x| < 3 * interval`, magnitude 1) and a saturated band
/// (magnitude 2). A positive component negates the magnitude: tilting one
/// way moves the displayed dot the opposite way.
pub open spec fn quantize_spec(x: int, bound: int) -> int {
    let interval = bound / 5;
    let magnitude: int = if -interval < x && x < interval {
        0
    } else if -(3 * interval) < x && x < 3 * interval {
        1
    } else {
        2
    };
    if x > 0 {
        -magnitude
    } else {
        magnitude
    }
}

/// Quantizes one acceleration component against the sensitivity bound.
///
/// The bound is positive by the shared-state invariant; with a positive
/// bound the executable truncating division agrees with the mathematical
/// one, and no intermediate product overflows.
pub fn quantize(x: i32, bound: i32) -> (offset: isize)
    requires
        1 <= bound,
    ensures
        offset == quantize_spec(x as int, bound as int),
        -2 <= offset <= 2,
{
    let interval: i32 = bound / 5;
    let mut offset: isize;
    if x > -interval && x < interval {
        offset = 0;
    } else if x > -(3 * interval) && x < 3 * interval {
        offset = 1;
    } else {
        offset = 2;
    }
    if x > 0 {
        offset = -offset;
    }
    offset
}

/// Dead-zone law: for either configured bound, a component strictly inside
/// the central interval quantizes to offset 0.
pub proof fn lemma_dead_zone(x: int, bound: int)
    requires
        bound == 400 || bound == 1200,
        -(bound / 5) < x < bound / 5,
    ensures
        quantize_spec(x, bound) == 0,
{
}

/// Antisymmetry around zero: negating the component negates the offset.
/// The one exception is `x == 0` under a bound whose interval is not
/// positive: the dead zone is then empty and zero itself saturates, so that
/// input is left out (any positive configured bound has a positive
/// interval).
pub proof fn lemma_antisymmetric(x: int, bound: int)
    requires
        x != 0 || 5 <= bound,
    ensures
        quantize_spec(x, bound) == -quantize_spec(-x, bound),
{
    if x == 0 {
        assert(0 < bound / 5);
    }
}

} // verus!
