//! Catch-up of the measurement history: on each report the flow records
//! one sample per measurement interval that has begun since the last
//! recorded one, so that the history advances on a fixed time grid.

use vstd::prelude::*;

verus! {

/// How many samples to record when the clock is `behind_ns` nanoseconds
/// past the next grid slot to fill (zero when it is not past it): the
/// number of slots of `interval_ns` that must be stepped over until the
/// slot is no longer behind the clock.
pub fn samples_due(behind_ns: u128, interval_ns: u128) -> (count: u128)
    requires
        interval_ns > 0,
    ensures
        count * interval_ns >= behind_ns,
        count == 0 || (count - 1) * interval_ns < behind_ns,
{
    let whole = behind_ns / interval_ns;
    let rest = behind_ns % interval_ns;
    proof {
        vstd::arithmetic::div_mod::lemma_fundamental_div_mod(behind_ns as int, interval_ns as int);
        assert(whole * interval_ns + rest == behind_ns) by (nonlinear_arith)
            requires
                behind_ns == interval_ns * whole + rest,
        ;
    }
    if rest == 0 {
        proof {
            if whole > 0 {
                assert((whole - 1) * interval_ns == whole * interval_ns - interval_ns)
                    by (nonlinear_arith);
            }
        }
        whole
    } else {
        assert(whole * interval_ns < behind_ns);
        assert(interval_ns >= 2);
        assert(whole < u128::MAX) by (nonlinear_arith)
            requires
                whole * interval_ns < behind_ns,
                interval_ns >= 2,
                behind_ns <= u128::MAX,
        ;
        assert((whole + 1) * interval_ns == whole * interval_ns + interval_ns) by (nonlinear_arith);
        whole + 1
    }
}

} // verus!
