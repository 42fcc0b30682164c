use vstd::prelude::*;

verus! {

/// 365 days, in seconds.
pub const ONE_YEAR: i64 = 31_536_000;

/// Two 365-day years, in seconds.
pub const TWO_YEARS: i64 = 63_072_000;

/// Three 365-day years, in seconds.
pub const THREE_YEARS: i64 = 94_608_000;

/// The lock duration for a timestamp, bucketed by `t mod 100`:
/// `[0, 15)` one year, `[15, 50)` two years, `[50, 100)` three years.
pub open spec fn period_for(t: int) -> i64 {
    let bucket = t % 100;
    if bucket < 15 {
        ONE_YEAR
    } else if bucket < 50 {
        TWO_YEARS
    } else {
        THREE_YEARS
    }
}

/// Picks the lock duration from the current time.
///
/// The choice is deterministic and anyone who controls when a transaction is
/// submitted can steer it: it is no source of randomness for adversarial use.
pub fn select_period(timestamp: i64) -> (r: i64)
    ensures
        r == period_for(timestamp as int),
        r == ONE_YEAR || r == TWO_YEARS || r == THREE_YEARS,
{
    let bucket: u64 = if timestamp >= 0 {
        (timestamp as u64) % 100
    } else {
        let magnitude: u64 = (-(timestamp as i128)) as u64;
        let rem: u64 = magnitude % 100;
        assert((timestamp as int) % 100 == if rem == 0 { 0 } else { 100 - rem }) by (nonlinear_arith)
            requires
                magnitude as int == -(timestamp as int),
                rem as int == (magnitude as int) % 100,
        ;
        if rem == 0 {
            0
        } else {
            100 - rem
        }
    };
    if bucket < 15 {
        ONE_YEAR
    } else if bucket < 50 {
        TWO_YEARS
    } else {
        THREE_YEARS
    }
}

} // verus!
