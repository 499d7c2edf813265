use vstd::prelude::*;

verus! {

/// Seconds in a day.
pub const SECS_PER_DAY: u64 = 86400;

/// The shortest simulated execution delay, in milliseconds.
pub const MIN_EXECUTION_DELAY_MS: u64 = 150;

/// How many distinct delays the simulated execution delay spreads over.
pub const EXECUTION_DELAY_SPREAD: u64 = 551;

/// The time of day (UTC) of a Unix timestamp, as hours, minutes and seconds.
pub fn clock_of_day(secs: u64) -> (r: (u64, u64, u64))
    ensures
        r.0 == (secs % 86400) / 3600,
        r.1 == (secs % 3600) / 60,
        r.2 == secs % 60,
        r.0 < 24,
        r.1 < 60,
        r.2 < 60,
        r.0 * 3600 + r.1 * 60 + r.2 == secs % 86400,
{
    let h = (secs % SECS_PER_DAY) / 3600;
    let m = (secs % 3600) / 60;
    let s = secs % 60;
    proof {
        lemma_clock_parts(secs as int);
    }
    (h, m, s)
}

proof fn lemma_clock_parts(x: int)
    requires
        x >= 0,
    ensures
        (x % 86400) / 3600 < 24,
        (x % 86400) / 3600 * 3600 + (x % 3600) / 60 * 60 + x % 60 == x % 86400,
{
    let d = x % 86400;
    assert(d == x - (x / 86400) * 86400) by (nonlinear_arith)
        requires
            d == x % 86400,
    ;
    assert(0 <= d < 86400);
    let h = d / 3600;
    assert(d == h * 3600 + d % 3600) by (nonlinear_arith)
        requires
            h == d / 3600,
            d >= 0,
    ;
    assert(x % 3600 == d % 3600) by (nonlinear_arith)
        requires
            d == x - (x / 86400) * 86400,
            x >= 0,
    {
        assert(x == d + (x / 86400 * 24) * 3600);
    }
    let r = d % 3600;
    assert(r == (r / 60) * 60 + r % 60) by (nonlinear_arith)
        requires
            r >= 0,
    ;
    assert(r % 60 == x % 60) by (nonlinear_arith)
        requires
            r == x % 3600,
            x >= 0,
    {
        assert(x == r + (x / 3600 * 60) * 60);
    }
}

/// How long to wait from `now_secs` until the next candle boundary, for
/// candles of `candle_secs` seconds: a whole candle when `now_secs` is itself
/// a boundary.
pub fn secs_to_next_candle(now_secs: u64, candle_secs: u64) -> (r: u64)
    requires
        candle_secs > 0,
    ensures
        r == candle_secs - now_secs % candle_secs,
        1 <= r <= candle_secs,
        (now_secs + r) % (candle_secs as int) == 0,
{
    let into = now_secs % candle_secs;
    let r = candle_secs - into;
    proof {
        let n = now_secs as int;
        let c = candle_secs as int;
        assert(n == (n / c) * c + n % c) by (nonlinear_arith)
            requires
                c > 0,
        ;
        assert(n + r == (n / c + 1) * c) by (nonlinear_arith)
            requires
                n == (n / c) * c + n % c,
                r == c - n % c,
        ;
        assert(((n / c + 1) * c) % c == 0) by (nonlinear_arith)
            requires
                c > 0,
                n / c + 1 >= 0,
        ;
    }
    r
}

/// The simulated order-execution delay, in milliseconds, drawn from the
/// sub-second part of the clock: between 150 and 700 inclusive.
pub fn execution_delay_ms(subsec_nanos: u32) -> (r: u64)
    ensures
        r == subsec_nanos % 551 + 150,
        MIN_EXECUTION_DELAY_MS <= r < MIN_EXECUTION_DELAY_MS + EXECUTION_DELAY_SPREAD,
{
    (subsec_nanos as u64) % EXECUTION_DELAY_SPREAD + MIN_EXECUTION_DELAY_MS
}

} // verus!
