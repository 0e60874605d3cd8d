use vstd::prelude::*;

verus! {

/// Nanoseconds in a second; also the length of a rate window.
pub const NANOS_PER_SECOND: u64 = 1_000_000_000;

/// Longest pause that the limiter asks for at once: one and a half seconds.
pub const MAX_DELAY_NANOS: u64 = 1_500_000_000;

/// Time between two published speed samples: half a second.
pub const SAMPLE_NANOS: u64 = 500_000_000;

/// Shortest span that a speed sample is taken over: a tenth of a second.
pub const MIN_SAMPLE_NANOS: u64 = 100_000_000;

/// Time that passed from `since` to `clock` on a clock that does not run backwards.
pub open spec fn elapsed_between(since: u64, clock: u64) -> u64 {
    if clock >= since {
        (clock - since) as u64
    } else {
        0
    }
}

/// Whole nanoseconds that `bytes` bytes take at `limit` bytes per second.
pub open spec fn projected_nanos(limit: u64, bytes: int) -> int
    recommends
        limit > 0,
{
    (bytes * NANOS_PER_SECOND) / (limit as int)
}

/// How long to wait before taking a chunk of `chunk_len` bytes, `elapsed` nanoseconds
/// into a window that has taken `window_bytes` bytes: with a limit, the time by which
/// the window and the chunk are ahead of the clock, at most [`MAX_DELAY_NANOS`];
/// without one (`limit` zero), nothing.
pub open spec fn throttle_nanos(limit: u64, window_bytes: u64, chunk_len: u64, elapsed: u64) -> u64 {
    if limit == 0 {
        0
    } else {
        let ahead = projected_nanos(limit, window_bytes + chunk_len) - elapsed;
        if ahead <= 0 {
            0
        } else if ahead > MAX_DELAY_NANOS {
            MAX_DELAY_NANOS
        } else {
            ahead as u64
        }
    }
}

/// Whether a window that is `elapsed` nanoseconds old is over.
pub open spec fn window_over(elapsed: u64) -> bool {
    elapsed >= NANOS_PER_SECOND
}

/// Whether a speed sample is due `elapsed` nanoseconds after the last one.
pub open spec fn sample_due(elapsed: u64) -> bool {
    elapsed >= SAMPLE_NANOS
}

/// Bytes per second for `delta_bytes` bytes in `elapsed` nanoseconds, taken over at
/// least [`MIN_SAMPLE_NANOS`] and cut off at the largest `u64`.
pub open spec fn speed_of(delta_bytes: u64, elapsed: u64) -> u64 {
    let span: int = if elapsed < MIN_SAMPLE_NANOS {
        MIN_SAMPLE_NANOS as int
    } else {
        elapsed as int
    };
    let rate = (delta_bytes * NANOS_PER_SECOND) / span;
    if rate > u64::MAX {
        u64::MAX
    } else {
        rate as u64
    }
}

/// A chunk that is let through after a pause below the longest one does not run ahead
/// of the limit: the bytes of the window, the chunk among them, are no more than the
/// limit allows for the age that the window has after the pause. A pause that was asked
/// for and is below the longest one ends exactly when the limit allows the chunk.
pub proof fn lemma_throttle_holds_the_limit(
    limit: u64,
    window_bytes: u64,
    chunk_len: u64,
    elapsed: u64,
)
    requires
        limit > 0,
    ensures
        ({
            let pause = throttle_nanos(limit, window_bytes, chunk_len, elapsed);
            let due = projected_nanos(limit, window_bytes + chunk_len);
            &&& pause <= MAX_DELAY_NANOS
            &&& pause < MAX_DELAY_NANOS ==> due <= elapsed + pause
            &&& 0 < pause < MAX_DELAY_NANOS ==> due == elapsed + pause
            &&& pause < MAX_DELAY_NANOS ==> (window_bytes + chunk_len) * NANOS_PER_SECOND < (elapsed
                + pause + 1) * limit
        }),
{
    let bytes: int = window_bytes + chunk_len;
    let due = projected_nanos(limit, bytes);
    let x: int = bytes * NANOS_PER_SECOND;
    let l: int = limit as int;
    assert(x < (x / l + 1) * l) by (nonlinear_arith)
        requires
            l > 0,
            x >= 0,
    ;
    let pause = throttle_nanos(limit, window_bytes, chunk_len, elapsed);
    if pause < MAX_DELAY_NANOS {
        let age: int = elapsed + pause;
        assert(due <= age);
        assert((due + 1) * l <= (age + 1) * l) by (nonlinear_arith)
            requires
                due <= age,
                l > 0,
        ;
    }
}

/// Computes [`elapsed_between`].
pub fn elapsed_since(since: u64, clock: u64) -> (r: u64)
    ensures
        r == elapsed_between(since, clock),
{
    if clock >= since {
        clock - since
    } else {
        0
    }
}

/// Computes [`throttle_nanos`].
pub fn throttle_delay(limit: u64, window_bytes: u64, chunk_len: u64, elapsed: u64) -> (r: u64)
    ensures
        r == throttle_nanos(limit, window_bytes, chunk_len, elapsed),
        r <= MAX_DELAY_NANOS,
{
    if limit == 0 {
        return 0;
    }
    let bytes: u128 = window_bytes as u128 + chunk_len as u128;
    let projected: u128 = bytes * 1_000_000_000u128 / (limit as u128);
    if projected <= elapsed as u128 {
        0
    } else {
        let ahead: u128 = projected - elapsed as u128;
        if ahead > 1_500_000_000u128 {
            MAX_DELAY_NANOS
        } else {
            ahead as u64
        }
    }
}

/// Computes [`speed_of`].
pub fn speed_sample(delta_bytes: u64, elapsed: u64) -> (r: u64)
    ensures
        r == speed_of(delta_bytes, elapsed),
{
    let span: u128 = if elapsed < MIN_SAMPLE_NANOS {
        MIN_SAMPLE_NANOS as u128
    } else {
        elapsed as u128
    };
    let rate: u128 = delta_bytes as u128 * 1_000_000_000u128 / span;
    if rate > 18_446_744_073_709_551_615u128 {
        u64::MAX
    } else {
        rate as u64
    }
}

} // verus!
