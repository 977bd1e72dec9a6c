//! Leaky-bucket throttle for the throughput of one transfer.
use vstd::prelude::*;

use crate::progress::MICROS_PER_SECOND;

verus! {

/// Rate a transfer gets when it names none, in KB/s.
pub const DEFAULT_RATE_KB: u64 = 50_000;

/// Longest pause the throttle asks for, in microseconds (one hour); a longer
/// one is skipped.
pub const MAX_PAUSE_MICROS: u64 = 3_600_000_000;

/// The throttle's state: bytes per second allowed, bytes received since the
/// window began, and the microsecond at which it began. Owned by one transfer.
pub struct RateBucket {
    pub rate: u64,
    pub accumulated: u64,
    pub window_start: u64,
}

/// The state of a throttle, over unbounded integers.
pub struct BucketModel {
    pub rate: int,
    pub accumulated: int,
    pub window_start: int,
}

impl View for RateBucket {
    type V = BucketModel;

    open spec fn view(&self) -> BucketModel {
        BucketModel {
            rate: self.rate as int,
            accumulated: self.accumulated as int,
            window_start: self.window_start as int,
        }
    }
}

/// Bytes per second allowed for a limit in KB/s: the default where none is
/// named, and at most `u64::MAX`.
pub open spec fn rate_for_limit(limit_kb: Option<u64>) -> int {
    let kb: int = match limit_kb {
        Some(k) => k as int,
        None => DEFAULT_RATE_KB as int,
    };
    if kb * 1024 > u64::MAX {
        u64::MAX as int
    } else {
        kb * 1024
    }
}

/// Microseconds from `start` to `now`; none where `now` comes first.
pub open spec fn elapsed_since(start: int, now: int) -> int {
    if now >= start {
        now - start
    } else {
        0
    }
}

/// By how much (in byte-microseconds) the window, with `n` more bytes at
/// `now`, is over the allowance `rate * elapsed`.
pub open spec fn excess(m: BucketModel, n: int, now: int) -> int {
    (m.accumulated + n) * MICROS_PER_SECOND - m.rate * elapsed_since(m.window_start, now)
}

/// The shortest whole number of microseconds that brings the window back to
/// the allowed rate.
pub open spec fn pause_needed(m: BucketModel, n: int, now: int) -> int {
    (excess(m, n, now) + m.rate - 1) / m.rate
}

/// Whether this step is over the allowance but its pause is skipped: no rate,
/// or a pause longer than an hour.
pub open spec fn clamps(m: BucketModel, n: int, now: int) -> bool {
    excess(m, n, now) > 0 && (m.rate == 0 || pause_needed(m, n, now) > MAX_PAUSE_MICROS)
}

/// The throttle after `n` bytes arrive at `now`, and the pause it asks for (0
/// for none). Under the allowance the bytes accumulate; over it the window
/// restarts empty, at the end of the pause (or at `now` where the pause is
/// skipped).
pub open spec fn consume_model(m: BucketModel, n: int, now: int) -> (BucketModel, int) {
    if excess(m, n, now) <= 0 {
        (BucketModel { accumulated: m.accumulated + n, ..m }, 0)
    } else if clamps(m, n, now) {
        (BucketModel { rate: m.rate, accumulated: 0, window_start: now }, 0)
    } else {
        let p = pause_needed(m, n, now);
        (BucketModel { rate: m.rate, accumulated: 0, window_start: now + p }, p)
    }
}

/// The length of a pause, 0 for none.
pub open spec fn pause_length(p: Option<u64>) -> int {
    match p {
        Some(v) => v as int,
        None => 0,
    }
}

impl RateBucket {
    /// An empty throttle whose window begins at `now`, for a limit in KB/s.
    pub fn new(rate_limit_kb: Option<u64>, now: u64) -> (r: RateBucket)
        ensures
            r.rate == rate_for_limit(rate_limit_kb),
            r.accumulated == 0,
            r.window_start == now,
    {
        let kb = match rate_limit_kb {
            Some(k) => k,
            None => DEFAULT_RATE_KB,
        };
        let rate = if kb > u64::MAX / 1024 {
            u64::MAX
        } else {
            kb * 1024
        };
        RateBucket { rate, accumulated: 0, window_start: now }
    }

    /// Takes in `n` bytes that arrived at `now`; returns how many
    /// microseconds to pause before reading on, if any.
    pub fn consume(&mut self, n: u64, now: u64) -> (pause: Option<u64>)
        requires
            old(self).accumulated + n <= u64::MAX,
            now <= u64::MAX - MAX_PAUSE_MICROS,
        ensures
            final(self)@ == consume_model(old(self)@, n as int, now as int).0,
            pause_length(pause) == consume_model(old(self)@, n as int, now as int).1,
            pause != Some(0u64),
    {
        let ghost m = self@;
        let acc = self.accumulated + n;
        let elapsed: u64 = if now >= self.window_start {
            now - self.window_start
        } else {
            0
        };
        assert((self.rate as int) * (elapsed as int) <= 0xffff_ffff_ffff_ffffint
            * 0xffff_ffff_ffff_ffffint) by (nonlinear_arith)
            requires
                self.rate <= 0xffff_ffff_ffff_ffffint,
                elapsed <= 0xffff_ffff_ffff_ffffint,
        ;
        let budget = (self.rate as u128) * (elapsed as u128);
        assert((acc as int) * 1_000_000 <= 0xffff_ffff_ffff_ffffint * 1_000_000)
            by (nonlinear_arith)
            requires
                acc <= 0xffff_ffff_ffff_ffffint,
        ;
        let want = (acc as u128) * (MICROS_PER_SECOND as u128);
        if want <= budget {
            self.accumulated = acc;
            return None;
        }
        let over = want - budget;
        if self.rate == 0 {
            self.accumulated = 0;
            self.window_start = now;
            return None;
        }
        let r = self.rate as u128;
        let q = over / r;
        let p = if over % r == 0 {
            q
        } else {
            assert(q < over) by (nonlinear_arith)
                requires
                    q == over / r,
                    r >= 1,
                    over % r != 0,
            ;
            q + 1
        };
        assert(p as int == (over as int + r as int - 1) / (r as int)) by (nonlinear_arith)
            requires
                r >= 1,
                q == over / r,
                over % r == 0 ==> p == q,
                over % r != 0 ==> p == q + 1,
        ;
        if p > MAX_PAUSE_MICROS as u128 {
            self.accumulated = 0;
            self.window_start = now;
            return None;
        }
        assert(p >= 1) by (nonlinear_arith)
            requires
                p as int == (over as int + r as int - 1) / (r as int),
                over >= 1,
                r >= 1,
        ;
        let pause = p as u64;
        self.accumulated = 0;
        self.window_start = now + pause;
        Some(pause)
    }
}

/// Where a run of chunks through a throttle ends up.
pub struct FeedOutcome {
    /// The throttle after the last chunk.
    pub bucket: BucketModel,
    /// The moment the last pause ends (or the last chunk arrived).
    pub ready: int,
    /// Microseconds paused in all.
    pub paused: int,
    /// Number of pauses.
    pub pauses: int,
    /// Whether some pause was skipped.
    pub clamped: bool,
}

/// Runs chunks through a throttle that is ready at `ready`. Each chunk is
/// `(bytes, wait)`: it arrives `wait` microseconds after the previous pause
/// ended, as it does for a reader that sleeps for each pause asked.
pub open spec fn feed(m: BucketModel, ready: int, chunks: Seq<(nat, nat)>) -> FeedOutcome
    decreases chunks.len(),
{
    if chunks.len() == 0 {
        FeedOutcome { bucket: m, ready, paused: 0, pauses: 0, clamped: false }
    } else {
        let n = chunks[0].0 as int;
        let now = ready + chunks[0].1;
        let (m2, p) = consume_model(m, n, now);
        let rest = feed(m2, now + p, chunks.drop_first());
        FeedOutcome {
            bucket: rest.bucket,
            ready: rest.ready,
            paused: p + rest.paused,
            pauses: (if p > 0 {
                1int
            } else {
                0int
            }) + rest.pauses,
            clamped: clamps(m, n, now) || rest.clamped,
        }
    }
}

/// The bytes of all chunks.
pub open spec fn total_bytes(chunks: Seq<(nat, nat)>) -> int
    decreases chunks.len(),
{
    if chunks.len() == 0 {
        0
    } else {
        chunks[0].0 + total_bytes(chunks.drop_first())
    }
}

proof fn lemma_pause_bounds(e: int, r: int, p: int)
    requires
        e > 0,
        r > 0,
        p == (e + r - 1) / r,
    ensures
        r * p >= e,
        r * (p - 1) < e,
        p >= 1,
{
    assert(r * p >= e && r * (p - 1) < e && p >= 1) by (nonlinear_arith)
        requires
            e > 0,
            r > 0,
            p == (e + r - 1) / r,
    ;
}

proof fn lemma_feed_floor(m: BucketModel, ready: int, start: int, consumed: int, chunks: Seq<(nat, nat)>)
    requires
        m.rate > 0,
        m.accumulated >= 0,
        m.window_start <= ready,
        m.rate * (m.window_start - start) >= (consumed - m.accumulated) * MICROS_PER_SECOND,
        m.accumulated * MICROS_PER_SECOND <= m.rate * (ready - m.window_start),
        !feed(m, ready, chunks).clamped,
    ensures
        m.rate * (feed(m, ready, chunks).ready - start) >= (consumed + total_bytes(chunks))
            * MICROS_PER_SECOND,
    decreases chunks.len(),
{
    let r = m.rate;
    if chunks.len() == 0 {
        assert(r * (ready - start) == r * (ready - m.window_start) + r * (m.window_start - start))
            by (nonlinear_arith);
    } else {
        let n = chunks[0].0 as int;
        let now = ready + chunks[0].1;
        let (m2, p) = consume_model(m, n, now);
        let el = now - m.window_start;
        assert(elapsed_since(m.window_start, now) == el);
        if excess(m, n, now) <= 0 {
            assert(m2.rate * (m2.window_start - start) >= (consumed + n - m2.accumulated)
                * MICROS_PER_SECOND);
            lemma_feed_floor(m2, now, start, consumed + n, chunks.drop_first());
        } else {
            lemma_pause_bounds(excess(m, n, now), r, p);
            assert(r * (now + p - start) == r * el + r * p + r * (m.window_start - start))
                by (nonlinear_arith)
                requires
                    el == now - m.window_start,
            ;
            lemma_feed_floor(m2, now + p, start, consumed + n, chunks.drop_first());
        }
    }
}

/// A throttled transfer takes at least as long as its limit asks: for every
/// run of chunks through a fresh throttle of `rate` bytes per second in which
/// no pause was skipped, the last pause ends no earlier than
/// `total / rate` seconds after the start.
pub proof fn lemma_throttle_floor(rate: nat, start: int, chunks: Seq<(nat, nat)>)
    requires
        rate > 0,
        !feed(BucketModel { rate: rate as int, accumulated: 0, window_start: start }, start, chunks).clamped,
    ensures
        rate * (feed(BucketModel { rate: rate as int, accumulated: 0, window_start: start }, start, chunks).ready - start)
            >= total_bytes(chunks) * MICROS_PER_SECOND,
{
    let m = BucketModel { rate: rate as int, accumulated: 0, window_start: start };
    assert(m.rate * (m.window_start - start) == 0) by (nonlinear_arith)
        requires
            m.window_start == start,
    ;
    assert(m.rate * (start - m.window_start) == 0) by (nonlinear_arith)
        requires
            m.window_start == start,
    ;
    lemma_feed_floor(m, start, start, 0, chunks);
}

proof fn lemma_feed_ceiling(m: BucketModel, ready: int, chunks: Seq<(nat, nat)>)
    requires
        m.rate > 0,
        m.accumulated >= 0,
        m.window_start <= ready,
    ensures
        m.rate * (feed(m, ready, chunks).paused - feed(m, ready, chunks).pauses)
            + feed(m, ready, chunks).bucket.accumulated * MICROS_PER_SECOND <= (m.accumulated
            + total_bytes(chunks)) * MICROS_PER_SECOND,
    decreases chunks.len(),
{
    let r = m.rate;
    if chunks.len() == 0 {
        assert(r * (0int - 0int) == 0) by (nonlinear_arith);
    } else {
        let n = chunks[0].0 as int;
        let now = ready + chunks[0].1;
        let (m2, p) = consume_model(m, n, now);
        let rest = feed(m2, now + p, chunks.drop_first());
        lemma_feed_ceiling(m2, now + p, chunks.drop_first());
        let f = feed(m, ready, chunks);
        assert(elapsed_since(m.window_start, now) >= 0);
        assert(r * elapsed_since(m.window_start, now) >= 0) by (nonlinear_arith)
            requires
                r > 0,
                elapsed_since(m.window_start, now) >= 0,
        ;
        if excess(m, n, now) > 0 && !clamps(m, n, now) {
            lemma_pause_bounds(excess(m, n, now), r, p);
            assert(r * (f.paused - f.pauses) == r * (p - 1) + r * (rest.paused - rest.pauses))
                by (nonlinear_arith)
                requires
                    f.paused == p + rest.paused,
                    f.pauses == 1 + rest.pauses,
            ;
        } else {
            assert(r * (f.paused - f.pauses) == r * (rest.paused - rest.pauses))
                by (nonlinear_arith)
                requires
                    f.paused == rest.paused,
                    f.pauses == rest.pauses,
            ;
        }
    }
}

/// Throttling never holds a transfer back for longer than its limit asks:
/// over every run of chunks through a fresh throttle of `rate` bytes per
/// second, the pauses add up to at most `total / rate` seconds, beyond the
/// rounding of each pause up to a whole microsecond.
pub proof fn lemma_throttle_ceiling(rate: nat, start: int, chunks: Seq<(nat, nat)>)
    requires
        rate > 0,
    ensures
        rate * (feed(BucketModel { rate: rate as int, accumulated: 0, window_start: start }, start, chunks).paused
            - feed(BucketModel { rate: rate as int, accumulated: 0, window_start: start }, start, chunks).pauses)
            <= total_bytes(chunks) * MICROS_PER_SECOND,
{
    let m = BucketModel { rate: rate as int, accumulated: 0, window_start: start };
    lemma_feed_ceiling(m, start, chunks);
    assert(feed(m, start, chunks).bucket.accumulated >= 0) by {
        lemma_feed_keeps_nonnegative(m, start, chunks);
    }
}

proof fn lemma_feed_keeps_nonnegative(m: BucketModel, ready: int, chunks: Seq<(nat, nat)>)
    requires
        m.accumulated >= 0,
    ensures
        feed(m, ready, chunks).bucket.accumulated >= 0,
    decreases chunks.len(),
{
    if chunks.len() > 0 {
        let n = chunks[0].0 as int;
        let now = ready + chunks[0].1;
        let (m2, p) = consume_model(m, n, now);
        lemma_feed_keeps_nonnegative(m2, now + p, chunks.drop_first());
    }
}

} // verus!
