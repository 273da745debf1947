//! How long to wait before a connection is made again.
//!
//! The delay after the first failure is the base delay; it doubles with each
//! further failure in a row and stops growing at the largest delay.

use crate::random::random_below;
use vstd::arithmetic::power2::{
    lemma2_to64, lemma_pow2_strictly_increases, lemma_pow2_unfold, pow2,
};
use vstd::prelude::*;

verus! {

/// The delay after the first failure, in milliseconds.
pub const BASE_DELAY_MS: u64 = 1000;

/// The largest delay, in milliseconds.
pub const MAX_DELAY_MS: u64 = 60000;

/// The failures in a row after which the next one ends the client.
pub const MAX_RETRIES: u32 = 100;

/// The count of failures in a row, with the bounds that delays and the count
/// are held to. Delays are in milliseconds.
#[derive(Clone, Copy, Debug, PartialEq, Eq, Structural)]
pub struct BackoffState {
    pub retry_count: u32,
    pub base_delay: u64,
    pub max_delay: u64,
    pub max_retries: u32,
}

/// The doublings that the delay has gone through at the given count of
/// failures.
pub open spec fn doublings(retry_count: nat) -> nat {
    if retry_count >= 1 {
        (retry_count - 1) as nat
    } else {
        0
    }
}

/// The delay without jitter: the smaller of `base * 2^(retry_count - 1)` and
/// `max`.
pub open spec fn delay_for(base: int, max: int, retry_count: nat) -> int {
    if base * pow2(doublings(retry_count)) <= max {
        base * pow2(doublings(retry_count))
    } else {
        max
    }
}

/// The width of the range that jitter draws from: a quarter of the delay to
/// either side.
pub open spec fn jitter_span(delay: int) -> int {
    2 * (delay / 4)
}

/// The draw is one that jitter takes: a number from 0 up to, but not
/// including, [`jitter_span`], and 0 alone where the span is empty.
pub open spec fn draw_fits(delay: int, draw: int) -> bool {
    0 <= draw && (draw < jitter_span(delay) || draw == 0)
}

/// The delay with jitter, for a draw that fits: from three quarters of the
/// delay up to, but not including, five quarters of it, and no more than a
/// delay can hold.
pub open spec fn jittered(delay: int, draw: int) -> int {
    if delay - delay / 4 + draw <= u64::MAX {
        delay - delay / 4 + draw
    } else {
        u64::MAX as int
    }
}

impl BackoffState {
    /// No failure yet, and the bounds of this crate: one second, one minute,
    /// a hundred retries.
    pub fn new() -> (state: Self)
        ensures
            state == (BackoffState {
                retry_count: 0,
                base_delay: BASE_DELAY_MS,
                max_delay: MAX_DELAY_MS,
                max_retries: MAX_RETRIES,
            }),
    {
        BackoffState {
            retry_count: 0,
            base_delay: BASE_DELAY_MS,
            max_delay: MAX_DELAY_MS,
            max_retries: MAX_RETRIES,
        }
    }

    /// The delay without jitter at the present count.
    pub open spec fn delay_spec(&self) -> int {
        delay_for(self.base_delay as int, self.max_delay as int, self.retry_count as nat)
    }

    /// More failures in a row than retries are allowed.
    pub open spec fn exhausted(&self) -> bool {
        self.retry_count > self.max_retries
    }

    /// The state after one more failure. The count stops at the largest
    /// number that it can hold.
    pub open spec fn failed(self) -> BackoffState {
        BackoffState {
            retry_count: if self.retry_count < u32::MAX {
                (self.retry_count + 1) as u32
            } else {
                self.retry_count
            },
            ..self
        }
    }

    /// The state after a success.
    pub open spec fn succeeded(self) -> BackoffState {
        BackoffState { retry_count: 0, ..self }
    }

    pub fn is_exhausted(&self) -> (yes: bool)
        ensures
            yes == self.exhausted(),
    {
        self.retry_count > self.max_retries
    }

    /// Counts a success: the next failure is a first one again.
    pub fn reset(&mut self)
        ensures
            *final(self) == old(self).succeeded(),
    {
        self.retry_count = 0;
    }

    /// Counts a failure.
    pub fn record_failure(&mut self)
        ensures
            *final(self) == old(self).failed(),
    {
        if self.retry_count < u32::MAX {
            self.retry_count = self.retry_count + 1;
        }
    }

    /// The delay without jitter at the present count.
    pub fn delay(&self) -> (ms: u64)
        ensures
            ms == self.delay_spec(),
            ms <= self.max_delay,
    {
        let base: u64 = self.base_delay;
        let max: u64 = self.max_delay;
        proof {
            lemma2_to64();
        }
        if base == 0 {
            assert(0 * pow2(doublings(self.retry_count as nat)) == 0) by (nonlinear_arith);
            return 0;
        }
        let mut ms: u64 = if base <= max {
            base
        } else {
            max
        };
        let mut count: u32 = 1;
        assert(base * pow2(0) == base) by (nonlinear_arith)
            requires
                pow2(0) == 1,
        ;
        while count < self.retry_count && ms < max
            invariant
                1 <= count,
                count <= self.retry_count || count == 1,
                base == self.base_delay,
                max == self.max_delay,
                ms == delay_for(base as int, max as int, count as nat),
                ms <= max,
            decreases self.retry_count - count,
        {
            proof {
                lemma_delay_doubles(base as int, max as int, count as nat);
            }
            ms = if ms > max - ms {
                max
            } else {
                2 * ms
            };
            count = count + 1;
        }
        proof {
            if count < self.retry_count {
                lemma_delay_stays(
                    base as int,
                    max as int,
                    count as nat,
                    self.retry_count as nat,
                );
            }
        }
        ms
    }

    /// The delay with jitter for a given draw.
    pub fn delay_with_jitter(delay: u64, draw: u64) -> (ms: u64)
        requires
            draw_fits(delay as int, draw as int),
        ensures
            ms == jittered(delay as int, draw as int),
            delay - delay / 4 <= ms <= delay + delay / 4,
            delay >= 4 ==> ms < delay + delay / 4,
    {
        let low: u64 = delay - delay / 4;
        if draw > u64::MAX - low {
            u64::MAX
        } else {
            low + draw
        }
    }

    /// The delay with jitter: a point drawn at random from the range that
    /// reaches a quarter of the delay to either side, its upper end left out.
    /// A delay of less than four milliseconds is too short for jitter and
    /// stays as it is.
    pub fn jitter(delay: u64) -> (ms: u64)
        ensures
            exists|draw: int| draw_fits(delay as int, draw) && ms == jittered(delay as int, draw),
            delay - delay / 4 <= ms <= delay + delay / 4,
            delay >= 4 ==> ms < delay + delay / 4,
            delay < 4 ==> ms == delay,
    {
        let span: u64 = 2 * (delay / 4);
        let draw: u64 = if span > 0 {
            random_below(span)
        } else {
            0
        };
        let ms = BackoffState::delay_with_jitter(delay, draw);
        assert(draw_fits(delay as int, draw as int) && ms == jittered(delay as int, draw as int));
        ms
    }
}

/// One more failure doubles the delay, up to the largest.
pub proof fn lemma_delay_doubles(base: int, max: int, retry_count: nat)
    requires
        0 <= base,
        0 <= max,
        retry_count >= 1,
    ensures
        delay_for(base, max, retry_count + 1) == if 2 * delay_for(base, max, retry_count) <= max {
            2 * delay_for(base, max, retry_count)
        } else {
            max
        },
{
    let before = pow2(doublings(retry_count));
    lemma_pow2_unfold(retry_count);
    assert(pow2(doublings(retry_count + 1)) == 2 * before);
    assert(base * (2 * before) == 2 * (base * before)) by (nonlinear_arith);
}

/// A delay that has reached the largest stays there.
pub proof fn lemma_delay_stays(base: int, max: int, earlier: nat, later: nat)
    requires
        0 <= base,
        1 <= earlier <= later,
        delay_for(base, max, earlier) == max,
    ensures
        delay_for(base, max, later) == max,
{
    if earlier < later {
        lemma_pow2_strictly_increases(doublings(earlier), doublings(later));
        let small = pow2(doublings(earlier));
        let large = pow2(doublings(later));
        assert(base * small <= base * large) by (nonlinear_arith)
            requires
                0 <= base,
                small <= large,
        ;
    }
}

/// The delay is never negative and never above the largest.
pub proof fn lemma_delay_bounded(base: int, max: int, retry_count: nat)
    requires
        0 <= base,
        0 <= max,
    ensures
        0 <= delay_for(base, max, retry_count) <= max,
{
    assert(0 <= base * pow2(doublings(retry_count))) by (nonlinear_arith)
        requires
            0 <= base,
    ;
}

/// With the bounds of this crate the delays run 1, 2, 4, 8, 16 and 32
/// seconds, and one minute from the seventh failure on.
pub proof fn lemma_default_delays(retry_count: nat)
    requires
        retry_count >= 1,
    ensures
        retry_count == 1 ==> delay_for(BASE_DELAY_MS as int, MAX_DELAY_MS as int, retry_count)
            == 1000,
        retry_count == 2 ==> delay_for(BASE_DELAY_MS as int, MAX_DELAY_MS as int, retry_count)
            == 2000,
        retry_count == 3 ==> delay_for(BASE_DELAY_MS as int, MAX_DELAY_MS as int, retry_count)
            == 4000,
        retry_count == 4 ==> delay_for(BASE_DELAY_MS as int, MAX_DELAY_MS as int, retry_count)
            == 8000,
        retry_count == 5 ==> delay_for(BASE_DELAY_MS as int, MAX_DELAY_MS as int, retry_count)
            == 16000,
        retry_count == 6 ==> delay_for(BASE_DELAY_MS as int, MAX_DELAY_MS as int, retry_count)
            == 32000,
        retry_count >= 7 ==> delay_for(BASE_DELAY_MS as int, MAX_DELAY_MS as int, retry_count)
            == 60000,
        delay_for(BASE_DELAY_MS as int, MAX_DELAY_MS as int, retry_count) <= MAX_DELAY_MS,
{
    lemma2_to64();
    if retry_count >= 7 {
        assert(delay_for(1000, 60000, 7) == 60000);
        lemma_delay_stays(1000, 60000, 7, retry_count);
    }
}

} // verus!
