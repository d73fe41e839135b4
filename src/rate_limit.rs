//! Minimum spacing between consecutive remote calls.
use vstd::prelude::*;

verus! {

/// One shared "last call" time and the spacing to keep after it. Times are
/// milliseconds on a monotonic clock.
#[derive(Clone, Copy, Debug)]
pub struct RateLimiter {
    pub delay_ms: u64,
    pub last_call_ms: Option<u64>,
}

/// How long a call at `now` must wait: the rest of the spacing after the
/// last call, or nothing when there was none or it is far enough back.
pub open spec fn wait_spec(delay: u64, last: Option<u64>, now: u64) -> nat {
    match last {
        None => 0,
        Some(t) => {
            let elapsed = if now >= t {
                now - t
            } else {
                0
            };
            if elapsed < delay {
                (delay - elapsed) as nat
            } else {
                0
            }
        },
    }
}

impl RateLimiter {
    pub fn new(delay_ms: u64) -> (r: RateLimiter)
        ensures
            r.delay_ms == delay_ms,
            r.last_call_ms is None,
    {
        RateLimiter { delay_ms, last_call_ms: None }
    }

    /// Called immediately before a remote call at time `now_ms`: returns how
    /// many milliseconds to sleep first, and records the moment the call goes
    /// out (`now_ms` plus that sleep, saturating).
    pub fn wait(&mut self, now_ms: u64) -> (r: u64)
        ensures
            r == wait_spec(old(self).delay_ms, old(self).last_call_ms, now_ms),
            final(self).delay_ms == old(self).delay_ms,
            final(self).last_call_ms == Some(
                if now_ms + r <= u64::MAX {
                    (now_ms + r) as u64
                } else {
                    u64::MAX
                },
            ),
    {
        let sleep = match self.last_call_ms {
            None => 0,
            Some(t) => {
                let elapsed = now_ms.saturating_sub(t);
                if elapsed < self.delay_ms {
                    self.delay_ms - elapsed
                } else {
                    0
                }
            },
        };
        self.last_call_ms = Some(now_ms.saturating_add(sleep));
        sleep
    }
}

/// Two calls that each waited as told go out at least the spacing apart
/// (when the clock has not saturated).
pub proof fn lemma_calls_spaced(delay: u64, last: Option<u64>, now1: u64, now2: u64)
    requires
        now1 + wait_spec(delay, last, now1) <= u64::MAX,
        now2 >= now1 + wait_spec(delay, last, now1),
        now2 + wait_spec(delay, Some((now1 + wait_spec(delay, last, now1)) as u64), now2) <= u64::MAX,
    ensures
        (now2 + wait_spec(delay, Some((now1 + wait_spec(delay, last, now1)) as u64), now2)) - (now1
            + wait_spec(delay, last, now1)) >= delay,
{
}

} // verus!
