//! Rate limiting of `Move` events.
//!
//! High-report-rate mice deliver absolute moves far faster than the
//! controller wants them. The limiter forwards a move only when more
//! than `min_interval_ms` has passed since the last forwarded one,
//! dropping (never queueing) the rest; button events always pass.

use vstd::prelude::*;
use crate::events::RawMouseEvent;

verus! {

/// Default minimum spacing of forwarded `Move` events, in milliseconds.
pub const DEFAULT_MIN_INTERVAL_MS: i64 = 5;

/// The stateful move filter. `last_move_ms` is the timestamp of the
/// last forwarded move, or `None` before the first one.
#[derive(Clone, Copy, Debug, PartialEq, Eq, Structural)]
pub struct RateLimiter {
    pub min_interval_ms: i64,
    pub last_move_ms: Option<i64>,
}

impl RateLimiter {
    /// Timestamps are non-negative milliseconds; the interval too.
    pub open spec fn wf(self) -> bool {
        &&& self.min_interval_ms >= 0
        &&& match self.last_move_ms {
            Option::None => true,
            Option::Some(t) => t >= 0,
        }
    }

    /// Whether a move arriving at `now` is forwarded: always for the
    /// first one, afterwards only strictly beyond the interval.
    pub open spec fn forwards_move(self, now: int) -> bool {
        match self.last_move_ms {
            Option::None => true,
            Option::Some(t) => now - t > self.min_interval_ms,
        }
    }

    /// What one `offer` does: the limiter afterwards, and what it
    /// hands on. Button events pass untouched; a forwarded move
    /// records its timestamp; a suppressed one changes nothing.
    pub open spec fn offer_spec(self, e: RawMouseEvent, now: i64) -> (RateLimiter, Option<
        RawMouseEvent,
    >) {
        match e {
            RawMouseEvent::Move(_, _) => if self.forwards_move(now as int) {
                (RateLimiter { last_move_ms: Option::Some(now), ..self }, Option::Some(e))
            } else {
                (self, Option::None)
            },
            _ => (self, Option::Some(e)),
        }
    }

    /// A fresh limiter that has forwarded nothing yet.
    pub fn new(min_interval_ms: i64) -> (r: RateLimiter)
        requires
            min_interval_ms >= 0,
        ensures
            r == (RateLimiter { min_interval_ms, last_move_ms: Option::<i64>::None }),
            r.wf(),
    {
        RateLimiter { min_interval_ms, last_move_ms: None }
    }

    /// Offers `e`, arriving at time `now`, to the filter; returns the
    /// event if it is to be forwarded.
    pub fn offer(&mut self, e: RawMouseEvent, now: i64) -> (r: Option<RawMouseEvent>)
        requires
            old(self).wf(),
            now >= 0,
        ensures
            (*final(self), r) == old(self).offer_spec(e, now),
            final(self).wf(),
    {
        match e {
            RawMouseEvent::Move(_, _) => {
                let forward = match self.last_move_ms {
                    None => true,
                    Some(t) => now - t > self.min_interval_ms,
                };
                if forward {
                    self.last_move_ms = Some(now);
                    Some(e)
                } else {
                    None
                }
            },
            _ => Some(e),
        }
    }

    /// Offers `e` stamped with the wall clock now. The clock is outside
    /// the model, so all this promises is that the step is one `offer`
    /// at some non-negative time: button events still always pass, and
    /// a first move is still always forwarded.
    pub fn offer_now(&mut self, e: RawMouseEvent) -> (r: Option<RawMouseEvent>)
        requires
            old(self).wf(),
        ensures
            exists|t: i64| t >= 0 && (*final(self), r) == old(self).offer_spec(e, t),
            !(e is Move) ==> r == Option::Some(e) && *final(self) == *old(self),
            e is Move && old(self).last_move_ms is None ==> r == Option::Some(e),
            final(self).wf(),
    {
        let t = now_millis();
        let now: i64 = if t < 0 {
            0
        } else {
            t
        };
        self.offer(e, now)
    }
}

/// Law: a move after a quiet period - strictly more than the minimum
/// interval since the last forwarded move, or no forwarded move yet -
/// is always forwarded.
pub proof fn lemma_quiet_period_forwards(lim: RateLimiter, x: i64, y: i64, now: i64)
    requires
        lim.forwards_move(now as int),
    ensures
        lim.offer_spec(RawMouseEvent::Move(x, y), now).1 == Option::Some(
            RawMouseEvent::Move(x, y),
        ),
{
}

/// Law: button events pass the limiter unconditionally and leave its
/// state untouched.
pub proof fn lemma_buttons_always_pass(lim: RateLimiter, e: RawMouseEvent, now: i64)
    requires
        !(e is Move),
    ensures
        lim.offer_spec(e, now) == (lim, Option::Some(e)),
{
}

/// Relies on `std::time::SystemTime::now` and
/// `SystemTime::duration_since` for the wall-clock time in milliseconds
/// since the Unix epoch; a clock set before the epoch reads as 0, so
/// the body is total. Nothing is assumed of the value: the clock may
/// jump either way between calls.
#[verifier::external_body]
fn now_millis() -> i64 {
    match std::time::SystemTime::now().duration_since(std::time::UNIX_EPOCH) {
        Ok(since_epoch) => since_epoch.as_millis() as i64,
        Err(_) => 0,
    }
}

} // verus!
