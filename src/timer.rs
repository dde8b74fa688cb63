//! Stage timing for one trade: each stage's name and how long it ran.
use std::time::{Duration, Instant};
use vstd::prelude::*;

verus! {

#[verifier::external_type_specification]
#[verifier::external_body]
pub struct ExInstant(Instant);

/// Relies on `Instant::now`: a reading of the monotonic clock.
#[verifier::external_body]
fn instant_now() -> (r: Instant) {
    Instant::now()
}

/// Relies on `Instant::elapsed`: the time since `t` on the monotonic clock.
#[verifier::external_body]
fn elapsed_since(t: &Instant) -> (r: Duration) {
    t.elapsed()
}

/// Times the stages of a trade; the current stage started at `start_time`.
pub struct TradeTimer {
    pub start_time: Instant,
    pub stage: String,
}

impl TradeTimer {
    /// Starts timing the stage `stage`.
    pub fn new(stage: String) -> (r: Self)
        ensures
            r.stage == stage,
    {
        TradeTimer { start_time: instant_now(), stage }
    }

    /// Ends the current stage and starts `new_stage`; returns the name of the
    /// stage that ended and how long it ran.
    pub fn stage(&mut self, new_stage: String) -> (r: (String, Duration))
        ensures
            r.0 == old(self).stage,
            final(self).stage == new_stage,
    {
        let took = elapsed_since(&self.start_time);
        self.start_time = instant_now();
        let mut ended = new_stage;
        std::mem::swap(&mut self.stage, &mut ended);
        (ended, took)
    }

    /// Ends timing; returns the last stage's name and how long it ran.
    pub fn finish(self) -> (r: (String, Duration))
        ensures
            r.0 == self.stage,
    {
        let took = elapsed_since(&self.start_time);
        (self.stage, took)
    }

    /// How long the current stage has run so far.
    pub fn elapsed(&self) -> Duration {
        elapsed_since(&self.start_time)
    }
}

} // verus!
