//! Frame timing: a tick carries the time it was taken, the time some work
//! is scheduled for, and the span since the previous tick, all in
//! milliseconds. Only reading the clock is outside work; everything else
//! is plain arithmetic.

use vstd::prelude::*;

verus! {

/// Relies on `std::time::SystemTime::now` and `duration_since` the UNIX
/// epoch: a millisecond reading of the wall clock, about which nothing is
/// promised (the clock may jump either way).
#[verifier::external_body]
fn now_millis() -> (r: u64)
{
    match std::time::SystemTime::now().duration_since(std::time::UNIX_EPOCH) {
        Ok(d) => d.as_millis() as u64,
        Err(_) => 0,
    }
}

/// One reading of the frame clock, in milliseconds.
#[derive(Clone, Copy, PartialEq, Eq, Structural, Debug)]
pub struct Tick {
    pub scheduled_time: u64,
    pub current_time: u64,
    pub delta: u64,
}

impl Tick {
    /// A tick taken now: nothing scheduled beyond it, no span behind it.
    pub fn now() -> (r: Tick)
        ensures
            r.scheduled_time == r.current_time,
            r.delta == 0,
    {
        let t = now_millis();
        Tick { scheduled_time: t, current_time: t, delta: 0 }
    }

    /// A fresh reading that keeps the schedule and measures the span since
    /// this tick (zero where the clock went backward).
    pub fn tick(&self) -> (r: Tick)
        ensures
            r.scheduled_time == self.scheduled_time,
            r.delta == (if r.current_time >= self.current_time {
                r.current_time - self.current_time
            } else {
                0
            }),
    {
        let current_time = now_millis();
        let delta = if current_time >= self.current_time {
            current_time - self.current_time
        } else {
            0
        };
        Tick { scheduled_time: self.scheduled_time, current_time, delta }
    }

    /// The same tick, rescheduled to the given time.
    pub fn schedule(&self, scheduled_time: u64) -> (r: Tick)
        ensures
            r.scheduled_time == scheduled_time,
            r.current_time == self.current_time,
            r.delta == self.delta,
    {
        Tick { scheduled_time, current_time: self.current_time, delta: self.delta }
    }

    /// The same tick, rescheduled to the given span past the present
    /// moment (saturating at the clock's limit).
    pub fn schedule_milis(&self, millis: u64) -> (r: Tick)
        ensures
            r.current_time == self.current_time,
            r.delta == self.delta,
    {
        let t = now_millis();
        let target = if t <= u64::MAX - millis {
            t + millis
        } else {
            u64::MAX
        };
        self.schedule(target)
    }

    /// Whether the scheduled time has been reached.
    pub fn is_scheduled(&self) -> (r: bool)
        ensures
            r == (self.current_time >= self.scheduled_time),
    {
        self.current_time >= self.scheduled_time
    }
}

/// Something the frame loop drives once per tick.
pub trait Tickable {
    fn tick(&mut self, tick: &Tick) {
    }
}

} // verus!
