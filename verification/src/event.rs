use vstd::prelude::*;
use crate::errors::HandlerError;

verus! {

/// Saturating addition on the clock: a target pushed past the end of the
/// representable range stays at the maximum instant.
pub open spec fn sat_add(a: u64, b: u64) -> u64 {
    if a + b > u64::MAX {
        u64::MAX
    } else {
        (a + b) as u64
    }
}

/// Per-task trigger state. All instants are read from one monotonic clock
/// and counted in integer clock units from the clock's origin; durations
/// are non-negative counts of the same unit.
pub struct Event {
    /// Instant at which the task becomes eligible to run.
    pub target_instant: u64,
    /// Set by a handler to request another run of the same handler; the
    /// task clears it before each handler invocation.
    pub repeat: bool,
    /// While present, the instant at which the event was paused; a paused
    /// event is never eligible.
    pub pause_time: Option<u64>,
    /// Set by a handler tree to signal that the current handler is done.
    pub expired: bool,
}

impl Event {
    /// The state of a freshly created event: eligible from the clock's
    /// origin onward, repeating, not paused, not expired.
    pub open spec fn initial() -> Event {
        Event { target_instant: 0, repeat: true, pause_time: None, expired: false }
    }

    /// Eligibility: not paused, and at or past the target instant.
    pub open spec fn spec_should_run(self, now: u64) -> bool {
        self.pause_time is None && self.target_instant <= now
    }

    /// The event after `delay(duration)`.
    pub open spec fn delayed(self, duration: u64) -> Event {
        Event { target_instant: sat_add(self.target_instant, duration), ..self }
    }

    /// The event after `reschedule(delay)`: delayed and set to repeat.
    pub open spec fn rescheduled(self, delay: u64) -> Event {
        Event { repeat: true, ..self.delayed(delay) }
    }

    /// The event after `pause(now)`.
    pub open spec fn paused(self, now: u64) -> Event {
        if self.pause_time is None {
            Event { pause_time: Some(now), ..self }
        } else {
            self
        }
    }

    /// The event after `resume(now)`: the target is pushed forward by the
    /// time spent paused, and the pause mark is cleared.
    pub open spec fn resumed(self, now: u64) -> Event {
        match self.pause_time {
            Option::Some(t) => Event {
                target_instant: sat_add(
                    self.target_instant,
                    if now >= t {
                        (now - t) as u64
                    } else {
                        0
                    },
                ),
                pause_time: None,
                ..self
            },
            Option::None => self,
        }
    }

    /// Create a new, empty default event.
    pub fn new() -> (r: Event)
        ensures
            r == Event::initial(),
    {
        Event { target_instant: 0, repeat: true, pause_time: None, expired: false }
    }

    /// Check if the event is scheduled to run at `now`.
    pub fn should_run(&self, now: u64) -> (r: bool)
        ensures
            r == self.spec_should_run(now),
    {
        self.pause_time.is_none() && self.target_instant <= now
    }

    /// Mark the event expired; the containing unit advances or terminates.
    pub fn expire(&mut self)
        ensures
            *final(self) == (Event { expired: true, ..*old(self) }),
    {
        self.expired = true;
    }

    /// Request another run of the same handler on a subsequent pass.
    pub fn repeat(&mut self)
        ensures
            *final(self) == (Event { repeat: true, ..*old(self) }),
    {
        self.repeat = true;
    }

    /// Request another run and return success, so the call can stand as
    /// the last expression of a handler.
    pub fn repeated(&mut self) -> (r: Result<(), HandlerError>)
        ensures
            *final(self) == (Event { repeat: true, ..*old(self) }),
            r is Ok,
    {
        self.repeat = true;
        Ok(())
    }

    /// Push the target instant forward by `duration`.
    pub fn delay(&mut self, duration: u64)
        ensures
            *final(self) == old(self).delayed(duration),
    {
        if duration > u64::MAX - self.target_instant {
            self.target_instant = u64::MAX;
        } else {
            self.target_instant = self.target_instant + duration;
        }
    }

    /// Delay and repeat in one step. Returns success so it can stand as the
    /// last expression of a handler.
    pub fn reschedule(&mut self, delay: u64) -> (r: Result<(), HandlerError>)
        ensures
            *final(self) == old(self).rescheduled(delay),
            r is Ok,
    {
        self.delay(delay);
        self.repeat();
        Ok(())
    }

    /// Pause the event: record `now` unless already paused. The time spent
    /// paused is added to the target instant upon resume.
    pub fn pause(&mut self, now: u64)
        ensures
            *final(self) == old(self).paused(now),
    {
        if self.pause_time.is_none() {
            self.pause_time = Some(now);
        }
    }

    /// Resume the event: push the target instant forward by the time spent
    /// paused and clear the pause mark.
    pub fn resume(&mut self, now: u64)
        ensures
            *final(self) == old(self).resumed(now),
    {
        match self.pause_time {
            Some(t) => {
                let elapsed: u64 = if now >= t {
                    now - t
                } else {
                    0
                };
                self.delay(elapsed);
                self.pause_time = None;
            },
            None => {},
        }
    }
}

impl Default for Event {
    /// A default event is a freshly created one.
    fn default() -> (r: Event)
        ensures
            r == Event::initial(),
    {
        Event::new()
    }
}

} // verus!
