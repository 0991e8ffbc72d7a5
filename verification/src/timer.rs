//! The focus-session countdown: start/pause, reset, and wall-clock ticks
//! with drift correction in whole seconds.

use vstd::prelude::*;

verus! {

/// Length of a focus session in seconds.
pub const DEFAULT_SESSION_SECS: i64 = 25 * 60;

/// The countdown state: whether it is running, the configured session
/// length, the seconds left, and the wall-clock anchor of the last tick.
pub struct FocusState {
    pub is_running: bool,
    pub duration_sec: i64,
    pub remaining_sec: i64,
    pub last_tick: Option<i64>,
}

/// What one scheduler tick does at wall-clock second `now`: nothing when
/// paused; anchor when running without an anchor; otherwise subtract the
/// whole seconds elapsed since the anchor, floored at zero, stopping the
/// session when the elapsed time exceeds what remained. An elapsed time
/// under one second changes nothing.
pub open spec fn spec_tick(s: FocusState, now: i64) -> FocusState {
    if !s.is_running {
        s
    } else {
        match s.last_tick {
            None => FocusState { last_tick: Some(now), ..s },
            Some(last) => {
                let elapsed = now - last;
                if elapsed <= 0 {
                    s
                } else if elapsed <= s.remaining_sec {
                    FocusState {
                        remaining_sec: (s.remaining_sec - elapsed) as i64,
                        last_tick: Some(now),
                        ..s
                    }
                } else {
                    FocusState { remaining_sec: 0, is_running: false, last_tick: Some(now), ..s }
                }
            },
        }
    }
}

impl FocusState {
    /// Timer invariant: the seconds left never leave `[0, duration]`.
    pub open spec fn inv(&self) -> bool {
        0 <= self.remaining_sec <= self.duration_sec
    }

    /// A paused timer holding a full default session.
    pub fn default() -> (r: FocusState)
        ensures
            r == (FocusState {
                is_running: false,
                duration_sec: DEFAULT_SESSION_SECS as i64,
                remaining_sec: DEFAULT_SESSION_SECS as i64,
                last_tick: None::<i64>,
            }),
            r.inv(),
    {
        FocusState {
            is_running: false,
            duration_sec: DEFAULT_SESSION_SECS,
            remaining_sec: DEFAULT_SESSION_SECS,
            last_tick: None,
        }
    }

    /// Flips between running and paused at wall-clock second `now`: starting
    /// anchors the tick clock there, pausing drops the anchor.
    pub fn toggle_at(&mut self, now: i64)
        requires
            old(self).inv(),
        ensures
            final(self).inv(),
            final(self).is_running == !old(self).is_running,
            final(self).duration_sec == old(self).duration_sec,
            final(self).remaining_sec == old(self).remaining_sec,
            final(self).last_tick == if final(self).is_running {
                Some(now)
            } else {
                None::<i64>
            },
    {
        self.is_running = !self.is_running;
        if self.is_running {
            self.last_tick = Some(now);
        } else {
            self.last_tick = None;
        }
    }

    /// Stops the timer and restores the full session.
    pub fn reset(&mut self)
        requires
            old(self).inv(),
        ensures
            final(self).inv(),
            final(self).is_running == false,
            final(self).duration_sec == old(self).duration_sec,
            final(self).remaining_sec == final(self).duration_sec,
            final(self).last_tick is None,
    {
        self.is_running = false;
        self.remaining_sec = self.duration_sec;
        self.last_tick = None;
    }

    /// Advances the countdown to wall-clock second `now`.
    pub fn tick_at(&mut self, now: i64)
        requires
            old(self).inv(),
        ensures
            final(self).inv(),
            *final(self) == spec_tick(*old(self), now),
    {
        if self.is_running {
            match self.last_tick {
                Some(last) => {
                    match now.checked_sub(last) {
                        Some(delta) => {
                            if delta > 0 {
                                if self.remaining_sec >= delta {
                                    self.remaining_sec = self.remaining_sec - delta;
                                } else {
                                    self.remaining_sec = 0;
                                    self.is_running = false;
                                }
                                self.last_tick = Some(now);
                            }
                        },
                        None => {
                            // elapsed time beyond the range of i64
                            if now > last {
                                self.remaining_sec = 0;
                                self.is_running = false;
                                self.last_tick = Some(now);
                            }
                        },
                    }
                },
                None => {
                    self.last_tick = Some(now);
                },
            }
        }
    }
}

/// A tick with less than one whole second elapsed since the anchor changes
/// nothing, and a tick of a paused timer changes nothing.
pub proof fn lemma_tick_subsecond(s: FocusState, now: i64)
    ensures
        !s.is_running ==> spec_tick(s, now) == s,
        s.is_running && (s.last_tick matches Some(last) && now - last <= 0) ==> spec_tick(s, now)
            == s,
{
}

} // verus!
