//! The round clock readout: `Elapsed: MM:SS` while the countdown is off,
//! `Remaining: MM:SS` once it runs, with the tick cue of the final five
//! seconds.
use vstd::prelude::*;
use vstd::arithmetic::div_mod::lemma_fundamental_div_mod;
use vstd::string::StringExecFns;

use crate::goals::Countdown;
use crate::text::{push_pad2, spec_pad2};

verus! {

/// Rendering of the clock line, e.g. `Remaining: 00:07`.
pub open spec fn spec_timer_text(mins: int, secs: int, is_countdown: bool) -> Seq<char> {
    (if is_countdown {
        "Remaining"@
    } else {
        "Elapsed"@
    }) + ": "@ + spec_pad2(mins) + ":"@ + spec_pad2(secs)
}

/// Minutes shown on the clock for a countdown state and a whole-second
/// reading of the round clock.
pub open spec fn spec_timer_mins(cd: Countdown, round_secs: int) -> int {
    match cd {
        Countdown::Inactive => round_secs / 60,
        Countdown::Active { end_ms, .. } => spec_remaining_ms(end_ms as int, round_secs) / 60000,
    }
}

/// Seconds shown on the clock.
pub open spec fn spec_timer_secs(cd: Countdown, round_secs: int) -> int {
    match cd {
        Countdown::Inactive => round_secs % 60,
        Countdown::Active { end_ms, .. } => (spec_remaining_ms(end_ms as int, round_secs) % 60000)
            / 1000,
    }
}

/// Time left to the deadline from a whole-second reading, floored at zero.
pub open spec fn spec_remaining_ms(end_ms: int, round_secs: int) -> int {
    if end_ms > round_secs * 1000 {
        end_ms - round_secs * 1000
    } else {
        0
    }
}

/// State of the clock readout: the last whole second it showed, so the
/// text changes only on integer-second boundaries.
#[derive(Clone, Copy, Debug, PartialEq, Eq, Structural)]
pub struct TimerDisplay {
    pub last_secs: u64,
}

impl TimerDisplay {
    /// A readout that has shown the round's zeroth second.
    pub fn new() -> (r: Self)
        ensures
            r.last_secs == 0,
    {
        TimerDisplay { last_secs: 0 }
    }

    /// Renders one clock line.
    pub fn display_text(mins: u64, secs: u64, is_countdown: bool) -> (r: String)
        ensures
            r@ == spec_timer_text(mins as int, secs as int, is_countdown),
    {
        let mut s = if is_countdown {
            String::from_str("Remaining")
        } else {
            String::from_str("Elapsed")
        };
        s.append(": ");
        push_pad2(&mut s, mins as u128);
        s.append(":");
        push_pad2(&mut s, secs as u128);
        proof {
            assert(s@ =~= spec_timer_text(mins as int, secs as int, is_countdown));
        }
        s
    }

    /// One tick of the clock readout. When the round clock has crossed an
    /// integer-second boundary since the last shown second, returns the new
    /// clock line and whether the countdown tick cue should play (countdown
    /// running, and between one and five seconds shown); otherwise nothing
    /// changes.
    pub fn update_system(&mut self, countdown: &Countdown, elapsed_ms: u64) -> (r: Option<
        (String, bool),
    >)
        ensures
            elapsed_ms as int / 1000 <= old(self).last_secs ==> r is None && *final(self) == *old(
                self,
            ),
            elapsed_ms as int / 1000 > old(self).last_secs ==> {
                &&& final(self).last_secs == elapsed_ms as int / 1000
                &&& r matches Some((text, tick))
                &&& text@ == spec_timer_text(
                    spec_timer_mins(*countdown, elapsed_ms as int / 1000),
                    spec_timer_secs(*countdown, elapsed_ms as int / 1000),
                    *countdown is Active,
                )
                &&& tick == (*countdown is Active && 0 < spec_timer_secs(
                    *countdown,
                    elapsed_ms as int / 1000,
                ) <= 5)
            },
    {
        let round_secs = elapsed_ms / 1000;
        if round_secs <= self.last_secs {
            return None;
        }
        let (mins, secs, is_countdown) = match *countdown {
            Countdown::Inactive => (round_secs / 60, round_secs % 60, false),
            Countdown::Active { end_ms, .. } => {
                proof {
                    lemma_fundamental_div_mod(elapsed_ms as int, 1000);
                }
                let shown_ms = round_secs * 1000;
                let remaining_ms = if end_ms > shown_ms {
                    end_ms - shown_ms
                } else {
                    0
                };
                (remaining_ms / 60000, (remaining_ms % 60000) / 1000, true)
            },
        };
        self.last_secs = round_secs;
        let tick = is_countdown && secs > 0 && secs <= 5;
        Some((Self::display_text(mins, secs, is_countdown), tick))
    }
}

} // verus!
