//! Per-round goal criteria and the countdown state machine: the target mix,
//! the minimum-weight threshold that arms the countdown, the pausable round
//! stopwatch driving it, and the one-shot result calculation at expiry.
use vstd::prelude::*;
use vstd::string::StringExecFns;

use rand::Rng;

use crate::ball::{spec_kind_name, BallKind};
use crate::balance::{spec_pct_centi, spec_round_score, spec_summary, BalanceCounter};
use crate::score::TotalScore;
use crate::text::{push_centi, push_dec, spec_centi, spec_dec};

verus! {

/// Interval of the recurring ball-spawn trigger, in milliseconds.
pub const SPAWN_INTERVAL_MS: u64 = 2000;

/// How far the spawn trigger is pre-advanced at round start, so an early
/// bonus spawn fires shortly after the round begins.
pub const SPAWN_PRE_ADVANCE_MS: u64 = 1500;

/// The desired percentage split between the two ball categories.
///
/// `FiftyFifty` means an even 50/50 split; `AB` gives one category's target
/// percentage (in whole percent), the other category's target being the
/// complement to 100.
#[derive(Clone, Copy, Debug, PartialEq, Eq, Structural)]
pub enum Mix {
    FiftyFifty,
    AB { a_pct: u64, a_kind: BallKind, b_kind: BallKind },
}

impl Mix {
    /// An asymmetric split names a percentage of at most 100 and two
    /// distinct categories.
    pub open spec fn wf(self) -> bool {
        self matches Mix::AB { a_pct, a_kind, b_kind } ==> a_pct <= 100 && a_kind != b_kind
    }

    /// First category of the split.
    pub open spec fn spec_kind_a(self) -> BallKind {
        match self {
            Mix::FiftyFifty => BallKind::Blue,
            Mix::AB { a_kind, .. } => a_kind,
        }
    }

    /// First category's target, in centi-percent.
    pub open spec fn spec_target_a_centi(self) -> int {
        match self {
            Mix::FiftyFifty => 5000,
            Mix::AB { a_pct, .. } => a_pct * 100,
        }
    }

    /// Second category of the split.
    pub open spec fn spec_kind_b(self) -> BallKind {
        match self {
            Mix::FiftyFifty => BallKind::Red,
            Mix::AB { b_kind, .. } => b_kind,
        }
    }

    /// Second category's target, in centi-percent.
    pub open spec fn spec_target_b_centi(self) -> int {
        match self {
            Mix::FiftyFifty => 5000,
            Mix::AB { a_pct, .. } => (100 - a_pct) * 100,
        }
    }

    /// Human-readable description of the split.
    pub open spec fn spec_text(self) -> Seq<char> {
        match self {
            Mix::FiftyFifty => "50/50"@,
            Mix::AB { a_pct, a_kind, b_kind } => spec_dec(a_pct as int) + "pct "@
                + spec_kind_name(a_kind) + " to "@ + spec_dec(100 - a_pct) + "pct "@
                + spec_kind_name(b_kind),
        }
    }

    /// Human-readable description, e.g. `50/50` or `25pct Blue to 75pct Red`.
    pub fn to_string_hum(&self) -> (r: String)
        requires
            self.wf(),
        ensures
            r@ == self.spec_text(),
    {
        match *self {
            Mix::FiftyFifty => String::from_str("50/50"),
            Mix::AB { a_pct, a_kind, b_kind } => {
                let mut s = String::new();
                push_dec(&mut s, a_pct as u128);
                s.append("pct ");
                s.append(a_kind.name());
                s.append(" to ");
                push_dec(&mut s, (100 - a_pct) as u128);
                s.append("pct ");
                s.append(b_kind.name());
                proof {
                    assert(s@ =~= self.spec_text());
                }
                s
            },
        }
    }
}

/// The countdown of a round: `Inactive` until the total weight first
/// exceeds the minimum, then `Active` with a fixed deadline.
/// `end_calculated` flips true exactly once, when the deadline passes and
/// the one-shot result calculation runs.
#[derive(Clone, Copy, Debug, PartialEq, Eq, Structural)]
pub enum Countdown {
    Inactive,
    Active { end_ms: u64, end_calculated: bool },
}

impl Countdown {
    /// Round restart: back to `Inactive` from any state.
    pub fn reset(&mut self)
        ensures
            *final(self) == Countdown::Inactive,
    {
        *self = Countdown::Inactive;
    }

    /// Marks the one-shot result calculation as done; no-op while inactive.
    fn set_end_calculated(&mut self)
        ensures
            *final(self) == match *old(self) {
                Countdown::Inactive => Countdown::Inactive,
                Countdown::Active { end_ms, .. } => Countdown::Active {
                    end_ms,
                    end_calculated: true,
                },
            },
    {
        match *self {
            Countdown::Inactive => {},
            Countdown::Active { end_ms, .. } => {
                *self = Countdown::Active { end_ms, end_calculated: true };
            },
        }
    }
}

/// The pausable elapsed-time clock of a round, in milliseconds, with the
/// pre-advanced recurring ball-spawn trigger. `stop` is permanent until
/// `reset`: `resume` after a stop is a no-op.
#[derive(Clone, Copy, Debug, PartialEq, Eq, Structural)]
pub struct LevelStopwatch {
    pub elapsed_ms: u64,
    pub paused: bool,
    pub stopped: bool,
    pub spawn_timer_ms: u64,
}

impl LevelStopwatch {
    /// A fresh, running clock with the spawn trigger pre-advanced.
    pub fn new() -> (r: Self)
        ensures
            r.elapsed_ms == 0,
            !r.paused,
            !r.stopped,
            r.spawn_timer_ms == SPAWN_PRE_ADVANCE_MS,
    {
        LevelStopwatch {
            elapsed_ms: 0,
            paused: false,
            stopped: false,
            spawn_timer_ms: SPAWN_PRE_ADVANCE_MS,
        }
    }

    /// Advances the clock by one frame's delta. Returns whether the
    /// recurring spawn trigger fired this frame (its remainder carries
    /// over, as a repeating timer's does). While paused, time does not
    /// accumulate and the trigger cannot fire.
    pub fn update_system(&mut self, delta_ms: u64) -> (spawn: bool)
        requires
            old(self).elapsed_ms + delta_ms <= u64::MAX,
            old(self).spawn_timer_ms + delta_ms <= u64::MAX,
        ensures
            old(self).paused ==> *final(self) == *old(self) && !spawn,
            !old(self).paused ==> {
                &&& final(self).elapsed_ms == old(self).elapsed_ms + delta_ms
                &&& spawn == (old(self).spawn_timer_ms + delta_ms >= SPAWN_INTERVAL_MS)
                &&& final(self).spawn_timer_ms == if old(self).spawn_timer_ms + delta_ms
                    >= SPAWN_INTERVAL_MS {
                    (old(self).spawn_timer_ms + delta_ms) % (SPAWN_INTERVAL_MS as int)
                } else {
                    old(self).spawn_timer_ms + delta_ms
                }
                &&& final(self).paused == old(self).paused
                &&& final(self).stopped == old(self).stopped
            },
    {
        if self.paused {
            return false;
        }
        self.elapsed_ms = self.elapsed_ms + delta_ms;
        let t = self.spawn_timer_ms + delta_ms;
        if t >= SPAWN_INTERVAL_MS {
            self.spawn_timer_ms = t % SPAWN_INTERVAL_MS;
            true
        } else {
            self.spawn_timer_ms = t;
            false
        }
    }

    /// Freezes time accumulation.
    pub fn pause(&mut self)
        ensures
            final(self).paused,
            final(self).elapsed_ms == old(self).elapsed_ms,
            final(self).stopped == old(self).stopped,
            final(self).spawn_timer_ms == old(self).spawn_timer_ms,
    {
        self.paused = true;
    }

    /// Whether the clock is currently frozen.
    pub fn paused(&self) -> (r: bool)
        ensures
            r == self.paused,
    {
        self.paused
    }

    /// Unfreezes the clock, unless it was permanently stopped.
    pub fn resume(&mut self)
        ensures
            old(self).stopped ==> *final(self) == *old(self),
            !old(self).stopped ==> *final(self) == (LevelStopwatch { paused: false, ..*old(self) }),
    {
        if !self.stopped {
            self.paused = false;
        }
    }

    /// Round restart: zero elapsed time, spawn trigger cleared (no
    /// pre-advance), the permanent stop lifted; the paused state persists
    /// until the overlay watcher resumes the clock.
    pub fn reset(&mut self)
        ensures
            final(self).elapsed_ms == 0,
            final(self).spawn_timer_ms == 0,
            !final(self).stopped,
            final(self).paused == old(self).paused,
    {
        self.elapsed_ms = 0;
        self.spawn_timer_ms = 0;
        self.stopped = false;
    }

    /// Pause plus a permanent lock: only `reset` makes the clock run again.
    pub fn stop(&mut self)
        ensures
            final(self).stopped,
            final(self).paused,
            final(self).elapsed_ms == old(self).elapsed_ms,
            final(self).spawn_timer_ms == old(self).spawn_timer_ms,
    {
        self.stopped = true;
        self.pause();
    }
}

/// What one tick of the countdown watcher asks its collaborators to do.
#[derive(Debug)]
pub enum WatchOutcome {
    /// No transition this tick.
    Nothing,
    /// The countdown just armed: play the "countdown started" cue.
    CountdownStarted,
    /// The deadline just passed: the round's result, to be displayed and
    /// never recomputed.
    ResultFinalized { a_summary: String, b_summary: String, score_centi: u64 },
}

/// Immutable per-round configuration: minimum weight (centi-units) that
/// arms the countdown, target mix, and countdown duration in whole seconds.
#[derive(Clone, Copy, Debug, PartialEq, Eq, Structural)]
pub struct LevelCriteria {
    pub min_weight_centi: u64,
    pub target_mix: Mix,
    pub countdown_time_secs: u64,
}

/// Whether this tick arms the countdown: it is still inactive and the
/// total weight strictly exceeds the minimum.
pub open spec fn spec_countdown_starts(crit: LevelCriteria, cd: Countdown, weight_centi: int) -> bool {
    cd is Inactive && weight_centi > crit.min_weight_centi
}

/// Whether this tick fires the one-shot result calculation: the countdown
/// is active, not yet finalized, and the deadline has passed.
pub open spec fn spec_countdown_fires(cd: Countdown, elapsed_ms: int) -> bool {
    cd matches Countdown::Active { end_ms, end_calculated } && !end_calculated && elapsed_ms
        > end_ms
}

/// The countdown state after one tick of the watcher. Once active, the
/// state never returns to `Inactive` however far the weight drops (a
/// deliberate one-way ratchet), and once finalized it never changes again.
pub open spec fn spec_countdown_next(
    crit: LevelCriteria,
    cd: Countdown,
    weight_centi: int,
    elapsed_ms: int,
) -> Countdown {
    if spec_countdown_starts(crit, cd, weight_centi) {
        Countdown::Active {
            end_ms: (elapsed_ms + crit.countdown_time_secs * 1000) as u64,
            end_calculated: false,
        }
    } else if spec_countdown_fires(cd, elapsed_ms) {
        Countdown::Active { end_ms: cd->Active_end_ms, end_calculated: true }
    } else {
        cd
    }
}

enum CriteriaResult {
    StartCountdown,
    CalculateResult,
    Nothing,
}

impl LevelCriteria {
    /// The target mix must be well-formed for the criteria to be usable.
    pub open spec fn wf(self) -> bool {
        self.target_mix.wf()
    }

    /// The two goal lines of the in-game display.
    pub fn to_strings(&self) -> (r: Vec<String>)
        requires
            self.wf(),
        ensures
            r@.len() == 2,
            r@[0]@ == "Min Weight: "@ + spec_centi(self.min_weight_centi as int),
            r@[1]@ == "Target Mix: "@ + self.target_mix.spec_text(),
    {
        let mut line0 = String::from_str("Min Weight: ");
        push_centi(&mut line0, self.min_weight_centi as u128);
        let mut line1 = String::from_str("Target Mix: ");
        let mix = self.target_mix.to_string_hum();
        line1.append(mix.as_str());
        let mut r = Vec::new();
        r.push(line0);
        r.push(line1);
        r
    }

    /// The lines of the goal overlay shown when a round starts.
    pub fn initial_goal_texts(&self) -> (r: Vec<String>)
        requires
            self.wf(),
        ensures
            r@.len() == 6,
            r@[0]@ == "Goals"@,
            r@[1]@ == "-"@,
            r@[2]@ == "Make a mix of "@ + self.target_mix.spec_text(),
            r@[3]@ == "Minimum weight of: "@ + spec_centi(self.min_weight_centi as int),
            r@[4]@ == "You get "@ + spec_dec(self.countdown_time_secs as int)
                + "s once you hit this weight to get it right"@,
            r@[5]@ == "(Enter to dismiss)"@,
    {
        let mut line2 = String::from_str("Make a mix of ");
        let mix = self.target_mix.to_string_hum();
        line2.append(mix.as_str());
        let mut line3 = String::from_str("Minimum weight of: ");
        push_centi(&mut line3, self.min_weight_centi as u128);
        let mut line4 = String::from_str("You get ");
        push_dec(&mut line4, self.countdown_time_secs as u128);
        line4.append("s once you hit this weight to get it right");
        let mut r = Vec::new();
        r.push(String::from_str("Goals"));
        r.push(String::from_str("-"));
        r.push(line2);
        r.push(line3);
        r.push(line4);
        r.push(String::from_str("(Enter to dismiss)"));
        r
    }

    /// One tick of the countdown watcher, the round's central transition:
    ///
    /// - inactive, and the total weight exceeds the minimum: arm the
    ///   countdown with deadline now + duration, and ask for the
    ///   "countdown started" cue;
    /// - active, unfinalized, and past the deadline: permanently stop the
    ///   round clock, compute the result once, record its score, and mark
    ///   the countdown finalized;
    /// - otherwise: change nothing.
    ///
    /// Once active the countdown never reverts to inactive, and once
    /// finalized nothing changes any more.
    pub fn watch_system(
        &self,
        stopwatch: &mut LevelStopwatch,
        countdown: &mut Countdown,
        balance_counter: &BalanceCounter,
        total_score: &mut TotalScore,
    ) -> (outcome: WatchOutcome)
        requires
            self.wf(),
            old(stopwatch).elapsed_ms + self.countdown_time_secs * 1000 <= u64::MAX,
        ensures
            *final(countdown) == spec_countdown_next(
                *self,
                *old(countdown),
                balance_counter.spec_total_weight_centi(),
                old(stopwatch).elapsed_ms as int,
            ),
            outcome is CountdownStarted <==> spec_countdown_starts(
                *self,
                *old(countdown),
                balance_counter.spec_total_weight_centi(),
            ),
            outcome is ResultFinalized <==> spec_countdown_fires(
                *old(countdown),
                old(stopwatch).elapsed_ms as int,
            ),
            outcome is ResultFinalized ==> {
                &&& outcome matches WatchOutcome::ResultFinalized {
                    a_summary,
                    b_summary,
                    score_centi,
                }
                &&& a_summary@ == spec_summary(
                    self.target_mix.spec_kind_a(),
                    self.target_mix.spec_target_a_centi(),
                    spec_pct_centi(
                        balance_counter.spec_count(self.target_mix.spec_kind_a()),
                        balance_counter.spec_total(),
                    ),
                )
                &&& b_summary@ == spec_summary(
                    self.target_mix.spec_kind_b(),
                    self.target_mix.spec_target_b_centi(),
                    spec_pct_centi(
                        balance_counter.spec_count(self.target_mix.spec_kind_b()),
                        balance_counter.spec_total(),
                    ),
                )
                &&& score_centi == spec_round_score(*balance_counter, self.target_mix)
                &&& score_centi <= 10000
                &&& final(total_score).scores@ == old(total_score).scores@.push(score_centi)
                &&& final(stopwatch).stopped && final(stopwatch).paused
                &&& final(stopwatch).elapsed_ms == old(stopwatch).elapsed_ms
                &&& final(stopwatch).spawn_timer_ms == old(stopwatch).spawn_timer_ms
            },
            !(outcome is ResultFinalized) ==> *final(stopwatch) == *old(stopwatch)
                && final(total_score).scores@ == old(total_score).scores@,
    {
        let result = match *countdown {
            Countdown::Inactive => {
                if balance_counter.total_weight() > self.min_weight_centi as u128 {
                    CriteriaResult::StartCountdown
                } else {
                    CriteriaResult::Nothing
                }
            },
            Countdown::Active { end_ms, end_calculated } => {
                if stopwatch.elapsed_ms > end_ms && !end_calculated {
                    CriteriaResult::CalculateResult
                } else {
                    CriteriaResult::Nothing
                }
            },
        };
        match result {
            CriteriaResult::StartCountdown => {
                *countdown = Countdown::Active {
                    end_ms: stopwatch.elapsed_ms + self.countdown_time_secs * 1000,
                    end_calculated: false,
                };
                WatchOutcome::CountdownStarted
            },
            CriteriaResult::CalculateResult => {
                stopwatch.stop();
                let (a_result, b_result, score) = balance_counter.ratios_and_score(
                    &self.target_mix,
                );
                total_score.add_score(score);
                countdown.set_end_calculated();
                WatchOutcome::ResultFinalized {
                    a_summary: a_result,
                    b_summary: b_result,
                    score_centi: score,
                }
            },
            CriteriaResult::Nothing => WatchOutcome::Nothing,
        }
    }

    /// Fresh criteria for a new round, drawn from the game's distribution:
    /// minimum weight uniform in [1.20, 6.00) centi-units, the target mix
    /// from the weighted buckets of `mix_from_rolls`, and a countdown
    /// duration uniform over 5 to 15 whole seconds.
    pub fn new_random() -> (r: LevelCriteria)
        ensures
            r.wf(),
            120 <= r.min_weight_centi < 600,
            5 <= r.countdown_time_secs <= 15,
    {
        let min_weight_centi = rand_u64_in(120, 600);
        let die = rand_u64_in(0, 7);
        let left = rand_coin();
        let pct = rand_u64_in(10, 90);
        let target_mix = mix_from_rolls(die, left, pct);
        let countdown_time_secs = (rand_u64_in(500, 1500) + 50) / 100;
        LevelCriteria { min_weight_centi, target_mix, countdown_time_secs }
    }
}

/// The target mix a weighted die roll selects: rolls 0 and 1 give the even
/// split, 2 and 3 a quarter split, 4 and 5 a third split, and 6 a fully
/// random split using `random_pct`; `left` picks which way an asymmetric
/// split leans. No roll falls outside the table: the impossible case is
/// excluded by construction rather than checked at run time.
pub open spec fn spec_mix_from_rolls(die: int, left: bool, random_pct: int) -> Mix {
    if die < 2 {
        Mix::FiftyFifty
    } else if die < 4 {
        Mix::AB {
            a_pct: if left {
                25
            } else {
                75
            },
            a_kind: BallKind::Blue,
            b_kind: BallKind::Red,
        }
    } else if die < 6 {
        Mix::AB {
            a_pct: if left {
                33
            } else {
                66
            },
            a_kind: BallKind::Blue,
            b_kind: BallKind::Red,
        }
    } else {
        Mix::AB { a_pct: random_pct as u64, a_kind: BallKind::Blue, b_kind: BallKind::Red }
    }
}

/// Maps the weighted die roll (0 to 6) to the round's target mix.
pub fn mix_from_rolls(die: u64, left: bool, random_pct: u64) -> (r: Mix)
    requires
        die < 7,
        10 <= random_pct < 90,
    ensures
        r == spec_mix_from_rolls(die as int, left, random_pct as int),
        r.wf(),
{
    if die < 2 {
        Mix::FiftyFifty
    } else if die < 4 {
        let a_pct: u64 = if left {
            25
        } else {
            75
        };
        Mix::AB { a_pct, a_kind: BallKind::Blue, b_kind: BallKind::Red }
    } else if die < 6 {
        let a_pct: u64 = if left {
            33
        } else {
            66
        };
        Mix::AB { a_pct, a_kind: BallKind::Blue, b_kind: BallKind::Red }
    } else {
        Mix::AB { a_pct: random_pct, a_kind: BallKind::Blue, b_kind: BallKind::Red }
    }
}

/// The lines of the end-of-round result overlay.
pub fn final_result_texts(a_result: String, b_result: String, score_centi: u64) -> (r: Vec<String>)
    ensures
        r@.len() == 5,
        r@[0]@ == "Result"@,
        r@[1]@ == ""@,
        r@[2]@ == a_result@,
        r@[3]@ == b_result@,
        r@[4]@ == "Score: "@ + spec_centi(score_centi as int),
{
    let mut line4 = String::from_str("Score: ");
    push_centi(&mut line4, score_centi as u128);
    let mut r = Vec::new();
    r.push(String::from_str("Result"));
    r.push(String::from_str(""));
    r.push(a_result);
    r.push(b_result);
    r.push(line4);
    r
}

/// Once the countdown is active, the total weight dropping back below the
/// minimum does not revert it: no tick ever takes the machine from
/// `Active` back to `Inactive`, and the deadline never moves.
pub proof fn lemma_countdown_never_reverts(
    crit: LevelCriteria,
    cd: Countdown,
    weight_centi: int,
    elapsed_ms: int,
)
    requires
        cd is Active,
    ensures
        spec_countdown_next(crit, cd, weight_centi, elapsed_ms) is Active,
        spec_countdown_next(crit, cd, weight_centi, elapsed_ms)->Active_end_ms
            == cd->Active_end_ms,
{
}

/// A finalized countdown is terminal: whatever weight and time later ticks
/// observe, the state no longer changes.
pub proof fn lemma_finalized_is_terminal(
    crit: LevelCriteria,
    cd: Countdown,
    weight_centi: int,
    elapsed_ms: int,
)
    requires
        cd matches Countdown::Active { end_calculated, .. } && end_calculated,
    ensures
        spec_countdown_next(crit, cd, weight_centi, elapsed_ms) == cd,
{
}

/// The result is calculated exactly once per round: a tick that fires the
/// one-shot calculation leaves a state from which no later tick can fire
/// it again, however many ticks pass after the deadline.
pub proof fn lemma_result_finalized_once(
    crit: LevelCriteria,
    cd: Countdown,
    weight_centi: int,
    elapsed_ms: int,
    later_elapsed_ms: int,
)
    requires
        spec_countdown_fires(cd, elapsed_ms),
    ensures
        !spec_countdown_fires(
            spec_countdown_next(crit, cd, weight_centi, elapsed_ms),
            later_elapsed_ms,
        ),
{
}

/// Relies on `rand::Rng::gen_range` over a `Range<u64>`: a uniformly
/// distributed value in `[lo, hi)`. It panics on an empty range, which the
/// `requires` excludes.
#[verifier::external_body]
fn rand_u64_in(lo: u64, hi: u64) -> (r: u64)
    requires
        lo < hi,
    ensures
        lo <= r < hi,
{
    rand::thread_rng().gen_range(lo..hi)
}

/// Relies on `rand::Rng::gen::<bool>` (the `Standard` distribution): a fair
/// coin flip. Nothing can be promised of the value drawn.
#[verifier::external_body]
fn rand_coin() -> (r: bool) {
    rand::thread_rng().gen()
}

} // verus!
