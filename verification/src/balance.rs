//! The ball population ledger and the weight/ratio evaluator: per-category
//! counts of balls resting on the balance sensor, total weight, per-category
//! percentages, and the piecewise-linear closeness score against a target mix.
use vstd::prelude::*;
use vstd::arithmetic::div_mod::{
    lemma_div_is_ordered, lemma_div_pos_is_pos, lemma_multiply_divide_le, lemma_multiply_divide_lt,
};
use vstd::string::StringExecFns;

use crate::ball::{spec_kind_name, BallKind};
use crate::goals::Mix;
use crate::text::{centi_string, push_centi, spec_centi};
use crate::UNIT_WEIGHT_CENTI;

verus! {

/// Per-category count of balls currently resting on the weighing sensor.
///
/// A count never goes negative: decrementing a zero count is a no-op (a
/// known tracking desync between sensor enter/exit events, reported to the
/// caller so it can log a warning).
#[derive(Clone, Copy, Debug, PartialEq, Eq, Structural)]
pub struct BalanceCounter {
    pub red: u64,
    pub blue: u64,
}

impl BalanceCounter {
    /// Count of one category.
    pub open spec fn spec_count(self, kind: BallKind) -> int {
        match kind {
            BallKind::Red => self.red as int,
            BallKind::Blue => self.blue as int,
        }
    }

    /// Count over both categories.
    pub open spec fn spec_total(self) -> int {
        self.red + self.blue
    }

    /// Total weight on the sensor, in centi-units.
    pub open spec fn spec_total_weight_centi(self) -> int {
        self.spec_total() * (UNIT_WEIGHT_CENTI as int)
    }

    /// An empty ledger.
    pub fn new() -> (r: Self)
        ensures
            r.red == 0,
            r.blue == 0,
    {
        BalanceCounter { red: 0, blue: 0 }
    }

    /// Clears all counts; called on round (re)start.
    pub fn reset(&mut self)
        ensures
            final(self).red == 0,
            final(self).blue == 0,
    {
        self.red = 0;
        self.blue = 0;
    }

    /// Adds one ball of the given category.
    pub fn incr(&mut self, kind: BallKind)
        requires
            old(self).spec_count(kind) < u64::MAX,
        ensures
            final(self).spec_count(kind) == old(self).spec_count(kind) + 1,
            final(self).spec_count(kind.spec_other()) == old(self).spec_count(kind.spec_other()),
    {
        match kind {
            BallKind::Red => {
                self.red = self.red + 1;
            },
            BallKind::Blue => {
                self.blue = self.blue + 1;
            },
        }
    }

    /// Removes one ball of the given category. On a zero count this is a
    /// no-op and returns `false`, so the caller can log the tracking desync;
    /// the count never goes negative.
    pub fn decr(&mut self, kind: BallKind) -> (applied: bool)
        ensures
            applied == (old(self).spec_count(kind) > 0),
            final(self).spec_count(kind) == if old(self).spec_count(kind) > 0 {
                old(self).spec_count(kind) - 1
            } else {
                0
            },
            old(self).spec_count(kind) == 0 ==> *final(self) == *old(self),
            final(self).spec_count(kind.spec_other()) == old(self).spec_count(kind.spec_other()),
    {
        match kind {
            BallKind::Red => {
                if self.red > 0 {
                    self.red = self.red - 1;
                    true
                } else {
                    false
                }
            },
            BallKind::Blue => {
                if self.blue > 0 {
                    self.blue = self.blue - 1;
                    true
                } else {
                    false
                }
            },
        }
    }

    /// Count over both categories.
    pub fn total_count(&self) -> (r: u128)
        ensures
            r == self.spec_total(),
    {
        self.red as u128 + self.blue as u128
    }

    /// Total weight on the sensor in centi-units: every ball weighs the same
    /// fixed 0.80 units (dynamic per-ball weight is out of scope).
    pub fn total_weight(&self) -> (r: u128)
        ensures
            r == self.spec_total_weight_centi(),
    {
        let t = self.total_count();
        proof {
            assert(t <= 0xffff_ffff_ffff_ffffu128 + 0xffff_ffff_ffff_ffffu128);
            assert(UNIT_WEIGHT_CENTI == 80);
        }
        t * 80
    }

    /// Count of one category.
    pub fn count(&self, kind: BallKind) -> (r: u64)
        ensures
            r == self.spec_count(kind),
    {
        match kind {
            BallKind::Red => self.red,
            BallKind::Blue => self.blue,
        }
    }

    /// Blue and red counts as an exact ratio (numerator, denominator).
    pub fn calculate_ratio(&self) -> (r: (u64, u64))
        ensures
            r.0 == self.spec_count(BallKind::Blue),
            r.1 == self.spec_count(BallKind::Red),
    {
        (self.blue, self.red)
    }

    /// This category's share of the balls on the sensor, in centi-percent,
    /// rounded to nearest. An empty ledger yields 0 (the division is
    /// undefined there; 0 is the documented sentinel).
    pub fn category_percentage(&self, kind: BallKind) -> (r: u64)
        ensures
            r == spec_pct_centi(self.spec_count(kind), self.spec_total()),
            r <= 10000,
    {
        let total = self.total_count();
        if total == 0 {
            0
        } else {
            let c = self.count(kind) as u128;
            let num = c * 10000 + total / 2;
            let q = num / total;
            proof {
                assert(num < total * 10001) by {
                    assert(c <= total);
                    assert(c * 10000 <= total * 10000) by (nonlinear_arith)
                        requires
                            c <= total,
                    ;
                }
                lemma_multiply_divide_lt(num as int, total as int, 10001);
            }
            q as u64
        }
    }

    /// Applies one sensor crossing of a ball, as the sensor event adapter
    /// does each frame: entering increments the ball's category, leaving
    /// decrements it. A decrement of a zero count is a no-op and returns
    /// `false` (the known tracking desync, for the caller to log); balls
    /// are counted on crossing, not on settling, a documented approximation.
    pub fn apply_sensor_event(&mut self, kind: BallKind, entered: bool) -> (clean: bool)
        requires
            entered ==> old(self).spec_count(kind) < u64::MAX,
        ensures
            entered ==> clean && final(self).spec_count(kind) == old(self).spec_count(kind) + 1,
            !entered ==> clean == (old(self).spec_count(kind) > 0),
            !entered ==> final(self).spec_count(kind) == if old(self).spec_count(kind) > 0 {
                old(self).spec_count(kind) - 1
            } else {
                0
            },
            final(self).spec_count(kind.spec_other()) == old(self).spec_count(kind.spec_other()),
    {
        if entered {
            self.incr(kind);
            true
        } else {
            self.decr(kind)
        }
    }

    /// The balance readout under the scale: total weight with two decimals.
    pub fn weight_display(&self) -> (r: String)
        ensures
            r@ == spec_centi(self.spec_total_weight_centi()),
    {
        centi_string(self.total_weight())
    }

    /// Resolves the target mix into per-category targets, computes each
    /// category's actual percentage, renders the two summary lines and sums
    /// the two score contributions.
    pub fn ratios_and_score(&self, target_mix: &Mix) -> (r: (String, String, u64))
        requires
            target_mix.wf(),
        ensures
            r.0@ == spec_summary(
                target_mix.spec_kind_a(),
                target_mix.spec_target_a_centi(),
                spec_pct_centi(self.spec_count(target_mix.spec_kind_a()), self.spec_total()),
            ),
            r.1@ == spec_summary(
                target_mix.spec_kind_b(),
                target_mix.spec_target_b_centi(),
                spec_pct_centi(self.spec_count(target_mix.spec_kind_b()), self.spec_total()),
            ),
            r.2 == spec_round_score(*self, *target_mix),
            r.2 <= 10000,
    {
        let (a_kind, a_target, b_kind, b_target) = match *target_mix {
            Mix::FiftyFifty => (BallKind::Blue, 5000u64, BallKind::Red, 5000u64),
            Mix::AB { a_pct, a_kind, b_kind } => (a_kind, a_pct * 100, b_kind, (100 - a_pct)
                * 100),
        };
        let a_actual = self.category_percentage(a_kind);
        let b_actual = self.category_percentage(b_kind);
        let a_str = summary_string(a_kind, a_target, a_actual);
        let b_str = summary_string(b_kind, b_target, b_actual);
        let score = pct_to_score(a_target, a_actual) + pct_to_score(b_target, b_actual);
        (a_str, b_str, score)
    }
}

/// If exactly one of a collision event's two entities is the sensor, the
/// other one; `None` when neither is. Entities are carried as plain ids.
pub fn other_entity_if_match(match_entity: u64, e1: u64, e2: u64) -> (r: Option<u64>)
    ensures
        e1 == match_entity ==> r == Some(e2),
        e1 != match_entity && e2 == match_entity ==> r == Some(e1),
        e1 != match_entity && e2 != match_entity ==> r is None,
{
    if e1 == match_entity {
        Some(e2)
    } else if e2 == match_entity {
        Some(e1)
    } else {
        None
    }
}

/// A category's share of `t` balls, in centi-percent, rounded to nearest;
/// 0 when the ledger is empty.
pub open spec fn spec_pct_centi(c: int, t: int) -> int {
    if t == 0 {
        0
    } else {
        (c * 10000 + t / 2) / t
    }
}

/// The score a deviation of `d` centi-percent earns, in centi-points:
/// 0 beyond 30 points of deviation, the flat cap of 50.00 under 1 point,
/// and a linear decay `(30 - d) / 29 * 48` (rounded to nearest) between.
pub open spec fn spec_score_of_diff(d: int) -> int {
    if d > 3000 {
        0
    } else if d < 100 {
        5000
    } else {
        ((3000 - d) * 48 + 14) / 29
    }
}

/// Absolute difference between target and actual percentage.
pub open spec fn spec_abs_diff(target: int, actual: int) -> int {
    if target >= actual {
        target - actual
    } else {
        actual - target
    }
}

/// Closeness score of an actual percentage against a target, in centi-points.
pub open spec fn spec_pct_to_score(target: int, actual: int) -> int {
    spec_score_of_diff(spec_abs_diff(target, actual))
}

/// Combined score of a ledger against a target mix: the sum of both
/// categories' contributions.
pub open spec fn spec_round_score(counter: BalanceCounter, mix: Mix) -> int {
    spec_pct_to_score(
        mix.spec_target_a_centi(),
        spec_pct_centi(counter.spec_count(mix.spec_kind_a()), counter.spec_total()),
    ) + spec_pct_to_score(
        mix.spec_target_b_centi(),
        spec_pct_centi(counter.spec_count(mix.spec_kind_b()), counter.spec_total()),
    )
}

/// Closeness score of an actual percentage against a target, both in
/// centi-percent, in centi-points (0 to 5000).
pub fn pct_to_score(target_centi: u64, actual_centi: u64) -> (r: u64)
    ensures
        r == spec_pct_to_score(target_centi as int, actual_centi as int),
        r <= 5000,
{
    let d = if target_centi >= actual_centi {
        target_centi - actual_centi
    } else {
        actual_centi - target_centi
    };
    if d > 3000 {
        0
    } else if d < 100 {
        5000
    } else {
        let v = ((3000 - d) * 48 + 14) / 29;
        proof {
            lemma_multiply_divide_le((3000 - d as int) * 48 + 14, 29, 5000);
        }
        v
    }
}

/// The one summary line of a round result: the category's name, its target
/// percentage and the percentage actually reached, both with two decimals.
pub open spec fn spec_summary(kind: BallKind, target_centi: int, actual_centi: int) -> Seq<char> {
    spec_kind_name(kind) + ". Goal "@ + spec_centi(target_centi) + ", Actual "@ + spec_centi(
        actual_centi,
    )
}

/// Renders one summary line, e.g. `Blue. Goal 50.00, Actual 33.33`.
pub fn summary_string(kind: BallKind, target_centi: u64, actual_centi: u64) -> (r: String)
    ensures
        r@ == spec_summary(kind, target_centi as int, actual_centi as int),
{
    let mut s = String::from_str(kind.name());
    s.append(". Goal ");
    push_centi(&mut s, target_centi as u128);
    s.append(", Actual ");
    push_centi(&mut s, actual_centi as u128);
    proof {
        assert(s@ =~= spec_summary(kind, target_centi as int, actual_centi as int));
    }
    s
}

/// The score is symmetric around the target: two actual percentages at the
/// same absolute distance from the target earn the same score.
pub proof fn lemma_score_symmetric(target: int, actual1: int, actual2: int)
    requires
        spec_abs_diff(target, actual1) == spec_abs_diff(target, actual2),
    ensures
        spec_pct_to_score(target, actual1) == spec_pct_to_score(target, actual2),
{
}

/// The score is monotonically non-increasing in the absolute difference
/// between target and actual percentage: a larger deviation never scores
/// higher.
pub proof fn lemma_score_monotone(target: int, actual1: int, actual2: int)
    requires
        spec_abs_diff(target, actual1) <= spec_abs_diff(target, actual2),
    ensures
        spec_pct_to_score(target, actual1) >= spec_pct_to_score(target, actual2),
{
    let d1 = spec_abs_diff(target, actual1);
    let d2 = spec_abs_diff(target, actual2);
    if d2 > 3000 {
        if !(d1 > 3000) && !(d1 < 100) {
            lemma_div_pos_is_pos((3000 - d1) * 48 + 14, 29);
        }
    } else if d1 < 100 {
        if !(d2 < 100) {
            lemma_multiply_divide_le((3000 - d2) * 48 + 14, 29, 5000);
        }
    } else {
        lemma_div_is_ordered((3000 - d2) * 48 + 14, (3000 - d1) * 48 + 14, 29);
    }
}

/// One category's count after applying a sequence of ledger operations to
/// an initially empty ledger: `true` is an increment, `false` a decrement,
/// and a decrement of a zero count is a no-op.
pub open spec fn spec_apply_ops(s: Seq<bool>) -> int
    decreases s.len(),
{
    if s.len() == 0 {
        0
    } else {
        let prev = spec_apply_ops(s.drop_last());
        if s.last() {
            prev + 1
        } else if prev > 0 {
            prev - 1
        } else {
            prev
        }
    }
}

/// Number of increments in a sequence of ledger operations.
pub open spec fn spec_n_incrs(s: Seq<bool>) -> int
    decreases s.len(),
{
    if s.len() == 0 {
        0
    } else {
        spec_n_incrs(s.drop_last()) + if s.last() {
            1int
        } else {
            0int
        }
    }
}

/// Number of decrements in a sequence of ledger operations.
pub open spec fn spec_n_decrs(s: Seq<bool>) -> int
    decreases s.len(),
{
    if s.len() == 0 {
        0
    } else {
        spec_n_decrs(s.drop_last()) + if s.last() {
            0int
        } else {
            1int
        }
    }
}

/// Whatever the sequence of increments and decrements, a count never goes
/// negative.
pub proof fn lemma_count_never_negative(s: Seq<bool>)
    ensures
        spec_apply_ops(s) >= 0,
    decreases s.len(),
{
    if s.len() > 0 {
        lemma_count_never_negative(s.drop_last());
    }
}

/// For a sequence of N increments and M decrements of one category in which
/// no prefix removes more balls than it has added (every ball that leaves
/// the sensor entered it first), the final count is exactly N - M.
pub proof fn lemma_ledger_balanced(s: Seq<bool>)
    requires
        forall|i: int|
            0 <= i <= s.len() ==> spec_n_decrs(#[trigger] s.take(i)) <= spec_n_incrs(s.take(i)),
    ensures
        spec_apply_ops(s) == spec_n_incrs(s) - spec_n_decrs(s),
    decreases s.len(),
{
    if s.len() > 0 {
        let dl = s.drop_last();
        assert forall|i: int| 0 <= i <= dl.len() implies spec_n_decrs(#[trigger] dl.take(i))
            <= spec_n_incrs(dl.take(i)) by {
            assert(dl.take(i) =~= s.take(i));
        }
        lemma_ledger_balanced(dl);
        assert(s.take(s.len() as int) =~= s);
    }
}

} // verus!
