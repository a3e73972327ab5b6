//! The cross-round score ledger: an append-only sequence of per-round
//! scores with a running total and average, all in centi-points.
use vstd::prelude::*;
use vstd::string::StringExecFns;

use crate::text::{push_centi, push_dec, spec_centi, spec_dec};

verus! {

/// Sum of a sequence of per-round scores.
pub open spec fn spec_sum(s: Seq<u64>) -> int
    decreases s.len(),
{
    if s.len() == 0 {
        0
    } else {
        spec_sum(s.drop_last()) + s.last()
    }
}

/// Average of a sequence of per-round scores, rounded down; 0 when no
/// round has been scored yet.
pub open spec fn spec_average(s: Seq<u64>) -> int {
    if s.len() == 0 {
        0
    } else {
        spec_sum(s) / s.len() as int
    }
}

/// Rendering of the running-score line, e.g.
/// `Total: 141.38 (2 Mixes. 70.69 Avg)`.
pub open spec fn spec_score_display(s: Seq<u64>) -> Seq<char> {
    "Total: "@ + spec_centi(spec_sum(s)) + " ("@ + spec_dec(s.len() as int) + " Mixes. "@
        + spec_centi(spec_average(s)) + " Avg)"@
}

/// Append-only ledger of the per-round scores of a session, in
/// centi-points. Reset only by explicit player action.
#[derive(Debug)]
pub struct TotalScore {
    pub scores: Vec<u64>,
}

impl TotalScore {
    /// An empty score ledger.
    pub fn new() -> (r: Self)
        ensures
            r.scores@ == Seq::<u64>::empty(),
    {
        TotalScore { scores: Vec::new() }
    }

    /// Forgets all recorded rounds.
    pub fn reset(&mut self)
        ensures
            final(self).scores@ == Seq::<u64>::empty(),
    {
        self.scores.clear();
    }

    /// Records one round's score.
    pub fn add_score(&mut self, score_centi: u64)
        ensures
            final(self).scores@ == old(self).scores@.push(score_centi),
    {
        self.scores.push(score_centi);
    }

    /// Running total over all recorded rounds, in centi-points.
    pub fn total(&self) -> (r: u128)
        ensures
            r == spec_sum(self.scores@),
    {
        let mut acc: u128 = 0;
        let mut i: usize = 0;
        while i < self.scores.len()
            invariant
                i <= self.scores@.len(),
                acc == spec_sum(self.scores@.take(i as int)),
                acc <= i * 0xffff_ffff_ffff_ffffu128,
            decreases self.scores@.len() - i,
        {
            let x = self.scores[i];
            proof {
                assert(self.scores@.take(i + 1).drop_last() =~= self.scores@.take(i as int));
                assert(self.scores@.take(i + 1).last() == self.scores@[i as int]);
            }
            acc = acc + x as u128;
            i = i + 1;
        }
        proof {
            assert(self.scores@.take(self.scores@.len() as int) =~= self.scores@);
        }
        acc
    }

    /// Average score over the recorded rounds, rounded down; 0 before any
    /// round has finished.
    pub fn mix_average(&self) -> (r: u128)
        ensures
            r == spec_average(self.scores@),
    {
        let n = self.scores.len();
        if n == 0 {
            0
        } else {
            let t = self.total();
            proof {
                vstd::arithmetic::div_mod::lemma_div_pos_is_pos(
                    spec_sum(self.scores@),
                    n as int,
                );
            }
            t / (n as u128)
        }
    }

    /// The running-score line shown in the game's corner, total and average
    /// with two decimals.
    pub fn to_display_string(&self) -> (r: String)
        ensures
            r@ == spec_score_display(self.scores@),
    {
        let mut s = String::from_str("Total: ");
        push_centi(&mut s, self.total());
        s.append(" (");
        push_dec(&mut s, self.scores.len() as u128);
        s.append(" Mixes. ");
        push_centi(&mut s, self.mix_average());
        s.append(" Avg)");
        proof {
            assert(s@ =~= spec_score_display(self.scores@));
        }
        s
    }
}

} // verus!
