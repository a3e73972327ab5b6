//! The two kinds of balls a round pours onto the balance.
use vstd::prelude::*;

verus! {

/// Category tag of a ball, fixed at spawn time.
#[derive(Clone, Copy, Debug, PartialEq, Eq, Structural)]
pub enum BallKind {
    Red,
    Blue,
}

/// The category's human-readable name, as a sequence of characters.
pub open spec fn spec_kind_name(k: BallKind) -> Seq<char> {
    match k {
        BallKind::Red => "Red"@,
        BallKind::Blue => "Blue"@,
    }
}

impl BallKind {
    /// The other of the two categories.
    pub open spec fn spec_other(self) -> BallKind {
        match self {
            BallKind::Red => BallKind::Blue,
            BallKind::Blue => BallKind::Red,
        }
    }

    /// Human-readable name of the category.
    pub fn name(&self) -> (r: &'static str)
        ensures
            r@ == spec_kind_name(*self),
    {
        match self {
            BallKind::Red => "Red",
            BallKind::Blue => "Blue",
        }
    }

    /// The other of the two categories.
    pub fn other(&self) -> (r: BallKind)
        ensures
            r == self.spec_other(),
            r != *self,
    {
        match self {
            BallKind::Red => BallKind::Blue,
            BallKind::Blue => BallKind::Red,
        }
    }
}

} // verus!
