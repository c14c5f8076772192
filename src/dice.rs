use vstd::prelude::*;

verus! {

/// Relies on rand's `Rng::gen_range` over `1..=6` with the thread-local
/// generator: the value lies in the range, which is not empty.
#[verifier::external_body]
fn roll_die() -> (r: i8)
    ensures
        1 <= r <= 6,
{
    rand::Rng::gen_range(&mut rand::thread_rng(), 1..=6)
}

/// Two six-sided dice, as their faces.
#[derive(Clone, Copy, Debug, PartialEq, Eq, Structural)]
pub struct Dice(pub i8, pub i8);

impl Dice {
    /// Both faces show one to six.
    pub open spec fn wf(&self) -> bool {
        1 <= self.0 <= 6 && 1 <= self.1 <= 6
    }

    /// The sum of the faces.
    pub open spec fn total(&self) -> int {
        self.0 + self.1
    }

    /// Both faces are equal.
    pub open spec fn doubles(&self) -> bool {
        self.0 == self.1
    }

    /// A fresh roll.
    pub fn new() -> (r: Dice)
        ensures
            r.wf(),
    {
        let mut dice = Dice(1, 1);
        dice.roll();
        dice
    }

    /// Rolls both dice again.
    pub fn roll(&mut self)
        ensures
            final(self).wf(),
    {
        self.0 = roll_die();
        self.1 = roll_die();
    }

    /// The sum of the faces, from two to twelve.
    pub fn value(&self) -> (r: i8)
        requires
            self.wf(),
        ensures
            r == self.total(),
            2 <= r <= 12,
    {
        self.0 + self.1
    }

    /// Whether both faces are equal.
    pub fn is_doubles(&self) -> (r: bool)
        ensures
            r == self.doubles(),
    {
        self.0 == self.1
    }
}

} // verus!
