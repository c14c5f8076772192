use vstd::prelude::*;

verus! {

/// Where `p + delta` lands on the circular board.
pub open spec fn wrapped(p: int, delta: int) -> int {
    (p + delta) % 40
}

/// A position on the circular board, 0 being the start space.
#[derive(Debug, PartialEq, Eq, Structural)]
pub struct Space(pub i8);

impl Space {
    /// The position lies on the board.
    pub open spec fn wf(&self) -> bool {
        0 <= self.0 < 40
    }

    /// A position on the start space.
    pub fn new() -> (r: Space)
        ensures
            r.0 == 0,
            r.wf(),
    {
        Space(0)
    }

    /// A position on space `x`.
    pub fn new_at(x: i8) -> (r: Space)
        requires
            0 <= x < 40,
        ensures
            r.0 == x,
            r.wf(),
    {
        let mut space = Space::new();
        space.move_to(x);
        space
    }

    /// Moves by `x` spaces, wrapping round the board. A forward step never
    /// exceeds one roll of the dice.
    pub fn move_by(&mut self, x: i8)
        requires
            old(self).wf(),
            -40 <= x <= 12,
        ensures
            final(self).wf(),
            final(self).0 as int == wrapped(old(self).0 as int, x as int),
    {
        self.0 = self.0 + x;
        if self.0 > 39 {
            self.0 = self.0 - 40;
        } else if self.0 < 0 {
            self.0 = self.0 + 40;
        }
    }

    /// Moves straight to space `x`.
    pub fn move_to(&mut self, x: i8)
        requires
            0 <= x < 40,
        ensures
            final(self).0 == x,
            final(self).wf(),
    {
        self.0 = x;
    }

    /// The space index.
    pub fn value(&self) -> (r: i8)
        ensures
            r == self.0,
    {
        self.0
    }
}

} // verus!
