use vstd::prelude::*;

verus! {

/// Net contribution of a pair of opposing keys along one axis:
/// +1 when only `plus` is held, -1 when only `minus` is held, 0 otherwise.
pub open spec fn axis(plus: bool, minus: bool) -> int {
    (if plus { 1int } else { 0int }) - (if minus { 1int } else { 0int })
}

/// A movement step on the unit grid. Screen `y` grows downward, so "down" is +1.
#[derive(Clone, Copy, Debug, PartialEq, Eq, Structural)]
pub struct Step {
    pub x: i8,
    pub y: i8,
}

impl Step {
    /// Each component is -1, 0 or 1.
    pub open spec fn wf(self) -> bool {
        &&& -1 <= self.x <= 1
        &&& -1 <= self.y <= 1
    }

    /// Whether the step has a non-zero length, i.e. the character moves at all.
    pub fn is_moving(&self) -> (r: bool)
        ensures
            r == (self.x != 0 || self.y != 0),
    {
        self.x != 0 || self.y != 0
    }
}

/// The four directional actions, each either held or not during one frame.
#[derive(Clone, Copy, Debug, PartialEq, Eq, Structural)]
pub struct MoveInput {
    pub right: bool,
    pub left: bool,
    pub down: bool,
    pub up: bool,
}

impl MoveInput {
    /// The step that the held keys ask for: right minus left along `x`,
    /// down minus up along `y`. Opposing keys cancel out.
    pub fn direction(&self) -> (r: Step)
        ensures
            r.x == axis(self.right, self.left),
            r.y == axis(self.down, self.up),
            r.wf(),
    {
        let mut x: i8 = 0;
        let mut y: i8 = 0;
        if self.right {
            x = x + 1;
        }
        if self.left {
            x = x - 1;
        }
        if self.down {
            y = y + 1;
        }
        if self.up {
            y = y - 1;
        }
        Step { x, y }
    }
}

} // verus!
