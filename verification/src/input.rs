//! The input sampler: a per-frame snapshot of the directional buttons.

use crate::motion::Direction;
use vstd::prelude::*;

verus! {

/// The level of each directional button at one instant: `true` while the
/// button is held down. Any combination is possible, opposite directions
/// included.
#[derive(Clone, Copy, Debug, PartialEq, Eq, Structural)]
pub struct Buttons {
    pub up: bool,
    pub down: bool,
    pub left: bool,
    pub right: bool,
}

impl Buttons {
    /// No button held down.
    pub open spec fn idle() -> Buttons {
        Buttons { up: false, down: false, left: false, right: false }
    }

    /// The button for `dir` held down and no other.
    pub open spec fn only(dir: Direction) -> Buttons {
        Buttons {
            up: dir == Direction::UP,
            down: dir == Direction::DOWN,
            left: dir == Direction::LEFT,
            right: dir == Direction::RIGHT,
        }
    }

    /// Whether the button for `dir` is held down.
    pub open spec fn pressed(self, dir: Direction) -> bool {
        match dir {
            Direction::UP => self.up,
            Direction::DOWN => self.down,
            Direction::LEFT => self.left,
            Direction::RIGHT => self.right,
        }
    }

    /// No button held down.
    pub fn none() -> (b: Buttons)
        ensures
            b == Buttons::idle(),
        no_unwind
    {
        Buttons { up: false, down: false, left: false, right: false }
    }

    /// Whether the button for `dir` is held down.
    pub fn is_pressed(&self, dir: Direction) -> (r: bool)
        ensures
            r == self.pressed(dir),
        no_unwind
    {
        match dir {
            Direction::UP => self.up,
            Direction::DOWN => self.down,
            Direction::LEFT => self.left,
            Direction::RIGHT => self.right,
        }
    }
}

/// Holds the button levels as they were when the sampler was last refreshed.
///
/// Queries answer from that snapshot, not from the hardware: between two
/// refreshes every query gives the same answer.
#[derive(Clone, Copy, Debug)]
pub struct InputSampler {
    snapshot: Buttons,
}

impl View for InputSampler {
    type V = Buttons;

    closed spec fn view(&self) -> Buttons {
        self.snapshot
    }
}

impl InputSampler {
    /// A sampler whose snapshot shows no button held down.
    pub fn new() -> (s: InputSampler)
        ensures
            s@ == Buttons::idle(),
        no_unwind
    {
        InputSampler { snapshot: Buttons::none() }
    }

    /// Replaces the snapshot by the levels read for the current frame.
    pub fn update(&mut self, levels: Buttons)
        ensures
            final(self)@ == levels,
        no_unwind
    {
        self.snapshot = levels;
    }

    /// Whether the button for `dir` was held down at the last refresh.
    pub fn is_pressed(&self, dir: Direction) -> (r: bool)
        ensures
            r == self@.pressed(dir),
        no_unwind
    {
        self.snapshot.is_pressed(dir)
    }

    /// The snapshot itself.
    pub fn snapshot(&self) -> (b: Buttons)
        ensures
            b == self@,
        no_unwind
    {
        self.snapshot
    }
}

} // verus!
