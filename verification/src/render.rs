//! The render commit layer: a shadow entry that the loop stages into, and the
//! live entry that the display hardware reads.

use vstd::prelude::*;

verus! {

/// What the display knows of one object: the screen coordinates of its
/// top-left corner and whether it is drawn.
#[derive(Clone, Copy, Debug, PartialEq, Eq, Structural)]
pub struct ObjectState {
    pub x: u16,
    pub y: u16,
    pub visible: bool,
}

/// A display object: the staged entry and the hardware-visible one.
///
/// The two may differ between commits; a commit makes them equal.
#[derive(Clone, Copy, Debug)]
pub struct DisplayObject {
    shadow: ObjectState,
    live: ObjectState,
}

/// The screen coordinate that stands for position `p`: the low sixteen bits
/// of `p`, read as an unsigned number. A position from 0 to 65535 stands for
/// itself.
pub open spec fn screen_coord(p: int) -> int {
    p % 0x1_0000
}

/// Converts a position to the coordinate that the display takes.
pub fn to_screen(p: i32) -> (c: u16)
    ensures
        c == screen_coord(p as int),
    no_unwind
{
    proof {
        assert((p as u16) == (((p as u32) % 0x1_0000u32) as u16)) by (bit_vector);
        assert(p < 0i32 ==> (p as u32) == (0xffff_ffffu32 - ((-1i32 - p) as u32)))
            by (bit_vector);
    }
    #[verifier::truncate]
    (p as u16)
}

/// The mathematical model of a [`DisplayObject`].
pub struct DisplayView {
    pub shadow: ObjectState,
    pub live: ObjectState,
}

impl DisplayView {
    /// A hidden object at the origin, with nothing staged.
    pub open spec fn blank() -> DisplayView {
        let hidden = ObjectState { x: 0, y: 0, visible: false };
        DisplayView { shadow: hidden, live: hidden }
    }

    /// The pair after `(x, y)` is staged: the shadow entry is visible at
    /// `(x, y)`, the live entry is untouched.
    pub open spec fn staged(self, x: u16, y: u16) -> DisplayView {
        DisplayView { shadow: ObjectState { x, y, visible: true }, live: self.live }
    }

    /// The pair after a commit: the live entry is the shadow entry.
    pub open spec fn committed(self) -> DisplayView {
        DisplayView { shadow: self.shadow, live: self.shadow }
    }

    /// Whether the hardware shows what was last staged.
    pub open spec fn in_sync(self) -> bool {
        self.shadow == self.live
    }
}

impl View for DisplayObject {
    type V = DisplayView;

    closed spec fn view(&self) -> DisplayView {
        DisplayView { shadow: self.shadow, live: self.live }
    }
}

impl DisplayObject {
    /// A hidden object at the origin, with nothing staged.
    pub fn new() -> (d: DisplayObject)
        ensures
            d@ == DisplayView::blank(),
        no_unwind
    {
        let hidden = ObjectState { x: 0, y: 0, visible: false };
        DisplayObject { shadow: hidden, live: hidden }
    }

    /// Writes the coordinates into the shadow entry and marks it visible.
    /// The live entry keeps its value until the next commit.
    pub fn stage(&mut self, x: u16, y: u16)
        ensures
            final(self)@ == old(self)@.staged(x, y),
        no_unwind
    {
        self.shadow = ObjectState { x, y, visible: true };
    }

    /// Flushes the shadow entry to the live one.
    pub fn commit(&mut self)
        ensures
            final(self)@ == old(self)@.committed(),
        no_unwind
    {
        self.live = self.shadow;
    }

    /// The staged entry.
    pub fn shadow(&self) -> (s: ObjectState)
        ensures
            s == self@.shadow,
        no_unwind
    {
        self.shadow
    }

    /// The hardware-visible entry.
    pub fn live(&self) -> (s: ObjectState)
        ensures
            s == self@.live,
        no_unwind
    {
        self.live
    }

    /// Whether the hardware shows what was last staged.
    pub fn in_sync(&self) -> (r: bool)
        ensures
            r == self@.in_sync(),
        no_unwind
    {
        self.shadow == self.live
    }
}

/// A commit leaves the shadow and the live entry identical.
pub proof fn commit_synchronises(d: DisplayView)
    ensures
        d.committed().in_sync(),
        d.committed().live == d.shadow,
{
}

/// Committing twice with nothing staged in between changes nothing the second
/// time: the live entry, and the whole pair, stay as the first commit left them.
pub proof fn commit_idempotent(d: DisplayView)
    ensures
        d.committed().committed() == d.committed(),
        d.committed().committed().live == d.committed().live,
{
}

} // verus!
