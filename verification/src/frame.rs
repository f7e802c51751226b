//! The frame loop: sample the buttons, move the sprite, stage its position,
//! wait for vertical blank, commit. The waiting itself, and every access to
//! the hardware, is the caller's; the loop's state and decisions are here.

use crate::bounds::{Bounds, BoundsView};
use crate::input::{Buttons, InputSampler};
use crate::motion::{frame_stays_on_screen, Sprite, SpriteView};
use crate::render::{screen_coord, ObjectState};
use crate::sync::SyncState;
use vstd::prelude::*;

verus! {

/// The state of the frame loop: the sprite, the bounds that it moves in, the
/// button snapshot of the current frame and the synchroniser's state.
///
/// The sprite of a frame loop is always steady in its bounds, and so on
/// screen.
#[derive(Clone, Copy, Debug)]
pub struct FrameLoop {
    sprite: Sprite,
    bounds: Bounds,
    input: InputSampler,
    sync: SyncState,
}

/// The mathematical model of a [`FrameLoop`].
pub struct FrameView {
    pub sprite: SpriteView,
    pub bounds: BoundsView,
    pub buttons: Buttons,
    pub sync: SyncState,
}

impl FrameView {
    /// The bounds are well formed and the sprite is steady in them.
    pub open spec fn wf(self) -> bool {
        &&& self.bounds.wf()
        &&& self.sprite.steady(self.bounds)
    }

    /// The state after the buttons were sampled as `levels`.
    pub open spec fn sampled(self, levels: Buttons) -> FrameView {
        FrameView { buttons: levels, ..self }
    }

    /// The state after the sprite was moved by the snapshot and its new
    /// position staged.
    pub open spec fn advanced(self) -> FrameView {
        FrameView { sprite: self.sprite.after_input(self.buttons, self.bounds).staged(), ..self }
    }

    /// The state after the hardware signalled vertical blank.
    pub open spec fn signalled(self) -> FrameView {
        FrameView { sync: self.sync.signalled(), ..self }
    }

    /// The state after a commit was asked for: performed where the
    /// synchroniser permits it, and nothing changed where it does not.
    pub open spec fn committed(self) -> FrameView {
        if self.sync.permits_commit() {
            FrameView { sprite: self.sprite.committed(), sync: self.sync.settled(), ..self }
        } else {
            self
        }
    }

    /// The state after one whole frame with the buttons at `levels`.
    pub open spec fn frame(self, levels: Buttons) -> FrameView {
        self.sampled(levels).advanced().signalled().committed()
    }
}

impl View for FrameLoop {
    type V = FrameView;

    closed spec fn view(&self) -> FrameView {
        FrameView {
            sprite: self.sprite@,
            bounds: self.bounds@,
            buttons: self.input@,
            sync: self.sync,
        }
    }
}

impl FrameLoop {
    /// What holds of every value of this type.
    #[verifier::type_invariant]
    pub open spec fn inv(self) -> bool {
        self@.wf()
    }

    /// A loop for `sprite` within `bounds`, waiting for its first vertical
    /// blank with no button held down; `None` where the sprite is not steady
    /// in the bounds.
    pub fn new(sprite: Sprite, bounds: Bounds) -> (r: Option<FrameLoop>)
        ensures
            r is Some <==> sprite@.steady(bounds@),
            r matches Some(f) ==> f@ == (FrameView {
                sprite: sprite@,
                bounds: bounds@,
                buttons: Buttons::idle(),
                sync: SyncState::WaitingForVBlank,
            }) && f@.wf(),
    {
        if sprite.is_steady(&bounds) {
            proof {
                use_type_invariant(&bounds);
            }
            Some(FrameLoop { sprite, bounds, input: InputSampler::new(), sync: SyncState::new() })
        } else {
            None
        }
    }

    /// Takes the button levels read for this frame as the snapshot.
    pub fn sample(&mut self, levels: Buttons)
        ensures
            final(self)@ == old(self)@.sampled(levels),
            final(self)@.wf(),
        no_unwind
    {
        proof {
            use_type_invariant(&*self);
        }
        self.input.update(levels);
    }

    /// Moves the sprite by the snapshot, each direction under its guard, and
    /// stages the new position. Returns the staged entry, which is what the
    /// display is to be given.
    pub fn advance(&mut self) -> (staged: ObjectState)
        ensures
            final(self)@ == old(self)@.advanced(),
            final(self)@.wf(),
            staged == final(self)@.sprite.object.shadow,
        no_unwind
    {
        proof {
            use_type_invariant(&*self);
            self.bounds.limits_fit();
            frame_stays_on_screen(self.sprite@, self.input@, self.bounds@);
        }
        self.sprite.apply(self.input.snapshot(), &self.bounds);
        self.sprite.stage();
        self.sprite.object().shadow()
    }

    /// The hardware has signalled vertical blank.
    pub fn vblank(&mut self)
        ensures
            final(self)@ == old(self)@.signalled(),
            final(self)@.wf(),
        no_unwind
    {
        proof {
            use_type_invariant(&*self);
        }
        self.sync = self.sync.on_vblank();
    }

    /// Commits the staged entry if vertical blank is active, and then waits
    /// for the next one. Returns whether the commit was performed; where it
    /// was not, nothing has changed.
    pub fn commit(&mut self) -> (done: bool)
        ensures
            done == old(self)@.sync.permits_commit(),
            final(self)@ == old(self)@.committed(),
            final(self)@.wf(),
        no_unwind
    {
        proof {
            use_type_invariant(&*self);
        }
        if self.sync.commit_permitted() {
            self.sprite.commit();
            self.sync = self.sync.on_commit();
            true
        } else {
            false
        }
    }

    /// The sprite.
    pub fn sprite(&self) -> (s: Sprite)
        ensures
            s@ == self@.sprite,
        no_unwind
    {
        self.sprite
    }

    /// The bounds.
    pub fn bounds(&self) -> (b: Bounds)
        ensures
            b@ == self@.bounds,
        no_unwind
    {
        self.bounds
    }

    /// The button snapshot of the current frame.
    pub fn buttons(&self) -> (b: Buttons)
        ensures
            b == self@.buttons,
        no_unwind
    {
        self.input.snapshot()
    }

    /// The synchroniser's state.
    pub fn sync(&self) -> (s: SyncState)
        ensures
            s == self@.sync,
        no_unwind
    {
        self.sync
    }
}

/// A whole frame keeps the loop well formed: after every frame the sprite is
/// on screen, whatever buttons were held down.
pub proof fn frame_keeps_sprite_on_screen(f: FrameView, levels: Buttons)
    requires
        f.wf(),
    ensures
        f.frame(levels).wf(),
        f.frame(levels).bounds == f.bounds,
        f.bounds.contains(f.frame(levels).sprite.x, f.frame(levels).sprite.y),
{
    frame_stays_on_screen(f.sprite, levels, f.bounds);
}

/// A whole frame commits exactly once: when it ends, the live entry is the
/// staged one and shows the sprite at its new position; the loop waits for the
/// next vertical blank, and a further commit before that is refused and
/// changes nothing.
pub proof fn frame_commits_once(f: FrameView, levels: Buttons)
    ensures
        ({
            let g = f.frame(levels);
            &&& g.sprite.x == f.sprite.after_input(levels, f.bounds).x
            &&& g.sprite.y == f.sprite.after_input(levels, f.bounds).y
            &&& g.sprite.object.in_sync()
            &&& g.sprite.object.live == (ObjectState {
                x: screen_coord(g.sprite.x) as u16,
                y: screen_coord(g.sprite.y) as u16,
                visible: true,
            })
            &&& g.sync == SyncState::WaitingForVBlank
            &&& !g.sync.permits_commit()
            &&& g.committed() == g
        }),
{
}

/// A frame in which no button is held down leaves the position as it was, and
/// still commits.
pub proof fn idle_frame_keeps_position(f: FrameView)
    ensures
        f.frame(Buttons::idle()).sprite.x == f.sprite.x,
        f.frame(Buttons::idle()).sprite.y == f.sprite.y,
        f.frame(Buttons::idle()).sprite.object.in_sync(),
        f.frame(Buttons::idle()).sprite.object.live == (ObjectState {
            x: screen_coord(f.sprite.x) as u16,
            y: screen_coord(f.sprite.y) as u16,
            visible: true,
        }),
{
}

/// Without a signal from the hardware nothing reaches the display: a commit
/// asked for while the loop waits for vertical blank leaves the live entry as
/// it was.
pub proof fn no_commit_without_signal(f: FrameView)
    requires
        f.sync == SyncState::WaitingForVBlank,
    ensures
        f.committed() == f,
        f.advanced().committed().sprite.object.live == f.sprite.object.live,
{
}

} // verus!
