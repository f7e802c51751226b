//! The motion model: a sprite with a position and a fixed velocity, moved one
//! axis at a time and kept on screen by a guard that is asked before each move.

use crate::bounds::{Bounds, BoundsView};
use crate::input::Buttons;
use crate::render::{screen_coord, to_screen, DisplayObject, DisplayView};
use vstd::arithmetic::div_mod::{lemma_mod_add_multiples_vanish, lemma_mod_sub_multiples_vanish};
use vstd::prelude::*;

verus! {

/// A direction of movement on the screen. The origin is the top-left corner:
/// `UP` lowers `y`, `LEFT` lowers `x`.
#[derive(Clone, Copy, Debug, PartialEq, Eq, Structural)]
pub enum Direction {
    UP,
    DOWN,
    LEFT,
    RIGHT,
}

/// The moving entity: its position, its velocity in pixels per frame (the same
/// on both axes) and the display object that shows it.
#[derive(Clone, Copy, Debug)]
pub struct Sprite {
    x: i32,
    y: i32,
    velocity: i32,
    object: DisplayObject,
}

/// The mathematical model of a [`Sprite`].
pub struct SpriteView {
    pub x: int,
    pub y: int,
    pub velocity: int,
    pub object: DisplayView,
}

/// Whether position `p` on one axis is on screen and stays there under every
/// sequence of guarded moves of `v` pixels, where `max` is the largest
/// position on that axis.
///
/// The guard only asks whether the sprite is at a limit already. A move from a
/// position short of the limit by less than `v` would overshoot it, so the
/// position and the limit both have to lie on the grid of multiples of `v`.
/// A sprite that cannot move at all, because its velocity is zero or because
/// the axis has room for one position only, is steady wherever it is on
/// screen.
pub open spec fn axis_steady(p: int, v: int, max: int) -> bool {
    &&& 0 <= p <= max
    &&& v == 0 || max == 0 || (v > 0 && p % v == 0 && max % v == 0)
}

impl SpriteView {
    /// The sprite after one update in direction `dir`: the velocity is
    /// subtracted from or added to the one axis that `dir` names.
    pub open spec fn moved(self, dir: Direction) -> SpriteView {
        match dir {
            Direction::LEFT => SpriteView { x: self.x - self.velocity, ..self },
            Direction::RIGHT => SpriteView { x: self.x + self.velocity, ..self },
            Direction::UP => SpriteView { y: self.y - self.velocity, ..self },
            Direction::DOWN => SpriteView { y: self.y + self.velocity, ..self },
        }
    }

    /// Whether both coordinates can be held in an `i32`.
    pub open spec fn representable(self) -> bool {
        &&& i32::MIN <= self.x <= i32::MAX
        &&& i32::MIN <= self.y <= i32::MAX
    }

    /// The guard: whether the sprite is not yet at the limit that lies in
    /// direction `dir`.
    pub open spec fn may_move(self, dir: Direction, bounds: BoundsView) -> bool {
        match dir {
            Direction::UP => self.y > 0,
            Direction::DOWN => self.y < bounds.max_y(),
            Direction::LEFT => self.x > 0,
            Direction::RIGHT => self.x < bounds.max_x(),
        }
    }

    /// The sprite after a guarded move: moved where the guard allows it,
    /// unchanged where it does not.
    pub open spec fn guarded(self, dir: Direction, bounds: BoundsView) -> SpriteView {
        if self.may_move(dir, bounds) {
            self.moved(dir)
        } else {
            self
        }
    }

    /// The sprite after the button for `dir` has had its turn: a guarded move
    /// if the button is held down, nothing otherwise.
    pub open spec fn turn(self, buttons: Buttons, dir: Direction, bounds: BoundsView) -> SpriteView {
        if buttons.pressed(dir) {
            self.guarded(dir, bounds)
        } else {
            self
        }
    }

    /// The sprite after one frame's input: each direction has its turn, in the
    /// order up, down, left, right. Opposite buttons held together both take
    /// effect, each under its own guard.
    pub open spec fn after_input(self, buttons: Buttons, bounds: BoundsView) -> SpriteView {
        self.turn(buttons, Direction::UP, bounds).turn(buttons, Direction::DOWN, bounds).turn(
            buttons,
            Direction::LEFT,
            bounds,
        ).turn(buttons, Direction::RIGHT, bounds)
    }

    /// Whether every position that the sprite passes through during one
    /// frame's input can be held in an `i32`.
    pub open spec fn input_representable(self, buttons: Buttons, bounds: BoundsView) -> bool {
        let a = self.turn(buttons, Direction::UP, bounds);
        let b = a.turn(buttons, Direction::DOWN, bounds);
        let c = b.turn(buttons, Direction::LEFT, bounds);
        let d = c.turn(buttons, Direction::RIGHT, bounds);
        a.representable() && b.representable() && c.representable() && d.representable()
    }

    /// The sprite after a run of frames, one element of `inputs` per frame.
    pub open spec fn after_frames(self, inputs: Seq<Buttons>, bounds: BoundsView) -> SpriteView
        decreases inputs.len(),
    {
        if inputs.len() == 0 {
            self
        } else {
            self.after_frames(inputs.drop_last(), bounds).after_input(inputs.last(), bounds)
        }
    }

    /// The sprite with its position staged into the shadow entry of its
    /// display object.
    pub open spec fn staged(self) -> SpriteView {
        SpriteView {
            object: self.object.staged(screen_coord(self.x) as u16, screen_coord(self.y) as u16),
            ..self
        }
    }

    /// The sprite with its display object committed.
    pub open spec fn committed(self) -> SpriteView {
        SpriteView { object: self.object.committed(), ..self }
    }

    /// Whether the sprite is on screen and stays there under every input:
    /// both axes are steady.
    pub open spec fn steady(self, bounds: BoundsView) -> bool {
        &&& axis_steady(self.x, self.velocity, bounds.max_x())
        &&& axis_steady(self.y, self.velocity, bounds.max_y())
    }
}

impl View for Sprite {
    type V = SpriteView;

    closed spec fn view(&self) -> SpriteView {
        SpriteView {
            x: self.x as int,
            y: self.y as int,
            velocity: self.velocity as int,
            object: self.object@,
        }
    }
}

/// The executable form of [`axis_steady`].
fn axis_is_steady(p: i32, v: i32, max: i32) -> (r: bool)
    ensures
        r == axis_steady(p as int, v as int, max as int),
{
    if p < 0 || p > max {
        false
    } else if v == 0 || max == 0 {
        true
    } else if v < 0 {
        false
    } else {
        p % v == 0 && max % v == 0
    }
}

impl Sprite {
    /// A sprite at `(x, y)` that moves `velocity` pixels per frame. Its
    /// display object starts hidden, with nothing staged.
    pub fn new(x: i32, y: i32, velocity: i32) -> (s: Sprite)
        ensures
            s@ == (SpriteView {
                x: x as int,
                y: y as int,
                velocity: velocity as int,
                object: DisplayView::blank(),
            }),
        no_unwind
    {
        Sprite { x, y, velocity, object: DisplayObject::new() }
    }

    /// Moves the sprite by its velocity along the axis of `dir`, without
    /// looking at any boundary.
    pub fn update_pos(&mut self, dir: Direction)
        requires
            old(self)@.moved(dir).representable(),
        ensures
            final(self)@ == old(self)@.moved(dir),
        no_unwind
    {
        match dir {
            Direction::LEFT => self.x -= self.velocity,
            Direction::RIGHT => self.x += self.velocity,
            Direction::UP => self.y -= self.velocity,
            Direction::DOWN => self.y += self.velocity,
        }
    }

    /// The guard to ask before a move: whether the sprite is not yet at the
    /// limit that lies in direction `dir`.
    pub fn can_move(&self, dir: Direction, bounds: &Bounds) -> (r: bool)
        ensures
            r == self@.may_move(dir, bounds@),
        no_unwind
    {
        match dir {
            Direction::UP => self.y > 0,
            Direction::DOWN => self.y < bounds.max_y(),
            Direction::LEFT => self.x > 0,
            Direction::RIGHT => self.x < bounds.max_x(),
        }
    }

    /// Asks the guard and moves the sprite if it allows. Returns whether the
    /// sprite moved.
    pub fn try_move(&mut self, dir: Direction, bounds: &Bounds) -> (moved: bool)
        requires
            old(self)@.guarded(dir, bounds@).representable(),
        ensures
            moved == old(self)@.may_move(dir, bounds@),
            final(self)@ == old(self)@.guarded(dir, bounds@),
        no_unwind
    {
        if self.can_move(dir, bounds) {
            self.update_pos(dir);
            true
        } else {
            false
        }
    }

    /// Applies one frame's input: a guarded move for each button held down, in
    /// the order up, down, left, right.
    pub fn apply(&mut self, buttons: Buttons, bounds: &Bounds)
        requires
            old(self)@.input_representable(buttons, bounds@),
        ensures
            final(self)@ == old(self)@.after_input(buttons, bounds@),
        no_unwind
    {
        if buttons.is_pressed(Direction::UP) {
            self.try_move(Direction::UP, bounds);
        }
        if buttons.is_pressed(Direction::DOWN) {
            self.try_move(Direction::DOWN, bounds);
        }
        if buttons.is_pressed(Direction::LEFT) {
            self.try_move(Direction::LEFT, bounds);
        }
        if buttons.is_pressed(Direction::RIGHT) {
            self.try_move(Direction::RIGHT, bounds);
        }
    }

    /// Stages the sprite's position into the shadow entry of its display
    /// object and marks it visible.
    pub fn stage(&mut self)
        ensures
            final(self)@ == old(self)@.staged(),
        no_unwind
    {
        let x = to_screen(self.x);
        let y = to_screen(self.y);
        self.object.stage(x, y);
    }

    /// Flushes the staged entry of the display object to the live one.
    pub fn commit(&mut self)
        ensures
            final(self)@ == old(self)@.committed(),
        no_unwind
    {
        self.object.commit();
    }

    /// Whether the sprite is on screen and stays there under every input.
    pub fn is_steady(&self, bounds: &Bounds) -> (r: bool)
        ensures
            r == self@.steady(bounds@),
    {
        axis_is_steady(self.x, self.velocity, bounds.max_x()) && axis_is_steady(
            self.y,
            self.velocity,
            bounds.max_y(),
        )
    }

    /// The horizontal position.
    pub fn x(&self) -> (r: i32)
        ensures
            r == self@.x,
        no_unwind
    {
        self.x
    }

    /// The vertical position.
    pub fn y(&self) -> (r: i32)
        ensures
            r == self@.y,
        no_unwind
    {
        self.y
    }

    /// The velocity, in pixels per frame.
    pub fn velocity(&self) -> (r: i32)
        ensures
            r == self@.velocity,
        no_unwind
    {
        self.velocity
    }

    /// The display object that shows the sprite.
    pub fn object(&self) -> (d: DisplayObject)
        ensures
            d@ == self@.object,
        no_unwind
    {
        self.object
    }
}

/// On the grid of multiples of `v`, a position above zero is at least `v`, and a
/// position below the limit is at least `v` short of it; a step of `v` either
/// way lands on the grid again.
proof fn grid_step(p: int, v: int, max: int)
    requires
        v > 0,
        p % v == 0,
        max % v == 0,
    ensures
        p > 0 ==> p - v >= 0,
        p < max ==> p + v <= max,
        (p - v) % v == 0,
        (p + v) % v == 0,
{
    assert(p > 0 ==> p - v >= 0) by (nonlinear_arith)
        requires
            v > 0,
            p % v == 0,
    ;
    assert(p < max ==> p + v <= max) by (nonlinear_arith)
        requires
            v > 0,
            p % v == 0,
            max % v == 0,
    ;
    lemma_mod_sub_multiples_vanish(p, v);
    lemma_mod_add_multiples_vanish(p, v);
    assert(p - v == -v + p);
    assert(p + v == v + p);
}

/// A guarded move changes the position by exactly the velocity, on the axis of
/// its direction alone, and only where the guard allows it: up and left
/// subtract the velocity, down and right add it; the other axis, the velocity
/// and the display object stay as they are.
pub proof fn guarded_move_is_exact(s: SpriteView, dir: Direction, bounds: BoundsView)
    ensures
        s.guarded(dir, bounds).velocity == s.velocity,
        s.guarded(dir, bounds).object == s.object,
        s.may_move(dir, bounds) ==> match dir {
            Direction::UP => s.guarded(dir, bounds).y == s.y - s.velocity && s.guarded(
                dir,
                bounds,
            ).x == s.x,
            Direction::DOWN => s.guarded(dir, bounds).y == s.y + s.velocity && s.guarded(
                dir,
                bounds,
            ).x == s.x,
            Direction::LEFT => s.guarded(dir, bounds).x == s.x - s.velocity && s.guarded(
                dir,
                bounds,
            ).y == s.y,
            Direction::RIGHT => s.guarded(dir, bounds).x == s.x + s.velocity && s.guarded(
                dir,
                bounds,
            ).y == s.y,
        },
{
}

/// A direction whose guard is false, because the sprite is at that limit
/// already, leaves the sprite as it is.
pub proof fn blocked_move_changes_nothing(s: SpriteView, dir: Direction, bounds: BoundsView)
    requires
        !s.may_move(dir, bounds),
    ensures
        s.guarded(dir, bounds) == s,
{
}

/// A button held down at a limit leaves its axis unchanged for that frame
/// where the opposite button is not held down too.
pub proof fn blocked_button_leaves_axis(s: SpriteView, buttons: Buttons, bounds: BoundsView)
    ensures
        buttons.up && !buttons.down && !s.may_move(Direction::UP, bounds) ==> s.after_input(
            buttons,
            bounds,
        ).y == s.y,
        buttons.down && !buttons.up && !s.may_move(Direction::DOWN, bounds) ==> s.after_input(
            buttons,
            bounds,
        ).y == s.y,
        buttons.left && !buttons.right && !s.may_move(Direction::LEFT, bounds) ==> s.after_input(
            buttons,
            bounds,
        ).x == s.x,
        buttons.right && !buttons.left && !s.may_move(Direction::RIGHT, bounds) ==> s.after_input(
            buttons,
            bounds,
        ).x == s.x,
{
}

/// In one frame each axis changes by the velocity once at most: by minus the
/// velocity, by nothing, or by plus the velocity. An axis none of whose
/// buttons is held down does not change. Velocity and display object stay as
/// they are.
pub proof fn frame_moves_each_axis_once(s: SpriteView, buttons: Buttons, bounds: BoundsView)
    ensures
        ({
            let t = s.after_input(buttons, bounds);
            &&& t.velocity == s.velocity
            &&& t.object == s.object
            &&& t.x == s.x - s.velocity || t.x == s.x || t.x == s.x + s.velocity
            &&& t.y == s.y - s.velocity || t.y == s.y || t.y == s.y + s.velocity
            &&& !buttons.left && !buttons.right ==> t.x == s.x
            &&& !buttons.up && !buttons.down ==> t.y == s.y
        }),
{
}

/// What one frame does to each axis, button by button: the button towards
/// zero takes effect if it is held down and the position is above zero; the
/// button towards the limit then takes effect if it is held down and the
/// position that the first one left is below the limit.
pub proof fn frame_is_exact(s: SpriteView, buttons: Buttons, bounds: BoundsView)
    ensures
        ({
            let t = s.after_input(buttons, bounds);
            let y1 = if buttons.up && s.y > 0 {
                s.y - s.velocity
            } else {
                s.y
            };
            let x1 = if buttons.left && s.x > 0 {
                s.x - s.velocity
            } else {
                s.x
            };
            &&& t.y == if buttons.down && y1 < bounds.max_y() {
                y1 + s.velocity
            } else {
                y1
            }
            &&& t.x == if buttons.right && x1 < bounds.max_x() {
                x1 + s.velocity
            } else {
                x1
            }
        }),
{
}

/// A frame in which no button is held down changes nothing.
pub proof fn idle_frame_changes_nothing(s: SpriteView, bounds: BoundsView)
    ensures
        s.after_input(Buttons::idle(), bounds) == s,
{
}

/// Any number of frames in which no button is held down change nothing.
pub proof fn idle_frames_change_nothing(s: SpriteView, inputs: Seq<Buttons>, bounds: BoundsView)
    requires
        forall|i: int| 0 <= i < inputs.len() ==> inputs[i] == Buttons::idle(),
    ensures
        s.after_frames(inputs, bounds) == s,
    decreases inputs.len(),
{
    if inputs.len() > 0 {
        idle_frames_change_nothing(s, inputs.drop_last(), bounds);
    }
}

/// A steady sprite is wholly on screen.
pub proof fn steady_is_on_screen(s: SpriteView, bounds: BoundsView)
    requires
        s.steady(bounds),
    ensures
        bounds.contains(s.x, s.y),
        0 <= s.x <= bounds.width - bounds.sprite_width,
        0 <= s.y <= bounds.height - bounds.sprite_height,
{
}

/// A guarded move keeps a steady sprite steady, and so on screen: after an
/// update up or down the vertical position lies between zero and the screen's
/// height less the sprite's, and likewise for left and right with the widths.
pub proof fn guarded_move_stays_on_screen(s: SpriteView, dir: Direction, bounds: BoundsView)
    requires
        s.steady(bounds),
    ensures
        s.guarded(dir, bounds).steady(bounds),
        bounds.contains(s.guarded(dir, bounds).x, s.guarded(dir, bounds).y),
{
    if s.velocity > 0 {
        grid_step(s.x, s.velocity, bounds.max_x());
        grid_step(s.y, s.velocity, bounds.max_y());
    }
}

/// One frame's input keeps a steady sprite steady, whatever buttons are held
/// down, and no position that it passes through leaves the screen or, where
/// the limits fit in an `i32`, the range of an `i32`.
pub proof fn frame_stays_on_screen(s: SpriteView, buttons: Buttons, bounds: BoundsView)
    requires
        s.steady(bounds),
    ensures
        s.after_input(buttons, bounds).steady(bounds),
        bounds.contains(s.after_input(buttons, bounds).x, s.after_input(buttons, bounds).y),
        bounds.max_x() <= i32::MAX && bounds.max_y() <= i32::MAX ==> s.input_representable(
            buttons,
            bounds,
        ),
{
    let a = s.turn(buttons, Direction::UP, bounds);
    guarded_move_stays_on_screen(s, Direction::UP, bounds);
    let b = a.turn(buttons, Direction::DOWN, bounds);
    guarded_move_stays_on_screen(a, Direction::DOWN, bounds);
    let c = b.turn(buttons, Direction::LEFT, bounds);
    guarded_move_stays_on_screen(b, Direction::LEFT, bounds);
    guarded_move_stays_on_screen(c, Direction::RIGHT, bounds);
}

/// A steady sprite is on screen after every frame of every run of inputs.
pub proof fn frames_stay_on_screen(s: SpriteView, inputs: Seq<Buttons>, bounds: BoundsView)
    requires
        s.steady(bounds),
    ensures
        s.after_frames(inputs, bounds).steady(bounds),
        bounds.contains(s.after_frames(inputs, bounds).x, s.after_frames(inputs, bounds).y),
    decreases inputs.len(),
{
    if inputs.len() > 0 {
        frames_stay_on_screen(s, inputs.drop_last(), bounds);
        frame_stays_on_screen(
            s.after_frames(inputs.drop_last(), bounds),
            inputs.last(),
            bounds,
        );
    }
}

/// Staging and committing do not move the sprite.
pub proof fn rendering_keeps_position(s: SpriteView)
    ensures
        s.staged().x == s.x && s.staged().y == s.y && s.staged().velocity == s.velocity,
        s.committed().x == s.x && s.committed().y == s.y && s.committed().velocity == s.velocity,
{
}

} // verus!
