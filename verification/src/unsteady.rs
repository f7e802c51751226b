//! Why steadiness asks for what it does: a sprite that is not steady can be
//! driven off the screen, so no weaker condition keeps it on screen under
//! every input.

use crate::bounds::BoundsView;
use crate::input::Buttons;
use crate::motion::{axis_steady, Direction, SpriteView};
use vstd::arithmetic::div_mod::{
    lemma_mod_add_multiples_vanish, lemma_mod_sub_multiples_vanish, lemma_small_mod,
};
use vstd::prelude::*;

verus! {

/// A run of `n` frames with the same buttons held down.
pub open spec fn held(buttons: Buttons, n: nat) -> Seq<Buttons> {
    Seq::new(n, |i: int| buttons)
}

/// The direction towards the limit on the axis of `dir`.
pub open spec fn forth(dir: Direction) -> Direction {
    match dir {
        Direction::LEFT | Direction::RIGHT => Direction::RIGHT,
        Direction::UP | Direction::DOWN => Direction::DOWN,
    }
}

/// The direction towards zero on the axis of `dir`.
pub open spec fn back(dir: Direction) -> Direction {
    match dir {
        Direction::LEFT | Direction::RIGHT => Direction::LEFT,
        Direction::UP | Direction::DOWN => Direction::UP,
    }
}

/// The sprite's position on the axis of `dir`.
pub open spec fn along(s: SpriteView, dir: Direction) -> int {
    match dir {
        Direction::LEFT | Direction::RIGHT => s.x,
        Direction::UP | Direction::DOWN => s.y,
    }
}

/// The largest on-screen position on the axis of `dir`.
pub open spec fn limit(bounds: BoundsView, dir: Direction) -> int {
    match dir {
        Direction::LEFT | Direction::RIGHT => bounds.max_x(),
        Direction::UP | Direction::DOWN => bounds.max_y(),
    }
}

/// Whether the sprite is off the screen on the axis of `dir`.
pub open spec fn off_axis(s: SpriteView, dir: Direction, bounds: BoundsView) -> bool {
    along(s, dir) < 0 || along(s, dir) > limit(bounds, dir)
}

/// A run that holds the same buttons can be taken one frame at a time from its
/// start.
proof fn held_unfolds(s: SpriteView, buttons: Buttons, n: nat, bounds: BoundsView)
    ensures
        s.after_frames(held(buttons, n + 1), bounds) == s.after_input(buttons, bounds).after_frames(
            held(buttons, n),
            bounds,
        ),
    decreases n,
{
    let first = s.after_input(buttons, bounds);
    assert(held(buttons, n + 1).drop_last() =~= held(buttons, n));
    assert(held(buttons, n + 1).last() == buttons);
    assert(s.after_frames(held(buttons, n + 1), bounds) == s.after_frames(
        held(buttons, n),
        bounds,
    ).after_input(buttons, bounds));
    if n == 0 {
        assert(s.after_frames(held(buttons, 0), bounds) == s);
        assert(first.after_frames(held(buttons, 0), bounds) == first);
    } else {
        held_unfolds(s, buttons, (n - 1) as nat, bounds);
        assert(held(buttons, n).drop_last() =~= held(buttons, (n - 1) as nat));
        assert(held(buttons, n).last() == buttons);
        assert(first.after_frames(held(buttons, n), bounds) == first.after_frames(
            held(buttons, (n - 1) as nat),
            bounds,
        ).after_input(buttons, bounds));
    }
}

/// Off the grid of its velocity, a sprite that is steered towards zero steps
/// over zero. Returns the number of frames that it takes.
proof fn steps_below_zero(s: SpriteView, dir: Direction, bounds: BoundsView) -> (n: nat)
    requires
        dir == back(dir),
        s.velocity > 0,
        along(s, dir) >= 0,
        along(s, dir) % s.velocity != 0,
    ensures
        off_axis(s.after_frames(held(Buttons::only(dir), n), bounds), dir, bounds),
    decreases along(s, dir),
{
    let buttons = Buttons::only(dir);
    let next = s.after_input(buttons, bounds);
    assert(along(s, dir) != 0) by {
        lemma_small_mod(0, s.velocity as nat);
    }
    assert(along(next, dir) == along(s, dir) - s.velocity);
    if along(next, dir) < 0 {
        held_unfolds(s, buttons, 0, bounds);
        1
    } else {
        lemma_mod_sub_multiples_vanish(along(s, dir), s.velocity);
        assert(along(s, dir) - s.velocity == -s.velocity + along(s, dir));
        let m = steps_below_zero(next, dir, bounds);
        held_unfolds(s, buttons, m, bounds);
        m + 1
    }
}

/// On the grid of its velocity, a sprite that is steered towards a limit off
/// that grid steps over the limit. Returns the number of frames that it takes.
proof fn steps_over_limit(s: SpriteView, dir: Direction, bounds: BoundsView) -> (n: nat)
    requires
        dir == forth(dir),
        s.velocity > 0,
        along(s, dir) <= limit(bounds, dir),
        along(s, dir) % s.velocity == 0,
        limit(bounds, dir) % s.velocity != 0,
    ensures
        off_axis(s.after_frames(held(Buttons::only(dir), n), bounds), dir, bounds),
    decreases limit(bounds, dir) - along(s, dir),
{
    let buttons = Buttons::only(dir);
    let next = s.after_input(buttons, bounds);
    assert(along(s, dir) != limit(bounds, dir));
    assert(along(next, dir) == along(s, dir) + s.velocity);
    if along(next, dir) > limit(bounds, dir) {
        held_unfolds(s, buttons, 0, bounds);
        1
    } else {
        lemma_mod_add_multiples_vanish(along(s, dir), s.velocity);
        assert(along(s, dir) + s.velocity == s.velocity + along(s, dir));
        let m = steps_over_limit(next, dir, bounds);
        held_unfolds(s, buttons, m, bounds);
        m + 1
    }
}

/// With a negative velocity, a sprite above zero that is steered towards zero
/// runs the other way and over the limit. Returns the number of frames that
/// it takes.
proof fn runs_over_limit(s: SpriteView, dir: Direction, bounds: BoundsView) -> (n: nat)
    requires
        dir == back(dir),
        s.velocity < 0,
        0 < along(s, dir) <= limit(bounds, dir),
    ensures
        off_axis(s.after_frames(held(Buttons::only(dir), n), bounds), dir, bounds),
    decreases limit(bounds, dir) - along(s, dir),
{
    let buttons = Buttons::only(dir);
    let next = s.after_input(buttons, bounds);
    assert(along(next, dir) == along(s, dir) - s.velocity);
    if along(next, dir) > limit(bounds, dir) {
        held_unfolds(s, buttons, 0, bounds);
        1
    } else {
        let m = runs_over_limit(next, dir, bounds);
        held_unfolds(s, buttons, m, bounds);
        m + 1
    }
}

/// A sprite that is on screen on the axis of `dir` and not steady there
/// leaves the screen on that axis under some run of inputs, which is
/// returned.
proof fn leaves_axis(s: SpriteView, dir: Direction, bounds: BoundsView) -> (inputs: Seq<Buttons>)
    requires
        !off_axis(s, dir, bounds),
        !axis_steady(along(s, dir), s.velocity, limit(bounds, dir)),
    ensures
        off_axis(s.after_frames(inputs, bounds), dir, bounds),
{
    let p = along(s, dir);
    if s.velocity < 0 {
        if p > 0 {
            let n = runs_over_limit(s, back(dir), bounds);
            held(Buttons::only(back(dir)), n)
        } else {
            let buttons = Buttons::only(forth(dir));
            assert(along(s.after_input(buttons, bounds), dir) == s.velocity);
            held_unfolds(s, buttons, 0, bounds);
            held(buttons, 1)
        }
    } else if p % s.velocity != 0 {
        let n = steps_below_zero(s, back(dir), bounds);
        held(Buttons::only(back(dir)), n)
    } else {
        let n = steps_over_limit(s, forth(dir), bounds);
        held(Buttons::only(forth(dir)), n)
    }
}

/// Steadiness is as weak as it can be: a sprite that is not steady is off the
/// screen already, or leaves it under the run of inputs that this proof
/// returns.
pub proof fn unsteady_sprite_leaves_screen(s: SpriteView, bounds: BoundsView) -> (inputs: Seq<
    Buttons,
>)
    requires
        !s.steady(bounds),
    ensures
        !bounds.contains(s.after_frames(inputs, bounds).x, s.after_frames(inputs, bounds).y),
{
    if !bounds.contains(s.x, s.y) {
        Seq::empty()
    } else if !axis_steady(s.x, s.velocity, bounds.max_x()) {
        leaves_axis(s, Direction::LEFT, bounds)
    } else {
        leaves_axis(s, Direction::UP, bounds)
    }
}

} // verus!
