//! The screen and the extent of the sprite that has to stay on it.

use vstd::prelude::*;

verus! {

/// The size of the screen and of the sprite, in pixels.
///
/// A value of this type always describes a sprite that fits on the screen:
/// neither extent is negative and neither exceeds the screen's.
#[derive(Clone, Copy, Debug)]
pub struct Bounds {
    width: i32,
    height: i32,
    sprite_width: i32,
    sprite_height: i32,
}

/// The mathematical model of [`Bounds`].
pub struct BoundsView {
    pub width: int,
    pub height: int,
    pub sprite_width: int,
    pub sprite_height: int,
}

impl BoundsView {
    /// The sprite fits on the screen.
    pub open spec fn wf(self) -> bool {
        &&& 0 <= self.sprite_width <= self.width
        &&& 0 <= self.sprite_height <= self.height
    }

    /// The largest horizontal position that keeps the whole sprite on screen.
    pub open spec fn max_x(self) -> int {
        self.width - self.sprite_width
    }

    /// The largest vertical position that keeps the whole sprite on screen.
    pub open spec fn max_y(self) -> int {
        self.height - self.sprite_height
    }

    /// Whether a sprite whose top-left corner is at `(x, y)` is wholly on
    /// screen.
    pub open spec fn contains(self, x: int, y: int) -> bool {
        &&& 0 <= x <= self.max_x()
        &&& 0 <= y <= self.max_y()
    }
}

impl View for Bounds {
    type V = BoundsView;

    closed spec fn view(&self) -> BoundsView {
        BoundsView {
            width: self.width as int,
            height: self.height as int,
            sprite_width: self.sprite_width as int,
            sprite_height: self.sprite_height as int,
        }
    }
}

impl Bounds {
    /// What holds of every value of this type.
    #[verifier::type_invariant]
    pub open spec fn inv(self) -> bool {
        self@.wf()
    }

    /// Bounds for a screen of `width` by `height` pixels and a sprite of
    /// `sprite_width` by `sprite_height`, or `None` where the sprite does not
    /// fit on the screen or an extent is negative.
    pub fn new(width: i32, height: i32, sprite_width: i32, sprite_height: i32) -> (r: Option<Bounds>)
        ensures
            r is Some <==> (BoundsView {
                width: width as int,
                height: height as int,
                sprite_width: sprite_width as int,
                sprite_height: sprite_height as int,
            }).wf(),
            r matches Some(b) ==> b@ == (BoundsView {
                width: width as int,
                height: height as int,
                sprite_width: sprite_width as int,
                sprite_height: sprite_height as int,
            }),
        no_unwind
    {
        if 0 <= sprite_width && sprite_width <= width && 0 <= sprite_height && sprite_height
            <= height {
            Some(Bounds { width, height, sprite_width, sprite_height })
        } else {
            None
        }
    }

    /// The largest horizontal position that keeps the whole sprite on screen.
    pub fn max_x(&self) -> (r: i32)
        ensures
            r == self@.max_x(),
        no_unwind
    {
        proof {
            use_type_invariant(self);
        }
        self.width - self.sprite_width
    }

    /// The largest vertical position that keeps the whole sprite on screen.
    pub fn max_y(&self) -> (r: i32)
        ensures
            r == self@.max_y(),
        no_unwind
    {
        proof {
            use_type_invariant(self);
        }
        self.height - self.sprite_height
    }

    /// The limits of a well-formed value are not negative and fit in an `i32`.
    pub proof fn limits_fit(self)
        requires
            self@.wf(),
        ensures
            0 <= self@.max_x() <= i32::MAX,
            0 <= self@.max_y() <= i32::MAX,
    {
    }

    /// The screen's width.
    pub fn width(&self) -> (r: i32)
        ensures
            r == self@.width,
        no_unwind
    {
        self.width
    }

    /// The screen's height.
    pub fn height(&self) -> (r: i32)
        ensures
            r == self@.height,
        no_unwind
    {
        self.height
    }

    /// The sprite's width.
    pub fn sprite_width(&self) -> (r: i32)
        ensures
            r == self@.sprite_width,
        no_unwind
    {
        self.sprite_width
    }

    /// The sprite's height.
    pub fn sprite_height(&self) -> (r: i32)
        ensures
            r == self@.sprite_height,
        no_unwind
    {
        self.sprite_height
    }
}

} // verus!
