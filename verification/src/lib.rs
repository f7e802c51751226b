//! Frame-synchronised motion of a single sprite on a memory-mapped display.
//!
//! The crate holds the decisions of the frame loop as plain state transitions:
//! sampling the directional buttons, moving the sprite under a pre-check guard,
//! staging its coordinates, and committing them once vertical blank is active.
//! The hardware itself is driven by the program that owns the loop.

pub mod bounds;
pub mod frame;
pub mod input;
pub mod motion;
pub mod render;
pub mod sync;
pub mod unsteady;

pub use bounds::{Bounds, BoundsView};
pub use frame::{FrameLoop, FrameView};
pub use input::{Buttons, InputSampler};
pub use motion::{Direction, Sprite, SpriteView};
pub use render::{DisplayObject, DisplayView, ObjectState};
pub use sync::SyncState;
