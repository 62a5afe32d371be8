//! Frame-by-frame core of a side-scrolling arcade game: a flyer that falls
//! under gravity and jumps, obstacle pairs that scroll in from the right,
//! two tiled background layers and a score, driven by a game controller.
//!
//! All quantities are integers so that every step can be verified exactly:
//! lengths and positions are in micro-pixels, time is in milliseconds and
//! speeds are in milli-pixels per second, so that `speed * dt` is a length.

pub mod background;
pub mod bird;
pub mod game;
pub mod geometry;
pub mod pipe;
pub mod score;

pub use background::{Background, ScrollLayer};
pub use bird::{Bird, BirdPose, FlapSound};
pub use game::{FrameInput, Game, GameSound, GameState};
pub use geometry::Rect;
pub use pipe::Pipe;
pub use score::Score;
