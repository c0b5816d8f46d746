//! A side-scrolling arcade simulation: a bird that falls under gravity and
//! flaps on input, scrolling ground strips and pipe obstacles, scoring and
//! circle-against-box collision, all in integer arithmetic whose rounding
//! the contracts state.
//!
//! Units: lengths are micro-units of the game world, durations are
//! microseconds, speeds are micro-units per second and angles are
//! millionths of a degree.

pub mod geometry;
pub mod bird;
pub mod scroll_handler;
pub mod world;
