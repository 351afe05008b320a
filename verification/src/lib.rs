//! Sprite animation core: a frame clock that advances a display index
//! through an animation clip without losing time, and a selector that
//! picks which clip an actor should play from its input and motion state.
//!
//! Times are integer time units (the caller picks the resolution, for
//! example milliseconds); velocities are integers in the same fixed-point
//! scale as the configured dead-zone epsilon. Asset references are opaque
//! integer handles into the caller's rendering system.

pub mod bob;
pub mod clip;
pub mod clock;
pub mod driver;
pub mod facing;
pub mod laws;
pub mod mirror;
pub mod registry;
pub mod selector;
