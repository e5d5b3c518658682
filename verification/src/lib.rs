//! A verified model of a 2D sprite draw pass.
//!
//! The pass is configured once (transparency, optional shader override),
//! compiled once into an effect description, and then applied once per frame
//! to produce the exact sequence of draw calls for the visible sprites.

pub mod bundle;
pub mod draw;
pub mod effect;
pub mod frame;
pub mod laws;
pub mod pass;
