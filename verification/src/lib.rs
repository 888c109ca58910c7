//! Core logic of a small 2D game for fixed-resolution sprite hardware.
//!
//! World-space positions are signed fixed-point numbers; screen-space
//! positions are integer pixels. A pure projection maps one to the other
//! given a camera position. Per frame, a step function applies directional
//! input, advances a wrapping animation counter, selects the sprite frame
//! to display, and recomputes every entity's screen position. The hardware
//! side (sprite compositor, button reads, the vertical-blank wait) lives
//! outside the library and only hands plain values in and out.

pub mod animation;
pub mod entity;
pub mod fixed;
pub mod frame;
pub mod space;

pub use fixed::FixedScalar;
pub use space::ScreenVector;
pub use space::WorldVector;
