//! Verified core of an orbit-camera demo.
//!
//! The library models camera state (yaw, pitch, distance), viewport size,
//! and the construction of the perspective-projection and look-at view
//! matrices in 16.16 fixed-point arithmetic.  Window events, GPU calls and
//! the trigonometric evaluation at the edge live outside the library.

pub mod camera;
pub mod fixed;
pub mod matrix;
pub mod viewport;
