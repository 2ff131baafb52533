//! A small animation library for a 2D scene: fixed-point interpolation
//! lenses, easing curves, a tween driver, and the keyboard-driven rules
//! that retarget the camera zoom and the scene's vertical offset.
//!
//! All scalar quantities (scales, coordinates, color channels) are carried
//! as 64-bit integers holding millionths of a unit, so every computation
//! here is exact integer arithmetic with stated truncation.

pub mod easing;
pub mod fixed;
pub mod input;
pub mod lens;
pub mod parent;
pub mod scene;
pub mod tween;
pub mod zoom;
