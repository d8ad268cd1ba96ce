//! A damage-tracked render element that samples a per-output blurred
//! framebuffer, with verified change tracking and draw planning.

pub mod float_bits;
pub mod state;
pub mod element;
pub mod draw;
