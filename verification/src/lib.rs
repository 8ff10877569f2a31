//! Drives one WS2812-class RGB LED through a randomised colour fade.
//!
//! The crate holds the two halves of the animation that can be reasoned
//! about without hardware: the translation of a packed 24-bit colour into
//! the pulse codes of the one-wire protocol, and the discrete-time fade
//! that decides which colour each frame shows.

pub mod animation;
pub mod color;
pub mod fade;
pub mod pulse;
