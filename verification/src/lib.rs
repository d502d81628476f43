//! Pattern rendering and interrupt-driven mode switching for an addressable
//! LED strip.
//!
//! The crate holds the decisions of a strip controller and none of its
//! hardware access: what every LED shows on every tick of every pattern, in
//! which order a tick sends, sleeps and polls, how a button interrupt becomes a
//! one-shot switch request, and which pattern follows which. A firmware binary
//! owns the peripherals, performs the actions that the engine names and hands
//! back what happened.

pub mod color;
pub mod cursor;
pub mod engine;
pub mod interrupt;
pub mod patterns;
pub mod signal;
