//! Core of a live animated-image streaming service.
//!
//! A background producer renders frames at a fixed cadence and publishes each
//! one to a single-slot latest-value channel.  Any number of independent
//! connections subscribe to that channel; each connection owns a stateful GIF
//! encoder that turns the frames it observes into a correctly framed byte
//! stream, optionally capped for clients that cannot handle unbounded bodies.

pub mod adapter;
pub mod channel;
pub mod encode;
pub mod frame;
pub mod policy;
pub mod producer;
pub mod render;
pub mod util;
