//! Low-latency multi-track audio streaming over a LAN: the verified data plane.
//!
//! Audio samples are 32-bit IEEE-754 values. This crate never computes with
//! them; it moves them, counts them and frames them, so it carries each sample
//! as the `u32` that holds its bits.

pub mod audio;
pub mod codec;
pub mod config;
pub mod constants;
pub mod error;
pub mod network;
pub mod protocol;
pub mod ratio;
pub mod text;
pub mod ui;

pub use error::Error;
