//! A verified core for a screen recording and live-streaming tool.
//!
//! The library models a capture-pace-deliver pipeline: a validated
//! recording configuration is turned into an ordered argument list for an
//! external encoder process, frames are paced at a target interval, and a
//! supervisor state machine tracks the encoder subprocess's lifecycle.
//! All I/O (spawning the encoder, capturing frames, logging) lives outside
//! this crate; the logic here is pure and carries contracts.

pub mod builder;
pub mod capture;
pub mod config;
pub mod encoder;
pub mod error;
pub mod pacing;
pub mod stats;
pub mod strutil;
pub mod supervisor;
