//! A verified render-and-stream core for an I2S audio backend.
//!
//! The library batches interleaved 16-bit samples pulled from a sample
//! source, reacts to pause / end-of-stream / metadata control signals
//! mid-buffer, tracks the output stage's enable state, and tells the
//! caller exactly which hardware actions to perform each iteration.

pub mod batch;
pub mod config;
pub mod device;
pub mod encode;
pub mod engine;
pub mod metrics;
pub mod signal;
pub mod source;
