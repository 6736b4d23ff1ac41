//! A real-time voice capture and archival pipeline.
//!
//! The library receives periodically delivered decoded audio frames from
//! potentially several simultaneous speakers, merges them into a single
//! time-aligned PCM stream while compensating for delivery gaps, and
//! serializes the result as a playable WAV file when the capture ends.

pub mod attributes;
pub mod commands;
pub mod config;
pub mod gap;
pub mod session;
pub mod tick;
pub mod timestamp;
pub mod wav;
