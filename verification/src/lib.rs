//! A local media library index and track-queue playback engine.
//!
//! The library resolves human-facing metadata (artist, release title, track
//! title, file path) to compact identifiers and back, and drives a FIFO
//! forward queue plus a LIFO play history through skip, back-skip and
//! end-of-track polling.

pub mod engine;
pub mod library;
pub mod queue;
