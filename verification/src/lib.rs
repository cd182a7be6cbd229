//! Core of a live internet-radio broadcast engine: PCM frames are assembled,
//! stamped into Ogg/Opus packets, grouped into duration-stamped pages, paced
//! against the wall clock and fanned out through a versioned buffer, while a
//! multiplexer decides which source is on air.
//!
//! The contracts in this crate are proved by Verus. The few functions that
//! call into the `bytes` and `rand` crates are the exception: their contracts
//! are taken on trust, and their doc comments say what is claimed.
//!
//! Durations and times are whole nanoseconds. The codec, the Ogg muxer, the
//! clock and the locks are driven by the caller: the library decides, one
//! step at a time, what is to be done with them.

pub mod audio;
pub mod station;
pub mod controller;
pub mod reader;
pub mod schedule;
