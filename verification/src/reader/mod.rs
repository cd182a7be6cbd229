//! Sources of PCM audio and the arbitration between them.

pub mod decoder;
pub mod multiplex;
