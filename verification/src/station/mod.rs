//! The encode, pace and buffer stages of the broadcast.

pub mod buffer;
pub mod codec;
pub mod pump;
pub mod streamer;
