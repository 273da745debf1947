//! The control channel: messages on one topic pause and resume the frame,
//! and a lost connection is made again with growing delays, up to a bound.

pub mod backoff;
pub mod client;
