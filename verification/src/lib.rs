//! Core of a digital photo frame: picks media at random from a set of
//! directories, reads orientation, position and capture time from each photo,
//! turns the pixels upright, and keeps a pause flag that a control channel
//! with bounded reconnection can flip.
//!
//! Everything here works on plain values. Reading directories and files,
//! decoding images, talking to the network and sleeping are left to the
//! caller, who performs what the state machines of this crate request and
//! hands back what happened.

pub mod config;
pub mod control;
pub mod geocoder;
pub mod photo;
mod random;
pub mod text;
