//! Photos and videos: how one is picked, what is read from it, and how its
//! pixels are turned upright.

pub mod caption;
pub mod extension;
pub mod media;
pub mod metadata;
pub mod orientation;
pub mod picture;
pub mod pixels;
pub mod provider;
pub mod selector;
pub mod worker;

pub use media::{Media, MediaMessage};
pub use pixels::PhotoData;
pub use provider::MediaProvider;
