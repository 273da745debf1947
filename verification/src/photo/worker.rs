//! One round of the worker that feeds the screen.
//!
//! The worker sleeps, asks the provider for media, and then follows the
//! [`Cycle`] that this module hands it: decode the photo, look its position
//! up, send the message. Each answer leads to the next step until the round
//! ends with a message to send or with a reason to send none.

use crate::config::Config;
use crate::photo::media::{Location, Media, MediaMessage};
use crate::photo::orientation::{made_upright, rotate_photo};
use crate::photo::pixels::PhotoData;
use crate::photo::provider::MediaError;
use vstd::prelude::*;

verus! {

/// The reason that stands for the address of a photo whose position was not
/// looked up.
pub const ADDRESS_NOT_SET: &'static str = "Not set";

/// Why a round ends without a message.
#[derive(Clone, Copy, Debug, PartialEq, Eq, Structural)]
pub enum Skip {
    /// The frame is paused.
    Paused,
    /// The provider found nothing or could not read.
    NoMedia(MediaError),
    /// The photo could not be decoded.
    LoadFailed,
    /// The decoded photo has no width or no height.
    Corrupted,
}

/// What the worker does next.
#[derive(Debug)]
pub enum Cycle {
    /// Decode the file of `photo` and answer with [`Worker::decoded`].
    Decode { photo: Media },
    /// Look `location` up and answer with [`Worker::resolved`].
    Resolve { photo: Media, photo_data: PhotoData, location: Location },
    /// Send `message` to the screen. The round is over.
    Send { message: MediaMessage },
    /// Send nothing. The round is over.
    Skip { reason: Skip },
}

/// The part of the configuration that the worker goes by.
#[derive(Clone, Copy, Debug, PartialEq, Eq, Structural)]
pub struct Worker {
    /// The seconds to sleep before each round.
    pub transition_time: u32,
    /// Whether positions are looked up.
    pub reverse_geocode: bool,
}

/// The orientation code of a photo.
pub open spec fn orientation_of(media: Media) -> u32 {
    match media {
        Media::Photo { orientation, .. } => orientation,
        Media::Video { .. } => 0,
    }
}

/// The position of a photo that has one.
pub open spec fn location_of(media: Media) -> Option<Location> {
    match media {
        Media::Photo { location, .. } => location,
        Media::Video { .. } => None,
    }
}

impl Worker {
    pub fn new(config: &Config) -> (worker: Self)
        ensures
            worker == (Worker {
                transition_time: config.transition_time,
                reverse_geocode: config.reverse_geocode,
            }),
    {
        Worker { transition_time: config.transition_time, reverse_geocode: config.reverse_geocode }
    }

    /// The step that follows the provider's answer: a photo is to be
    /// decoded, a video is sent as it is, and anything else ends the round.
    pub open spec fn after_media(outcome: Result<Option<Media>, MediaError>) -> Cycle {
        match outcome {
            Ok(Some(media)) => if media is Photo {
                Cycle::Decode { photo: media }
            } else {
                Cycle::Send { message: MediaMessage::Video { video: media } }
            },
            Ok(None) => Cycle::Skip { reason: Skip::Paused },
            Err(error) => Cycle::Skip { reason: Skip::NoMedia(error) },
        }
    }

    /// Takes the provider's answer.
    pub fn received(&self, outcome: Result<Option<Media>, MediaError>) -> (out: Cycle)
        ensures
            out == Worker::after_media(outcome),
    {
        match outcome {
            Ok(Some(media)) => match media {
                Media::Photo { .. } => Cycle::Decode { photo: media },
                Media::Video { .. } => Cycle::Send {
                    message: MediaMessage::Video { video: media },
                },
            },
            Ok(None) => Cycle::Skip { reason: Skip::Paused },
            Err(error) => Cycle::Skip { reason: Skip::NoMedia(error) },
        }
    }

    /// `out` is the step that follows the decoding of `photo`.
    ///
    /// Without pixels, or with pixels that have no width or no height, the
    /// round ends. Else the pixels are made upright by the photo's code, and
    /// the position is looked up where lookups are on and the photo has one;
    /// where not, the message goes out with [`ADDRESS_NOT_SET`] for an
    /// address. A video has nothing to decode and goes out as it is.
    pub open spec fn after_decoding(
        &self,
        photo: Media,
        decoded: Option<PhotoData>,
        out: Cycle,
    ) -> bool {
        match decoded {
            _ if photo is Video => out == (Cycle::Send {
                message: MediaMessage::Video { video: photo },
            }),
            None => out == (Cycle::Skip { reason: Skip::LoadFailed }),
            Some(pixels) => if !pixels.has_size() {
                out == (Cycle::Skip { reason: Skip::Corrupted })
            } else if self.reverse_geocode && location_of(photo).is_some() {
                &&& out matches Cycle::Resolve { photo: kept, photo_data, location }
                &&& kept == photo
                &&& location == location_of(photo).unwrap()
                &&& made_upright(photo_data, pixels, orientation_of(photo))
            } else {
                &&& out matches Cycle::Send {
                    message: MediaMessage::Photo { photo: kept, photo_data, address },
                }
                &&& kept == photo
                &&& made_upright(photo_data, pixels, orientation_of(photo))
                &&& address matches Err(reason)
                &&& reason@ == ADDRESS_NOT_SET@
            },
        }
    }

    /// Takes the decoded photo, or `None` where decoding failed.
    pub fn decoded(&self, photo: Media, decoded: Option<PhotoData>) -> (out: Cycle)
        ensures
            self.after_decoding(photo, decoded, out),
            out matches Cycle::Resolve { photo_data, .. } ==> photo_data.has_size(),
            out matches Cycle::Send { message: MediaMessage::Photo { photo_data, .. } }
                ==> photo_data.has_size(),
    {
        let (orientation, location): (u32, Option<Location>) = match &photo {
            Media::Photo { orientation, location, .. } => (*orientation, *location),
            Media::Video { .. } => {
                return Cycle::Send { message: MediaMessage::Video { video: photo } };
            },
        };
        let pixels = match decoded {
            None => {
                return Cycle::Skip { reason: Skip::LoadFailed };
            },
            Some(pixels) => pixels,
        };
        if !pixels.is_displayable() {
            return Cycle::Skip { reason: Skip::Corrupted };
        }
        let photo_data = rotate_photo(pixels, orientation);
        match location {
            Some(location) if self.reverse_geocode => Cycle::Resolve {
                photo,
                photo_data,
                location,
            },
            _ => Cycle::Send {
                message: MediaMessage::Photo {
                    photo,
                    photo_data,
                    address: Err(ADDRESS_NOT_SET.to_string()),
                },
            },
        }
    }

    /// Takes the outcome of the lookup. The message goes out with it,
    /// whether an address or a reason.
    pub fn resolved(photo: Media, photo_data: PhotoData, address: Result<String, String>) -> (out:
        Cycle)
        ensures
            out == (Cycle::Send { message: MediaMessage::Photo { photo, photo_data, address } }),
    {
        Cycle::Send { message: MediaMessage::Photo { photo, photo_data, address } }
    }
}

} // verus!
