//! The words that go with a photo on the screen.

use crate::photo::media::Media;
use vstd::prelude::*;

verus! {

/// What is written beside a photo.
#[derive(Debug)]
pub struct Caption {
    /// The place where the photo was taken, or nothing.
    pub address: String,
    /// The time when the photo was taken, or nothing.
    pub date: String,
    /// The path of the file.
    pub path: String,
    /// Whether place and time are shown at all: they are where there is
    /// either.
    pub visible: bool,
}

/// The path of a photo or video.
pub open spec fn path_of(media: Media) -> String {
    match media {
        Media::Photo { path, .. } => path,
        Media::Video { path } => path,
    }
}

/// The capture time of a photo that has one.
pub open spec fn date_of(media: Media) -> Option<String> {
    match media {
        Media::Photo { date, .. } => date,
        Media::Video { .. } => None,
    }
}

impl Caption {
    /// The caption says what photo and lookup give: the address that was
    /// found, the time that was read, each empty where there is none, and
    /// the path.
    pub open spec fn describes(&self, photo: Media, address: Result<String, String>) -> bool {
        &&& self.address@ == (match address {
            Ok(place) => place@,
            Err(_) => Seq::<char>::empty(),
        })
        &&& self.date@ == (match date_of(photo) {
            Some(date) => date@,
            None => Seq::<char>::empty(),
        })
        &&& self.path == path_of(photo)
        &&& self.visible == (address.is_ok() || date_of(photo).is_some())
    }

    /// The caption of a photo with the outcome of its lookup.
    pub fn new(photo: &Media, address: &Result<String, String>) -> (caption: Self)
        ensures
            caption.describes(*photo, *address),
    {
        let (path, date): (String, Option<String>) = match photo {
            Media::Photo { path, date, .. } => (path.clone(), date.clone()),
            Media::Video { path } => (path.clone(), None),
        };
        let visible = address.is_ok() || date.is_some();
        Caption {
            address: match address {
                Ok(place) => place.clone(),
                Err(_) => String::new(),
            },
            date: match date {
                Some(date) => date,
                None => String::new(),
            },
            path,
            visible,
        }
    }
}

} // verus!
