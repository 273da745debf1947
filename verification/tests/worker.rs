use pi_photo_frame::config::Config;
use pi_photo_frame::photo::media::{Angle, Location, Media, MediaMessage, Rational};
use pi_photo_frame::photo::pixels::{Colorspace, PhotoData};
use pi_photo_frame::photo::provider::MediaError;
use pi_photo_frame::photo::worker::{Cycle, Skip, Worker, ADDRESS_NOT_SET};

fn whole(n: u32) -> Rational {
    Rational { num: n, denom: 1 }
}

fn somewhere() -> Location {
    Location {
        latitude: Angle { degrees: whole(46), minutes: whole(46), seconds: whole(12) },
        longitude: Angle { degrees: whole(23), minutes: whole(35), seconds: whole(30) },
    }
}

fn photo(orientation: u32, location: Option<Location>) -> Media {
    Media::Photo { path: "/p/a.jpg".to_string(), orientation, location, date: None }
}

/// Two pixels side by side: the left one all 1, the right one all 2.
fn pixels() -> PhotoData {
    PhotoData {
        bytes: vec![1, 1, 1, 2, 2, 2],
        colorspace: Colorspace::Rgb,
        has_alpha: false,
        width: 2,
        height: 1,
        rowstride: 6,
    }
}

fn worker(reverse_geocode: bool) -> Worker {
    Worker { transition_time: 2, reverse_geocode }
}

#[test]
fn the_worker_takes_two_fields_of_the_configuration() {
    let config = Config { transition_time: 7, reverse_geocode: true, ..Config::default() };
    assert_eq!(Worker::new(&config), Worker { transition_time: 7, reverse_geocode: true });
}

#[test]
fn a_photo_is_to_be_decoded() {
    match worker(false).received(Ok(Some(photo(6, None)))) {
        Cycle::Decode { photo: Media::Photo { path, orientation, .. } } => {
            assert_eq!((path.as_str(), orientation), ("/p/a.jpg", 6))
        }
        other => panic!("{:?}", other),
    }
}

#[test]
fn a_video_goes_out_as_it_is() {
    let video = Media::Video { path: "/p/v.mov".to_string() };
    match worker(true).received(Ok(Some(video))) {
        Cycle::Send { message: MediaMessage::Video { video: Media::Video { path } } } => {
            assert_eq!(path, "/p/v.mov")
        }
        other => panic!("{:?}", other),
    }
}

#[test]
fn a_paused_frame_and_an_error_end_the_round() {
    assert!(matches!(worker(true).received(Ok(None)), Cycle::Skip { reason: Skip::Paused }));
    assert!(matches!(
        worker(true).received(Err(MediaError::NotFound)),
        Cycle::Skip { reason: Skip::NoMedia(MediaError::NotFound) }
    ));
    assert!(matches!(
        worker(true).received(Err(MediaError::Unreadable)),
        Cycle::Skip { reason: Skip::NoMedia(MediaError::Unreadable) }
    ));
}

#[test]
fn a_photo_that_cannot_be_decoded_ends_the_round() {
    assert!(matches!(
        worker(true).decoded(photo(1, Some(somewhere())), None),
        Cycle::Skip { reason: Skip::LoadFailed }
    ));
}

#[test]
fn a_photo_without_size_never_goes_out() {
    for (width, height) in [(0, 1), (1, 0), (0, 0), (-1, 5), (5, -1), (i32::MIN, i32::MIN)] {
        let broken = PhotoData { width, height, ..pixels() };
        for geocode in [false, true] {
            assert!(matches!(
                worker(geocode).decoded(photo(6, Some(somewhere())), Some(broken_copy(&broken))),
                Cycle::Skip { reason: Skip::Corrupted }
            ));
        }
    }
}

fn broken_copy(photo: &PhotoData) -> PhotoData {
    PhotoData {
        bytes: photo.bytes.clone(),
        colorspace: photo.colorspace,
        has_alpha: photo.has_alpha,
        width: photo.width,
        height: photo.height,
        rowstride: photo.rowstride,
    }
}

#[test]
fn without_lookup_the_address_is_not_set() {
    match worker(false).decoded(photo(1, Some(somewhere())), Some(pixels())) {
        Cycle::Send { message: MediaMessage::Photo { photo, photo_data, address } } => {
            assert!(matches!(photo, Media::Photo { orientation: 1, .. }));
            assert_eq!(photo_data.bytes, pixels().bytes);
            assert_eq!(address, Err("Not set".to_string()));
            assert_eq!(ADDRESS_NOT_SET, "Not set");
        }
        other => panic!("{:?}", other),
    }
}

#[test]
fn without_position_nothing_is_looked_up() {
    assert!(matches!(
        worker(true).decoded(photo(1, None), Some(pixels())),
        Cycle::Send { message: MediaMessage::Photo { address: Err(_), .. } }
    ));
}

#[test]
fn with_lookup_and_position_the_position_is_looked_up() {
    match worker(true).decoded(photo(2, Some(somewhere())), Some(pixels())) {
        Cycle::Resolve { photo, photo_data, location } => {
            assert!(matches!(photo, Media::Photo { orientation: 2, .. }));
            assert_eq!(location, somewhere());
            // Mirrored: the pixel of 2 comes first.
            assert_eq!(photo_data.bytes, vec![2, 2, 2, 1, 1, 1]);
        }
        other => panic!("{:?}", other),
    }
}

#[test]
fn the_pixels_are_made_upright_before_they_go_out() {
    match worker(false).decoded(photo(6, None), Some(pixels())) {
        Cycle::Send { message: MediaMessage::Photo { photo_data, .. } } => {
            assert_eq!((photo_data.width, photo_data.height), (1, 2));
            assert_eq!(photo_data.bytes, vec![1, 1, 1, 2, 2, 2]);
        }
        other => panic!("{:?}", other),
    }
    match worker(false).decoded(photo(8, None), Some(pixels())) {
        Cycle::Send { message: MediaMessage::Photo { photo_data, .. } } => {
            assert_eq!((photo_data.width, photo_data.height), (1, 2));
            assert_eq!(photo_data.bytes, vec![2, 2, 2, 1, 1, 1]);
        }
        other => panic!("{:?}", other),
    }
}

#[test]
fn pixels_that_cannot_be_moved_go_out_as_they_are() {
    // The buffer is too short for its geometry, but the sides are positive.
    let short = PhotoData { bytes: vec![9, 9, 9], ..pixels() };
    match worker(false).decoded(photo(3, None), Some(short)) {
        Cycle::Send { message: MediaMessage::Photo { photo_data, .. } } => {
            assert_eq!(photo_data.bytes, vec![9, 9, 9]);
            assert_eq!((photo_data.width, photo_data.height), (2, 1));
        }
        other => panic!("{:?}", other),
    }
}

#[test]
fn the_outcome_of_the_lookup_goes_out_with_the_photo() {
    for address in [Ok("Cluj-Napoca".to_string()), Err("empty response".to_string())] {
        match Worker::resolved(photo(1, Some(somewhere())), pixels(), address.clone()) {
            Cycle::Send { message: MediaMessage::Photo { photo, photo_data, address: sent } } => {
                assert_eq!(sent, address);
                assert_eq!(photo_data.bytes, pixels().bytes);
                assert!(matches!(photo, Media::Photo { location: Some(_), .. }));
            }
            other => panic!("{:?}", other),
        }
    }
}

#[test]
fn a_video_has_nothing_to_decode() {
    for decoded in [None, Some(pixels())] {
        let video = Media::Video { path: "/p/v.mp4".to_string() };
        match worker(true).decoded(video, decoded) {
            Cycle::Send { message: MediaMessage::Video { video: Media::Video { path } } } => {
                assert_eq!(path, "/p/v.mp4")
            }
            other => panic!("{:?}", other),
        }
    }
}
