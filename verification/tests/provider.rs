use exif::experimental::Writer;
use exif::{Field, In, Tag, Value};
use pi_photo_frame::config::Config;
use pi_photo_frame::photo::media::Media;
use pi_photo_frame::photo::metadata::Metadata;
use pi_photo_frame::photo::provider::{MediaError, MediaProvider, Progress};
use pi_photo_frame::photo::selector::{DirEntry, Listing};

fn config(paths: &[&str]) -> Config {
    Config { paths: paths.iter().map(|p| p.to_string()).collect(), transition_time: 2, ..Config::default() }
}

fn entry(path: &str, is_dir: bool) -> DirEntry {
    DirEntry {
        path: path.to_string(),
        file_name: path.rsplit('/').next().unwrap().to_string(),
        is_dir,
    }
}

#[test]
fn a_new_provider_runs_and_takes_three_kinds_of_photos() {
    let provider = MediaProvider::new(config(&["/photos"]));
    assert!(!provider.paused);
    assert_eq!(provider.photo_valid_extensions, vec!["jpg", "jpeg", "png"]);
    assert!(provider.video_valid_extensions.is_empty());
    assert_eq!(provider.config.paths, vec!["/photos"]);
    assert_eq!(provider.config.transition_time, 2);
}

#[test]
fn the_default_configuration_is_empty_and_not_valid() {
    let empty = Config::default();
    assert!(empty.paths.is_empty() && !empty.mqtt && !empty.reverse_geocode);
    assert!(!empty.is_valid());
    assert!(config(&[]).is_valid());
}

#[test]
fn a_paused_provider_asks_for_nothing() {
    let mut provider = MediaProvider::new(config(&["/photos"]));
    provider.set_paused(true);
    for _ in 0..50 {
        assert!(matches!(provider.get_media(), Progress::Done { outcome: Ok(None) }));
    }
    assert!(matches!(provider.get_media_at(0), Progress::Done { outcome: Ok(None) }));
    // Even without any directory the answer is the same.
    let mut bare = MediaProvider::new(config(&[]));
    bare.paused = true;
    assert!(matches!(bare.get_media(), Progress::Done { outcome: Ok(None) }));
}

#[test]
fn a_running_provider_asks_for_one_of_its_roots() {
    let provider = MediaProvider::new(config(&["/a", "/b"]));
    for _ in 0..50 {
        match provider.get_media() {
            Progress::List { directory, selector } => {
                assert!(directory == "/a" || directory == "/b");
                assert_eq!(selector.root, directory);
            }
            other => panic!("{:?}", other),
        }
    }
    match provider.get_media_at(1) {
        Progress::List { directory, .. } => assert_eq!(directory, "/b"),
        other => panic!("{:?}", other),
    }
}

#[test]
fn without_directories_nothing_is_found() {
    let provider = MediaProvider::new(config(&[]));
    assert!(matches!(
        provider.get_media(),
        Progress::Done { outcome: Err(MediaError::NotFound) }
    ));
}

#[test]
fn pausing_and_resuming() {
    let mut provider = MediaProvider::new(config(&["/a"]));
    assert!(provider.toggle_paused());
    assert!(provider.paused);
    assert!(!provider.toggle_paused());
    assert!(!provider.paused);
    provider.set_paused(true);
    provider.set_paused(true);
    assert!(provider.paused);
    provider.set_paused(false);
    assert!(matches!(provider.get_media(), Progress::List { .. }));
    assert_eq!(provider.config.paths, vec!["/a"]);
    assert_eq!(provider.photo_valid_extensions.len(), 3);
}

fn selector_of(progress: Progress) -> pi_photo_frame::photo::selector::Selector {
    match progress {
        Progress::List { selector, .. } => selector,
        other => panic!("{:?}", other),
    }
}

#[test]
fn a_photo_that_was_found_is_to_be_read() {
    let provider = MediaProvider::new(config(&["/a"]));
    let selector = selector_of(provider.get_media_at(0));
    let listing = Listing::Entries(vec![entry("/a/note.txt", false), entry("/a/Sea.JPEG", false)]);
    match provider.listed_with(selector, listing, 1) {
        Progress::Read { path } => assert_eq!(path, "/a/Sea.JPEG"),
        other => panic!("{:?}", other),
    }
}

#[test]
fn a_video_that_was_found_is_the_answer() {
    let provider = MediaProvider::with_extensions(
        config(&["/a"]),
        vec!["jpg".to_string()],
        vec!["mov".to_string(), "mp4".to_string()],
    );
    let selector = selector_of(provider.get_media_at(0));
    let listing = Listing::Entries(vec![entry("/a/Clip.MOV", false)]);
    match provider.listed_with(selector, listing, 0) {
        Progress::Done { outcome: Ok(Some(Media::Video { path })) } => {
            assert_eq!(path, "/a/Clip.MOV")
        }
        other => panic!("{:?}", other),
    }
    // Without videos in the list the same file is a miss.
    let plain = MediaProvider::new(config(&["/a"]));
    let selector = selector_of(plain.get_media_at(0));
    let listing = Listing::Entries(vec![entry("/a/Clip.MOV", false)]);
    match plain.listed_with(selector, listing, 0) {
        Progress::List { directory, selector } => {
            assert_eq!(directory, "/a");
            assert_eq!(selector.misses, 1);
        }
        other => panic!("{:?}", other),
    }
}

#[test]
fn a_directory_is_entered_and_a_dead_end_counts() {
    let provider = MediaProvider::new(config(&["/a"]));
    let selector = selector_of(provider.get_media_at(0));
    let listing = Listing::Entries(vec![entry("/a/sub", true)]);
    let selector = match provider.listed(selector, listing) {
        Progress::List { directory, selector } => {
            assert_eq!(directory, "/a/sub");
            assert_eq!((selector.misses, selector.depth), (0, 1));
            selector
        }
        other => panic!("{:?}", other),
    };
    let mut progress = provider.listed(selector, Listing::Entries(Vec::new()));
    for misses in 1..5 {
        match progress {
            Progress::List { directory, selector } => {
                assert_eq!(directory, "/a");
                assert_eq!((selector.misses, selector.depth), (misses, 0));
                progress = provider.listed(selector, Listing::Entries(Vec::new()));
            }
            other => panic!("{:?}", other),
        }
    }
    assert!(matches!(progress, Progress::Done { outcome: Err(MediaError::NotFound) }));
}

#[test]
fn a_root_that_cannot_be_read_is_an_error() {
    let provider = MediaProvider::new(config(&["/a"]));
    let selector = selector_of(provider.get_media_at(0));
    assert!(matches!(
        provider.listed(selector, Listing::Unreadable),
        Progress::Done { outcome: Err(MediaError::Unreadable) }
    ));
}

#[test]
fn a_file_that_cannot_be_read_is_an_error() {
    assert_eq!(
        format!("{:?}", MediaProvider::photo_from("/a/x.jpg".to_string(), None)),
        "Err(Unreadable)"
    );
}

#[test]
fn a_photo_without_metadata_has_orientation_zero() {
    match MediaProvider::photo_from("/a/x.png".to_string(), Some(vec![1, 2, 3])) {
        Ok(Some(Media::Photo { path, orientation, location, date })) => {
            assert_eq!(path, "/a/x.png");
            assert_eq!(orientation, 0);
            assert!(location.is_none() && date.is_none());
        }
        other => panic!("{:?}", other),
    }
}

#[test]
fn a_photo_carries_what_its_file_says() {
    let orientation = Field {
        tag: Tag::Orientation,
        ifd_num: In::PRIMARY,
        value: Value::Short(vec![8]),
    };
    let time = Field {
        tag: Tag::DateTime,
        ifd_num: In::PRIMARY,
        value: Value::Ascii(vec![b"1999:12:31 23:59:59".to_vec()]),
    };
    let mut writer = Writer::new();
    writer.push_field(&orientation);
    writer.push_field(&time);
    let mut out = std::io::Cursor::new(Vec::new());
    writer.write(&mut out, false).unwrap();
    match MediaProvider::photo_from("/a/x.jpg".to_string(), Some(out.into_inner())) {
        Ok(Some(Media::Photo { path, orientation, location, date })) => {
            assert_eq!(path, "/a/x.jpg");
            assert_eq!(orientation, 8);
            assert!(location.is_none());
            assert_eq!(date.as_deref(), Some("1999-12-31 23:59:59"));
        }
        other => panic!("{:?}", other),
    }
}

#[test]
fn describing_a_photo_moves_the_metadata_over() {
    let metadata = Metadata { orientation: 3, location: None, captured_at: Some("then".to_string()) };
    match MediaProvider::describe("/p.jpg".to_string(), metadata) {
        Media::Photo { path, orientation, location, date } => {
            assert_eq!((path.as_str(), orientation, date.as_deref()), ("/p.jpg", 3, Some("then")));
            assert!(location.is_none());
        }
        other => panic!("{:?}", other),
    }
}

#[test]
fn errors_have_messages() {
    assert_eq!(MediaError::NotFound.message(), "No valid photo found");
    assert_eq!(MediaError::Unreadable.message(), "Media could not be read");
}
