use exif::experimental::Writer;
use exif::{Field, In, Tag, Value};
use pi_photo_frame::photo::media::{Angle, Location, Rational};
use pi_photo_frame::photo::metadata::{ExifTags, Metadata, TagValue};

/// An image file in memory that holds these fields and nothing else.
fn file_with(fields: &[Field]) -> Vec<u8> {
    let mut writer = Writer::new();
    for field in fields {
        writer.push_field(field);
    }
    let mut out = std::io::Cursor::new(Vec::new());
    writer.write(&mut out, false).unwrap();
    out.into_inner()
}

fn field(tag: Tag, value: Value) -> Field {
    Field { tag, ifd_num: In::PRIMARY, value }
}

fn fractions(parts: &[(u32, u32)]) -> Value {
    Value::Rational(parts.iter().map(|&p| p.into()).collect())
}

fn angle(parts: [(u32, u32); 3]) -> Angle {
    Angle {
        degrees: Rational { num: parts[0].0, denom: parts[0].1 },
        minutes: Rational { num: parts[1].0, denom: parts[1].1 },
        seconds: Rational { num: parts[2].0, denom: parts[2].1 },
    }
}

const CLUJ_LATITUDE: [(u32, u32); 3] = [(46, 1), (46, 1), (1234, 100)];
const CLUJ_LONGITUDE: [(u32, u32); 3] = [(23, 1), (35, 1), (60, 2)];

#[test]
fn a_file_without_metadata_gives_orientation_zero_and_nothing_else() {
    let inputs: [Vec<u8>; 4] = [
        Vec::new(),
        b"not an image at all".to_vec(),
        // A picture file that starts and ends at once, with no segment between.
        vec![0xff, 0xd8, 0xff, 0xd9],
        // The start of a file in the right format, cut off.
        vec![0x4d, 0x4d, 0x00, 0x2a, 0x00],
    ];
    for bytes in inputs {
        let metadata = Metadata::extract(&bytes);
        assert_eq!(metadata.orientation, 0);
        assert!(metadata.location.is_none());
        assert!(metadata.captured_at.is_none());
    }
}

#[test]
fn orientation_position_and_time_are_read() {
    let bytes = file_with(&[
        field(Tag::Orientation, Value::Short(vec![6])),
        field(Tag::GPSLatitude, fractions(&CLUJ_LATITUDE)),
        field(Tag::GPSLongitude, fractions(&CLUJ_LONGITUDE)),
        field(Tag::DateTime, Value::Ascii(vec![b"2023:07:14 18:05:59".to_vec()])),
    ]);
    let metadata = Metadata::extract(&bytes);
    assert_eq!(metadata.orientation, 6);
    assert_eq!(
        metadata.location,
        Some(Location { latitude: angle(CLUJ_LATITUDE), longitude: angle(CLUJ_LONGITUDE) })
    );
    assert_eq!(metadata.captured_at.as_deref(), Some("2023-07-14 18:05:59"));
}

#[test]
fn metadata_without_orientation_gives_one() {
    let bytes = file_with(&[field(Tag::ImageDescription, Value::Ascii(vec![b"x".to_vec()]))]);
    let metadata = Metadata::extract(&bytes);
    assert_eq!(metadata.orientation, 1);
    assert!(metadata.location.is_none());
    assert!(metadata.captured_at.is_none());
}

#[test]
fn an_orientation_out_of_range_gives_one() {
    for value in [
        Value::Short(vec![0]),
        Value::Short(vec![9]),
        Value::Long(vec![70000]),
        Value::Short(Vec::new()),
        Value::Ascii(vec![b"6".to_vec()]),
        fractions(&[(6, 1)]),
    ] {
        let bytes = file_with(&[field(Tag::Orientation, value)]);
        assert_eq!(Metadata::extract(&bytes).orientation, 1);
    }
}

#[test]
fn every_code_from_one_to_eight_is_kept() {
    for code in 1u16..=8 {
        let bytes = file_with(&[field(Tag::Orientation, Value::Short(vec![code]))]);
        assert_eq!(Metadata::extract(&bytes).orientation, code as u32);
    }
    let bytes = file_with(&[field(Tag::Orientation, Value::Byte(vec![3]))]);
    assert_eq!(Metadata::extract(&bytes).orientation, 3);
    let bytes = file_with(&[field(Tag::Orientation, Value::Long(vec![8, 2]))]);
    assert_eq!(Metadata::extract(&bytes).orientation, 8);
}

#[test]
fn half_a_position_is_no_position() {
    let only_latitude = file_with(&[field(Tag::GPSLatitude, fractions(&CLUJ_LATITUDE))]);
    assert!(Metadata::extract(&only_latitude).location.is_none());
    let only_longitude = file_with(&[field(Tag::GPSLongitude, fractions(&CLUJ_LONGITUDE))]);
    assert!(Metadata::extract(&only_longitude).location.is_none());
}

#[test]
fn an_incomplete_angle_is_no_position() {
    for latitude in [
        fractions(&[]),
        fractions(&[(46, 1)]),
        fractions(&[(46, 1), (46, 1)]),
        Value::Short(vec![46, 46, 12]),
    ] {
        let bytes = file_with(&[
            field(Tag::GPSLatitude, latitude),
            field(Tag::GPSLongitude, fractions(&CLUJ_LONGITUDE)),
        ]);
        assert!(Metadata::extract(&bytes).location.is_none());
    }
}

#[test]
fn a_fourth_fraction_is_ignored() {
    let bytes = file_with(&[
        field(Tag::GPSLatitude, fractions(&[(1, 2), (3, 4), (5, 6), (7, 8)])),
        field(Tag::GPSLongitude, fractions(&[(9, 1), (0, 1), (0, 0)])),
    ]);
    let location = Metadata::extract(&bytes).location.unwrap();
    assert_eq!(location.latitude, angle([(1, 2), (3, 4), (5, 6)]));
    assert_eq!(location.longitude, angle([(9, 1), (0, 1), (0, 0)]));
}

#[test]
fn a_malformed_time_is_no_time() {
    for text in [
        &b"2023-07-14 18:05:59"[..],
        b"2023:07:14 18:05",
        b"2023:07:14T18:05:59",
        b"20x3:07:14 18:05:59",
        b"    :  :     :  :  ",
        b"                   ",
        b"",
    ] {
        let bytes = file_with(&[
            field(Tag::Orientation, Value::Short(vec![3])),
            field(Tag::DateTime, Value::Ascii(vec![text.to_vec()])),
        ]);
        let metadata = Metadata::extract(&bytes);
        assert!(metadata.captured_at.is_none(), "{:?}", text);
        // The rest is still read.
        assert_eq!(metadata.orientation, 3);
    }
}

#[test]
fn a_time_keeps_its_digits_and_drops_what_follows() {
    let tags = ExifTags {
        orientation: None,
        gps_latitude: None,
        gps_longitude: None,
        date_time: Some(TagValue::Ascii(vec![b"0001:99:00 24:60:61+01:00".to_vec()])),
    };
    let metadata = Metadata::from_tags(Some(tags));
    assert_eq!(metadata.captured_at.as_deref(), Some("0001-99-00 24:60:61"));
    assert_eq!(metadata.orientation, 1);
}

#[test]
fn only_the_first_text_of_a_time_counts() {
    let tags = ExifTags {
        orientation: None,
        gps_latitude: None,
        gps_longitude: None,
        date_time: Some(TagValue::Ascii(vec![
            b"garbage".to_vec(),
            b"2023:07:14 18:05:59".to_vec(),
        ])),
    };
    assert!(Metadata::from_tags(Some(tags)).captured_at.is_none());
    let empty = ExifTags {
        orientation: None,
        gps_latitude: None,
        gps_longitude: None,
        date_time: Some(TagValue::Ascii(Vec::new())),
    };
    assert!(Metadata::from_tags(Some(empty)).captured_at.is_none());
    let wrong_type = ExifTags {
        orientation: None,
        gps_latitude: None,
        gps_longitude: None,
        date_time: Some(TagValue::Other(Some(2023))),
    };
    assert!(Metadata::from_tags(Some(wrong_type)).captured_at.is_none());
}

#[test]
fn fields_are_read_from_plain_values() {
    let tags = ExifTags {
        orientation: Some(TagValue::Other(Some(8))),
        gps_latitude: Some(TagValue::Rational(vec![(1, 1), (2, 1), (3, 1)])),
        gps_longitude: Some(TagValue::Rational(vec![(4, 1), (5, 1), (6, 1)])),
        date_time: None,
    };
    let metadata = Metadata::from_tags(Some(tags));
    assert_eq!(metadata.orientation, 8);
    assert_eq!(
        metadata.location,
        Some(Location {
            latitude: angle([(1, 1), (2, 1), (3, 1)]),
            longitude: angle([(4, 1), (5, 1), (6, 1)]),
        })
    );
    let nothing = Metadata::from_tags(None);
    assert_eq!(nothing.orientation, 0);
    assert!(nothing.location.is_none() && nothing.captured_at.is_none());
}

#[test]
fn decimal_degrees_are_exact() {
    // 46 degrees, 46 minutes, 12 seconds: 46 + 46/60 + 12/3600 = 168372 / 3600.
    let whole = angle([(46, 1), (46, 1), (12, 1)]).decimal_degrees();
    assert_eq!((whole.numerator, whole.denominator), (168372, 3600));
    assert_eq!(whole.numerator as f64 / whole.denominator as f64, 46.77);
    // 1/2 + (3/4)/60 + (5/6)/3600 over 2 * 4 * 6 * 3600.
    let parts = angle([(1, 2), (3, 4), (5, 6)]).decimal_degrees();
    assert_eq!(parts.denominator, 2 * 4 * 6 * 3600);
    assert_eq!(parts.numerator, 1 * 4 * 6 * 3600 + 3 * 2 * 6 * 60 + 5 * 2 * 4);
    // The largest values do not overflow.
    let m = u32::MAX as u128;
    let most = angle([(u32::MAX, u32::MAX), (u32::MAX, u32::MAX), (u32::MAX, u32::MAX)])
        .decimal_degrees();
    assert_eq!(most.denominator, m * m * m * 3600);
    assert_eq!(most.numerator, m * m * m * 3661);
}

#[test]
fn an_angle_with_a_zero_denominator_has_none() {
    let broken = angle([(46, 1), (46, 0), (12, 1)]).decimal_degrees();
    assert_eq!(broken.denominator, 0);
}
