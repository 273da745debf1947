//! What a photo says of itself: how it is to be turned, where it was taken
//! and when.

use crate::photo::media::{Angle, Location, Rational};
use exif::{In, Reader, Tag, Value};
use std::io::Cursor;
use vstd::prelude::*;

verus! {

/// The value of one field of a photo's metadata, as far as this crate reads
/// it.
#[derive(Clone, Debug)]
pub enum TagValue {
    /// Unsigned fractions, each as numerator and denominator.
    Rational(Vec<(u32, u32)>),
    /// Texts of bytes, without the closing zero.
    Ascii(Vec<Vec<u8>>),
    /// A value of any other type, with its first number where the type is one
    /// of unsigned whole numbers and the value is not empty.
    Other(Option<u32>),
}

/// The four fields of the primary image that this crate reads, each as it
/// stands in the file, or `None` where the file has no such field.
#[derive(Clone, Debug)]
pub struct ExifTags {
    pub orientation: Option<TagValue>,
    pub gps_latitude: Option<TagValue>,
    pub gps_longitude: Option<TagValue>,
    pub date_time: Option<TagValue>,
}

/// What was read from a photo.
#[derive(Clone, Debug)]
pub struct Metadata {
    /// 0 where the file holds no readable metadata, else 1 to 8.
    pub orientation: u32,
    pub location: Option<Location>,
    pub captured_at: Option<String>,
}

/// The fields that `exif::Reader::read_from_container` finds in a file with
/// these bytes, looked up with `exif::Exif::get_field`; `None` where the
/// reader gives an error.
pub uninterp spec fn container_tags(bytes: Seq<u8>) -> Option<ExifTags>;

/// Reads the metadata of an image file held in memory.
///
/// Calls `exif::Reader::read_from_container` on the bytes and
/// `exif::Exif::get_field` for each of orientation, latitude, longitude and
/// date and time of the primary image, and `exif::Value::get_uint` for the
/// first number of a value that is neither fractions nor text. The reader
/// answers bytes that it cannot make sense of with an error, which is `None`
/// here. Trusted: what comes back depends on the bytes alone.
#[verifier::external_body]
fn read_tags(bytes: &Vec<u8>) -> (tags: Option<ExifTags>)
    ensures
        tags == container_tags(bytes@),
{
    let exif = Reader::new().read_from_container(&mut Cursor::new(bytes)).ok()?;
    let field = |tag: Tag| exif.get_field(tag, In::PRIMARY).map(|f| match &f.value {
        Value::Rational(v) => TagValue::Rational(v.iter().map(|r| (r.num, r.denom)).collect()),
        Value::Ascii(v) => TagValue::Ascii(v.clone()),
        other => TagValue::Other(other.get_uint(0)),
    });
    Some(ExifTags {
        orientation: field(Tag::Orientation),
        gps_latitude: field(Tag::GPSLatitude),
        gps_longitude: field(Tag::GPSLongitude),
        date_time: field(Tag::DateTime),
    })
}

/// A byte is a decimal digit.
pub open spec fn is_digit(byte: u8) -> bool {
    0x30 <= byte <= 0x39
}

/// The text has the shape `YYYY:MM:DD HH:MM:SS`, with a digit for each
/// letter; what follows the nineteenth byte does not matter.
pub open spec fn date_time_well_formed(text: Seq<u8>) -> bool {
    &&& text.len() >= 19
    &&& text[4] == 0x3a
    &&& text[7] == 0x3a
    &&& text[10] == 0x20
    &&& text[13] == 0x3a
    &&& text[16] == 0x3a
    &&& forall|i: int|
        0 <= i < 19 && i != 4 && i != 7 && i != 10 && i != 13 && i != 16 ==> is_digit(
            #[trigger] text[i],
        )
}

/// The same moment written as `YYYY-MM-DD HH:MM:SS`.
pub open spec fn date_time_text(text: Seq<u8>) -> Seq<char> {
    seq![
        text[0] as char,
        text[1] as char,
        text[2] as char,
        text[3] as char,
        '-',
        text[5] as char,
        text[6] as char,
        '-',
        text[8] as char,
        text[9] as char,
        ' ',
        text[11] as char,
        text[12] as char,
        ':',
        text[14] as char,
        text[15] as char,
        ':',
        text[17] as char,
        text[18] as char,
    ]
}

/// Parses a date and time as a photo stores it and writes it out again.
///
/// Calls `exif::DateTime::from_ascii` and formats the result with its
/// `Display`. Trusted: the text is accepted exactly when it has the shape of
/// [`date_time_well_formed`], and the result holds its digits in the
/// arrangement of [`date_time_text`].
#[verifier::external_body]
fn format_date_time(text: &Vec<u8>) -> (out: Option<String>)
    ensures
        out.is_some() == date_time_well_formed(text@),
        out matches Some(written) ==> written@ == date_time_text(text@),
{
    exif::DateTime::from_ascii(text).ok().map(|moment| moment.to_string())
}

/// The orientation that a field gives: its first number where that is one of
/// 1 to 8, and 1 for any other value and for no field.
pub open spec fn orientation_of(field: Option<TagValue>) -> u32 {
    match field {
        Some(TagValue::Other(Some(code))) => if 1 <= code <= 8 {
            code
        } else {
            1
        },
        _ => 1,
    }
}

/// The field holds degrees, minutes and seconds: at least three fractions.
pub open spec fn is_triplet(field: Option<TagValue>) -> bool {
    field matches Some(TagValue::Rational(parts)) && parts@.len() >= 3
}

/// The angle of a field that holds degrees, minutes and seconds.
pub open spec fn angle_of(field: Option<TagValue>) -> Angle
    recommends
        is_triplet(field),
{
    let parts = field->Some_0->Rational_0@;
    Angle {
        degrees: Rational { num: parts[0].0, denom: parts[0].1 },
        minutes: Rational { num: parts[1].0, denom: parts[1].1 },
        seconds: Rational { num: parts[2].0, denom: parts[2].1 },
    }
}

/// The position that two fields give: both angles, or nothing where either
/// is missing or incomplete.
pub open spec fn location_of(latitude: Option<TagValue>, longitude: Option<TagValue>) -> Option<
    Location,
> {
    if is_triplet(latitude) && is_triplet(longitude) {
        Some(Location { latitude: angle_of(latitude), longitude: angle_of(longitude) })
    } else {
        None
    }
}

/// The capture time that a field gives: its first text in the notation of
/// [`date_time_text`], where the field holds a text of the right shape.
pub open spec fn captured_at_of(field: Option<TagValue>) -> Option<Seq<char>> {
    match field {
        Some(TagValue::Ascii(texts)) => if texts@.len() > 0 && date_time_well_formed(texts@[0]@) {
            Some(date_time_text(texts@[0]@))
        } else {
            None
        },
        _ => None,
    }
}

impl Metadata {
    /// The metadata says what the fields give. Without fields the orientation
    /// is 0 and there is neither position nor time.
    pub open spec fn matches_tags(&self, tags: Option<ExifTags>) -> bool {
        match tags {
            None => self.orientation == 0 && self.location.is_none()
                && self.captured_at.is_none(),
            Some(fields) => {
                &&& self.orientation == orientation_of(fields.orientation)
                &&& self.location == location_of(fields.gps_latitude, fields.gps_longitude)
                &&& match captured_at_of(fields.date_time) {
                    Some(text) => self.captured_at matches Some(written) && written@ == text,
                    None => self.captured_at.is_none(),
                }
            },
        }
    }

    /// Reads the metadata out of the fields of a photo.
    pub fn from_tags(tags: Option<ExifTags>) -> (metadata: Metadata)
        ensures
            metadata.matches_tags(tags),
    {
        match tags {
            None => Metadata { orientation: 0, location: None, captured_at: None },
            Some(fields) => {
                let orientation: u32 = match &fields.orientation {
                    Some(TagValue::Other(Some(code))) => if 1 <= *code && *code <= 8 {
                        *code
                    } else {
                        1
                    },
                    _ => 1,
                };
                let location = match (angle(&fields.gps_latitude), angle(&fields.gps_longitude)) {
                    (Some(latitude), Some(longitude)) => Some(Location { latitude, longitude }),
                    _ => None,
                };
                let captured_at = match &fields.date_time {
                    Some(TagValue::Ascii(texts)) => if texts.len() > 0 {
                        format_date_time(&texts[0])
                    } else {
                        None
                    },
                    _ => None,
                };
                Metadata { orientation, location, captured_at }
            },
        }
    }

    /// Reads the metadata of an image file from its bytes. A file without
    /// readable metadata gives orientation 0 and nothing else.
    pub fn extract(bytes: &Vec<u8>) -> (metadata: Metadata)
        ensures
            metadata.matches_tags(container_tags(bytes@)),
            container_tags(bytes@).is_none() ==> metadata.orientation == 0
                && metadata.location.is_none() && metadata.captured_at.is_none(),
            metadata.location.is_some() <==> (container_tags(bytes@) matches Some(fields)
                && is_triplet(fields.gps_latitude) && is_triplet(fields.gps_longitude)),
            metadata.orientation <= 8,
    {
        Metadata::from_tags(read_tags(bytes))
    }
}

/// The angle that a field holds, if it holds one.
fn angle(field: &Option<TagValue>) -> (out: Option<Angle>)
    ensures
        out.is_some() == is_triplet(*field),
        out matches Some(found) ==> found == angle_of(*field),
{
    match field {
        Some(TagValue::Rational(parts)) => {
            if parts.len() >= 3 {
                Some(
                    Angle {
                        degrees: Rational { num: parts[0].0, denom: parts[0].1 },
                        minutes: Rational { num: parts[1].0, denom: parts[1].1 },
                        seconds: Rational { num: parts[2].0, denom: parts[2].1 },
                    },
                )
            } else {
                None
            }
        },
        _ => None,
    }
}

} // verus!
