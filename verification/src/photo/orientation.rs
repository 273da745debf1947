//! Turning a photo upright by the orientation code that came with it.
//!
//! | code | moves |
//! |------|-------|
//! | 2 | mirror |
//! | 3 | half turn |
//! | 4 | mirror, then half turn |
//! | 5 | mirror, then quarter turn to the right |
//! | 6 | quarter turn to the right |
//! | 7 | mirror, then quarter turn to the left |
//! | 8 | quarter turn to the left |
//!
//! Every other code, 0 and 1 among them, leaves the photo as it is.

use crate::photo::picture::{
    lemma_mirror_exchanges, lemma_turn_undone, lemma_turned_valid, lemma_two_quarters, Picture,
    Turn,
};
use crate::photo::pixels::{lemma_packed_bytes, row_bytes, PhotoData};
use vstd::prelude::*;

verus! {

/// The picture that the code asks for.
pub open spec fn upright(picture: Picture, orientation: u32) -> Picture {
    if orientation == 2 {
        picture.turned(Turn::Mirror)
    } else if orientation == 3 {
        picture.turned(Turn::UpsideDown)
    } else if orientation == 4 {
        picture.turned(Turn::Mirror).turned(Turn::UpsideDown)
    } else if orientation == 5 {
        picture.turned(Turn::Mirror).turned(Turn::Clockwise)
    } else if orientation == 6 {
        picture.turned(Turn::Clockwise)
    } else if orientation == 7 {
        picture.turned(Turn::Mirror).turned(Turn::Counterclockwise)
    } else if orientation == 8 {
        picture.turned(Turn::Counterclockwise)
    } else {
        picture
    }
}

/// The code that is paired with `orientation`: 6 with 8, 5 with 7, and each
/// other code with itself.
pub open spec fn paired_code(orientation: u32) -> u32 {
    if orientation == 5 {
        7
    } else if orientation == 7 {
        5
    } else if orientation == 6 {
        8
    } else if orientation == 8 {
        6
    } else {
        orientation
    }
}

/// The code asks for a quarter turn.
pub open spec fn swaps_sides(orientation: u32) -> bool {
    5 <= orientation <= 8
}

impl PhotoData {
    /// The moves that the code asks for can all be made: the code is one of 2
    /// to 8, the photo is well formed, and where the sides are swapped a row
    /// of the result has a length that the stride can hold.
    pub open spec fn can_rotate(&self, orientation: u32) -> bool {
        &&& 2 <= orientation <= 8
        &&& self.well_formed()
        &&& swaps_sides(orientation) ==> row_bytes(self.height as int, self.has_alpha) <= i32::MAX
    }

    /// The moves of the code, one after the other; `None` as soon as one
    /// cannot be made, and for a code that asks for none.
    fn moved(&self, orientation: u32) -> (out: Option<PhotoData>)
        ensures
            out.is_some() == self.can_rotate(orientation),
            out matches Some(photo) ==> {
                &&& photo@ == upright(self@, orientation)
                &&& photo.width == (if swaps_sides(orientation) {
                    self.height
                } else {
                    self.width
                })
                &&& photo.height == (if swaps_sides(orientation) {
                    self.width
                } else {
                    self.height
                })
                &&& photo.has_alpha == self.has_alpha
                &&& photo.colorspace == self.colorspace
                &&& photo.well_formed()
                &&& photo.packed()
            },
    {
        match orientation {
            2 => self.turn(Turn::Mirror),
            3 => self.turn(Turn::UpsideDown),
            4 => match self.turn(Turn::Mirror) {
                Some(mirrored) => mirrored.turn(Turn::UpsideDown),
                None => None,
            },
            5 => match self.turn(Turn::Mirror) {
                Some(mirrored) => mirrored.turn(Turn::Clockwise),
                None => None,
            },
            6 => self.turn(Turn::Clockwise),
            7 => match self.turn(Turn::Mirror) {
                Some(mirrored) => mirrored.turn(Turn::Counterclockwise),
                None => None,
            },
            8 => self.turn(Turn::Counterclockwise),
            _ => None,
        }
    }
}

/// `out` is `photo` made upright: the picture that the code asks for, in a
/// fresh buffer without padding, where the moves can be made, and `photo`
/// itself where they cannot.
pub open spec fn made_upright(out: PhotoData, photo: PhotoData, orientation: u32) -> bool {
    if photo.can_rotate(orientation) {
        &&& out@ == upright(photo@, orientation)
        &&& out.width == (if swaps_sides(orientation) {
            photo.height
        } else {
            photo.width
        })
        &&& out.height == (if swaps_sides(orientation) {
            photo.width
        } else {
            photo.height
        })
        &&& out.has_alpha == photo.has_alpha
        &&& out.colorspace == photo.colorspace
        &&& out.well_formed()
        &&& out.packed()
    } else {
        out == photo
    }
}

/// Turns a photo upright. Where a move cannot be made the photo comes back
/// as it was given, and so it does for every code that is not one of 2 to 8.
pub fn rotate_photo(photo: PhotoData, orientation: u32) -> (out: PhotoData)
    ensures
        made_upright(out, photo, orientation),
        !(2 <= orientation <= 8) ==> out == photo,
        photo.has_size() ==> out.has_size(),
{
    match photo.moved(orientation) {
        Some(turned) => turned,
        None => photo,
    }
}

/// The picture of a well-formed photo is valid, with the photo's sides.
pub proof fn lemma_view_valid(photo: PhotoData)
    requires
        photo.well_formed(),
    ensures
        photo@.valid(),
        photo@.width() == photo.width,
        photo@.height() == photo.height,
{
}

/// Codes 0 and 1 ask for no move.
pub proof fn lemma_upright_identity(picture: Picture, orientation: u32)
    requires
        orientation <= 1,
    ensures
        upright(picture, orientation) == picture,
{
}

/// Making a picture upright keeps it valid.
pub proof fn lemma_upright_valid(picture: Picture, orientation: u32)
    requires
        picture.valid(),
    ensures
        upright(picture, orientation).valid(),
{
    lemma_turned_valid(picture, Turn::Mirror);
    lemma_turned_valid(picture, Turn::UpsideDown);
    lemma_turned_valid(picture, Turn::Clockwise);
    lemma_turned_valid(picture, Turn::Counterclockwise);
    lemma_turned_valid(picture.turned(Turn::Mirror), Turn::UpsideDown);
    lemma_turned_valid(picture.turned(Turn::Mirror), Turn::Clockwise);
    lemma_turned_valid(picture.turned(Turn::Mirror), Turn::Counterclockwise);
}

/// What the moves of a code followed by the moves of its paired code give:
/// the picture itself for codes 2, 3, 4, 6 and 8, and the picture after a
/// half turn for codes 5 and 7.
pub proof fn lemma_paired_codes(picture: Picture, orientation: u32)
    requires
        picture.valid(),
        2 <= orientation <= 8,
    ensures
        !(orientation == 5 || orientation == 7) ==> upright(
            upright(picture, orientation),
            paired_code(orientation),
        ) == picture,
        orientation == 5 || orientation == 7 ==> upright(
            upright(picture, orientation),
            paired_code(orientation),
        ) == picture.turned(Turn::UpsideDown),
{
    let mirrored = picture.turned(Turn::Mirror);
    lemma_turned_valid(picture, Turn::Mirror);
    lemma_turn_undone(picture, Turn::Mirror);
    if orientation == 2 {
    } else if orientation == 3 {
        lemma_turn_undone(picture, Turn::UpsideDown);
    } else if orientation == 4 {
        lemma_mirror_exchanges(mirrored, Turn::UpsideDown);
        lemma_turn_undone(picture, Turn::UpsideDown);
    } else if orientation == 5 {
        lemma_mirror_exchanges(mirrored, Turn::Clockwise);
        lemma_two_quarters(picture, Turn::Counterclockwise);
    } else if orientation == 6 {
        lemma_turn_undone(picture, Turn::Clockwise);
    } else if orientation == 7 {
        lemma_mirror_exchanges(mirrored, Turn::Counterclockwise);
        lemma_two_quarters(picture, Turn::Clockwise);
    } else {
        lemma_turn_undone(picture, Turn::Counterclockwise);
    }
}

/// Round trip: the moves of a code followed by the moves of its paired code
/// give the picture back. For codes 5 and 7 this holds of the pictures that a
/// half turn leaves unchanged, and of no others.
pub proof fn lemma_round_trip(picture: Picture, orientation: u32)
    requires
        picture.valid(),
        2 <= orientation <= 8,
        orientation == 5 || orientation == 7 ==> picture.turned(Turn::UpsideDown) == picture,
    ensures
        upright(upright(picture, orientation), paired_code(orientation)) == picture,
{
    lemma_paired_codes(picture, orientation);
}

/// The round trip on photos: a photo made upright by a code and then by the
/// paired code shows what it showed at first, with the sides it had; and
/// where the photo had no padding, the buffer that comes back holds the very
/// bytes of the first. This holds where both times the moves can be made,
/// and for codes 5 and 7 of the photos that a half turn leaves unchanged.
pub proof fn lemma_photo_round_trip(
    photo: PhotoData,
    there: PhotoData,
    back: PhotoData,
    orientation: u32,
)
    requires
        photo.can_rotate(orientation),
        made_upright(there, photo, orientation),
        there.can_rotate(paired_code(orientation)),
        made_upright(back, there, paired_code(orientation)),
        orientation == 5 || orientation == 7 ==> photo@.turned(Turn::UpsideDown) == photo@,
    ensures
        back@ == photo@,
        back.width == photo.width,
        back.height == photo.height,
        back.has_alpha == photo.has_alpha,
        photo.packed() ==> back.bytes@ == photo.bytes@,
{
    lemma_view_valid(photo);
    lemma_round_trip(photo@, orientation);
    if photo.packed() {
        lemma_packed_bytes(back, photo);
    }
}

/// Codes 2, 3, 4, 5 and 7 undo themselves: the moves of such a code made
/// twice give the picture back.
pub proof fn lemma_reflections_undo_themselves(picture: Picture, orientation: u32)
    requires
        picture.valid(),
        orientation == 2 || orientation == 3 || orientation == 4 || orientation == 5
            || orientation == 7,
    ensures
        upright(upright(picture, orientation), orientation) == picture,
{
    let mirrored = picture.turned(Turn::Mirror);
    lemma_turned_valid(picture, Turn::Mirror);
    lemma_turn_undone(picture, Turn::Mirror);
    if orientation == 5 {
        lemma_mirror_exchanges(mirrored, Turn::Clockwise);
        lemma_turn_undone(picture, Turn::Counterclockwise);
    } else if orientation == 7 {
        lemma_mirror_exchanges(mirrored, Turn::Counterclockwise);
        lemma_turn_undone(picture, Turn::Clockwise);
    } else {
        lemma_paired_codes(picture, orientation);
    }
}

} // verus!
