//! Decoded photos: a buffer of bytes with its geometry, and the moves of
//! [`Turn`] carried out on it.

use crate::photo::picture::{
    source_x, source_y, turned_height, turned_width, Picture, Turn,
};
use vstd::arithmetic::div_mod::{
    lemma_div_pos_is_pos, lemma_fundamental_div_mod, lemma_mod_bound, lemma_multiply_divide_lt,
};
use vstd::prelude::*;

verus! {

/// How the channels of a pixel are to be read.
#[derive(Clone, Copy, Debug, PartialEq, Eq, Structural)]
pub enum Colorspace {
    /// Red, green and blue, one byte each, and a fourth byte where the buffer
    /// has an alpha channel.
    Rgb,
}

/// A decoded photo that owns its pixels.
///
/// Row `y` starts at byte `y * rowstride`; within a row the pixels follow one
/// another without gaps. Nothing is asked of the fields when a value is made:
/// [`PhotoData::well_formed`] says when they describe a picture.
#[derive(Debug)]
pub struct PhotoData {
    pub bytes: Vec<u8>,
    pub colorspace: Colorspace,
    pub has_alpha: bool,
    pub width: i32,
    pub height: i32,
    pub rowstride: i32,
}

/// The bytes that `pixels` pixels take in a row.
pub open spec fn row_bytes(pixels: int, has_alpha: bool) -> int {
    if has_alpha {
        4 * pixels
    } else {
        3 * pixels
    }
}

/// Where the pixel in column `x`, row `y` starts.
pub open spec fn pixel_offset(stride: int, has_alpha: bool, x: int, y: int) -> int {
    y * stride + row_bytes(x, has_alpha)
}

/// The bytes of the pixel in column `x`, row `y`.
pub open spec fn pixel_at(bytes: Seq<u8>, stride: int, has_alpha: bool, x: int, y: int) -> Seq<u8> {
    bytes.subrange(
        pixel_offset(stride, has_alpha, x, y),
        pixel_offset(stride, has_alpha, x, y) + row_bytes(1, has_alpha),
    )
}

impl View for PhotoData {
    type V = Picture;

    /// What the buffer shows: its pixels and whether they have alpha. The
    /// stride and the padding are no part of it, nor is the colour model,
    /// of which there is one. A buffer without a positive height shows
    /// nothing.
    open spec fn view(&self) -> Picture {
        Picture {
            has_alpha: self.has_alpha,
            rows: Seq::new(
                if self.height > 0 {
                    self.height as nat
                } else {
                    0
                },
                |y: int|
                    Seq::new(
                        if self.width > 0 {
                            self.width as nat
                        } else {
                            0
                        },
                        |x: int|
                            pixel_at(self.bytes@, self.rowstride as int, self.has_alpha, x, y),
                    ),
            ),
        }
    }
}

impl PhotoData {
    /// Both sides are positive: the least that is asked of a photo before it
    /// is shown.
    pub open spec fn has_size(&self) -> bool {
        self.width > 0 && self.height > 0
    }

    /// The fields describe a picture: both sides are positive, a row is no
    /// longer than the stride, and the buffer reaches to the end of the last
    /// row.
    pub open spec fn well_formed(&self) -> bool {
        &&& self.has_size()
        &&& row_bytes(self.width as int, self.has_alpha) <= self.rowstride
        &&& (self.height - 1) * self.rowstride + row_bytes(self.width as int, self.has_alpha)
            <= self.bytes@.len()
    }

    /// The rows follow one another without padding and the buffer ends with
    /// the last.
    pub open spec fn packed(&self) -> bool {
        &&& self.rowstride == row_bytes(self.width as int, self.has_alpha)
        &&& self.bytes@.len() == self.height * self.rowstride
    }

    /// The move can be made: the photo is well formed and a row of the result
    /// has a length that the stride can hold.
    pub open spec fn can_turn(&self, turn: Turn) -> bool {
        &&& self.well_formed()
        &&& row_bytes(turned_width(turn, self.width as int, self.height as int), self.has_alpha)
            <= i32::MAX
    }

    pub fn is_displayable(&self) -> (yes: bool)
        ensures
            yes == self.has_size(),
    {
        self.width > 0 && self.height > 0
    }

    pub fn is_well_formed(&self) -> (yes: bool)
        ensures
            yes == self.well_formed(),
    {
        if self.width <= 0 || self.height <= 0 || self.rowstride <= 0 {
            return false;
        }
        let width: u64 = self.width as u64;
        let height: u64 = self.height as u64;
        let stride: u64 = self.rowstride as u64;
        let row: u64 = if self.has_alpha {
            4 * width
        } else {
            3 * width
        };
        if row > stride {
            return false;
        }
        assert((height - 1) * stride <= 0x7fff_ffff * 0x7fff_ffff) by (nonlinear_arith)
            requires
                0 <= height - 1 <= 0x7fff_ffff,
                0 <= stride <= 0x7fff_ffff,
        ;
        let needed: u64 = (height - 1) * stride + row;
        needed <= self.bytes.len() as u64
    }

    /// Makes one move. The result is a fresh buffer without padding; there is
    /// none where the photo is not well formed or the rows of the result
    /// would be too long for the stride.
    pub fn turn(&self, turn: Turn) -> (out: Option<PhotoData>)
        ensures
            out.is_some() == self.can_turn(turn),
            out matches Some(photo) ==> {
                &&& photo@ == self@.turned(turn)
                &&& photo.width == turned_width(turn, self.width as int, self.height as int)
                &&& photo.height == turned_height(turn, self.width as int, self.height as int)
                &&& photo.has_alpha == self.has_alpha
                &&& photo.colorspace == self.colorspace
                &&& photo.well_formed()
                &&& photo.packed()
            },
    {
        if !self.is_well_formed() {
            return None;
        }
        let has_alpha: bool = self.has_alpha;
        let width: usize = self.width as usize;
        let height: usize = self.height as usize;
        let stride: usize = self.rowstride as usize;
        let (out_width, out_height): (usize, usize) = match turn {
            Turn::Mirror | Turn::UpsideDown => (width, height),
            Turn::Clockwise | Turn::Counterclockwise => (height, width),
        };
        let longest: usize = if has_alpha {
            0x1fff_ffff
        } else {
            0x2aaa_aaaa
        };
        if out_width > longest {
            return None;
        }
        let out_row: usize = if has_alpha {
            4 * out_width
        } else {
            3 * out_width
        };
        let total: usize = self.bytes.len();
        let mut bytes: Vec<u8> = Vec::new();
        let mut y: usize = 0;
        while y < out_height
            invariant
                self.well_formed(),
                total == self.bytes@.len(),
                has_alpha == self.has_alpha,
                width == self.width,
                height == self.height,
                stride == self.rowstride,
                out_width == turned_width(turn, width as int, height as int),
                out_height == turned_height(turn, width as int, height as int),
                out_row == row_bytes(out_width as int, has_alpha),
                y <= out_height,
                bytes@.len() == y * out_row,
                forall|x0: int, y0: int|
                    0 <= y0 < y && 0 <= x0 < out_width ==> #[trigger] pixel_at(
                        bytes@,
                        out_row as int,
                        has_alpha,
                        x0,
                        y0,
                    ) == pixel_at(
                        self.bytes@,
                        stride as int,
                        has_alpha,
                        source_x(turn, width as int, height as int, x0, y0),
                        source_y(turn, width as int, height as int, x0, y0),
                    ),
            decreases out_height - y,
        {
            let mut x: usize = 0;
            while x < out_width
                invariant
                    self.well_formed(),
                    total == self.bytes@.len(),
                    has_alpha == self.has_alpha,
                    width == self.width,
                    height == self.height,
                    stride == self.rowstride,
                    out_width == turned_width(turn, width as int, height as int),
                    out_height == turned_height(turn, width as int, height as int),
                    out_row == row_bytes(out_width as int, has_alpha),
                    y < out_height,
                    x <= out_width,
                    bytes@.len() == y * out_row + row_bytes(x as int, has_alpha),
                    forall|x0: int, y0: int|
                        0 <= x0 < out_width && (0 <= y0 < y || (y0 == y && x0 < x))
                            ==> #[trigger] pixel_at(bytes@, out_row as int, has_alpha, x0, y0)
                            == pixel_at(
                            self.bytes@,
                            stride as int,
                            has_alpha,
                            source_x(turn, width as int, height as int, x0, y0),
                            source_y(turn, width as int, height as int, x0, y0),
                        ),
                decreases out_width - x,
            {
                let (from_x, from_y): (usize, usize) = match turn {
                    Turn::Mirror => (width - 1 - x, y),
                    Turn::Clockwise => (y, height - 1 - x),
                    Turn::UpsideDown => (width - 1 - x, height - 1 - y),
                    Turn::Counterclockwise => (width - 1 - y, x),
                };
                proof {
                    lemma_pixel_inside(
                        stride as int,
                        has_alpha,
                        width as int,
                        height as int,
                        from_x as int,
                        from_y as int,
                    );
                }
                let in_row: usize = if has_alpha {
                    4 * from_x
                } else {
                    3 * from_x
                };
                let base: usize = from_y * stride + in_row;
                let ghost before = bytes@;
                bytes.push(self.bytes[base]);
                bytes.push(self.bytes[base + 1]);
                bytes.push(self.bytes[base + 2]);
                if has_alpha {
                    bytes.push(self.bytes[base + 3]);
                }
                proof {
                    assert(pixel_offset(out_row as int, has_alpha, x as int, y as int)
                        == before.len());
                    assert(pixel_at(bytes@, out_row as int, has_alpha, x as int, y as int)
                        =~= pixel_at(
                        self.bytes@,
                        stride as int,
                        has_alpha,
                        from_x as int,
                        from_y as int,
                    ));
                    assert forall|x0: int, y0: int|
                        0 <= x0 < out_width && (0 <= y0 < y || (y0 == y && x0 < x + 1))
                        implies #[trigger] pixel_at(bytes@, out_row as int, has_alpha, x0, y0)
                        == pixel_at(
                        self.bytes@,
                        stride as int,
                        has_alpha,
                        source_x(turn, width as int, height as int, x0, y0),
                        source_y(turn, width as int, height as int, x0, y0),
                    ) by {
                        if !(y0 == y && x0 == x) {
                            lemma_pixel_before(
                                out_width as int,
                                has_alpha,
                                x0,
                                y0,
                                x as int,
                                y as int,
                            );
                            assert(pixel_at(bytes@, out_row as int, has_alpha, x0, y0)
                                =~= pixel_at(before, out_row as int, has_alpha, x0, y0));
                        }
                    }
                }
                x += 1;
            }
            proof {
                assert((y + 1) * out_row == y * out_row + out_row) by (nonlinear_arith);
            }
            y += 1;
        }
        let photo = PhotoData {
            bytes,
            colorspace: self.colorspace,
            has_alpha,
            width: out_width as i32,
            height: out_height as i32,
            rowstride: out_row as i32,
        };
        proof {
            let moved = self@.turned(turn);
            assert(photo@.rows.len() == moved.rows.len());
            assert forall|y0: int| 0 <= y0 < moved.rows.len() implies photo@.rows[y0]
                =~= moved.rows[y0] by {
                assert forall|x0: int| 0 <= x0 < out_width implies photo@.rows[y0][x0]
                    == moved.rows[y0][x0] by {
                    assert(photo@.rows[y0][x0] == pixel_at(
                        photo.bytes@,
                        out_row as int,
                        has_alpha,
                        x0,
                        y0,
                    ));
                }
            }
            assert(photo@.rows =~= moved.rows);
            assert((out_height - 1) * out_row + out_row == out_height * out_row)
                by (nonlinear_arith);
        }
        Some(photo)
    }
}

/// Two photos without padding that show the same picture hold the same
/// bytes.
pub proof fn lemma_packed_bytes(a: PhotoData, b: PhotoData)
    requires
        a.well_formed(),
        a.packed(),
        b.well_formed(),
        b.packed(),
        a@ == b@,
    ensures
        a.width == b.width,
        a.height == b.height,
        a.rowstride == b.rowstride,
        a.bytes@ == b.bytes@,
{
    let has_alpha = a.has_alpha;
    let width = a.width as int;
    let height = a.height as int;
    let stride = a.rowstride as int;
    let channels = row_bytes(1, has_alpha);
    assert(a@.has_alpha == b@.has_alpha);
    assert(a@.rows.len() == a.height && b@.rows.len() == b.height);
    assert(a@.rows[0].len() == a.width && b@.rows[0].len() == b.width);
    assert(height * stride == b.height * b.rowstride);
    assert forall|i: int| 0 <= i < a.bytes@.len() implies a.bytes@[i] == b.bytes@[i] by {
        let y = i / stride;
        let rest = i % stride;
        let x = rest / channels;
        let channel = rest % channels;
        lemma_fundamental_div_mod(i, stride);
        lemma_mod_bound(i, stride);
        lemma_div_pos_is_pos(i, stride);
        assert(stride * height == height * stride) by (nonlinear_arith);
        lemma_multiply_divide_lt(i, stride, height);
        assert(stride * y == y * stride) by (nonlinear_arith);
        lemma_fundamental_div_mod(rest, channels);
        lemma_mod_bound(rest, channels);
        lemma_div_pos_is_pos(rest, channels);
        assert(0 <= y < height);
        assert(0 <= x < width);
        assert(0 <= channel < channels);
        lemma_pixel_inside(stride, has_alpha, width, height, x, y);
        assert((height - 1) * stride + stride == height * stride) by (nonlinear_arith);
        let start = pixel_offset(stride, has_alpha, x, y);
        assert(start + channel == i);
        assert(0 <= start && start + channels <= a.bytes@.len());
        assert(a@.rows[y][x] == pixel_at(a.bytes@, stride, has_alpha, x, y));
        assert(b@.rows[y][x] == pixel_at(b.bytes@, stride, has_alpha, x, y));
        assert(a.bytes@.subrange(start, start + channels)[channel] == a.bytes@[i]);
        assert(b.bytes@.subrange(start, start + channels)[channel] == b.bytes@[i]);
    }
    assert(a.bytes@ =~= b.bytes@);
}

/// A pixel of a well-formed buffer lies before the end of the last row.
proof fn lemma_pixel_inside(stride: int, has_alpha: bool, width: int, height: int, x: int, y: int)
    requires
        0 <= x < width,
        0 <= y < height,
        0 <= stride,
    ensures
        0 <= y * stride <= pixel_offset(stride, has_alpha, x, y),
        pixel_offset(stride, has_alpha, x, y) + row_bytes(1, has_alpha) <= (height - 1) * stride
            + row_bytes(width, has_alpha),
{
    assert(0 <= y * stride <= (height - 1) * stride) by (nonlinear_arith)
        requires
            0 <= y <= height - 1,
            0 <= stride,
    ;
}

/// In a buffer without padding, a pixel that comes earlier in reading order
/// ends where the later one starts, or before.
proof fn lemma_pixel_before(width: int, has_alpha: bool, x0: int, y0: int, x: int, y: int)
    requires
        0 <= x0 < width,
        0 <= x <= width,
        0 <= y0,
        y0 < y || (y0 == y && x0 < x),
    ensures
        0 <= pixel_offset(row_bytes(width, has_alpha), has_alpha, x0, y0),
        pixel_offset(row_bytes(width, has_alpha), has_alpha, x0, y0) + row_bytes(1, has_alpha)
            <= pixel_offset(row_bytes(width, has_alpha), has_alpha, x, y),
{
    let row = row_bytes(width, has_alpha);
    assert(0 <= y0 * row) by (nonlinear_arith)
        requires
            0 <= y0,
            0 <= row,
    ;
    if y0 < y {
        assert(y0 * row + row <= y * row) by (nonlinear_arith)
            requires
                0 <= y0 < y,
                0 <= row,
        ;
    }
}

} // verus!
