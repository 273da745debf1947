//! A picture as a grid of pixels, and the four elementary moves of the plane
//! that map the grid onto itself or onto its transpose.

use vstd::prelude::*;

verus! {

/// One move of a picture.
#[derive(Clone, Copy, Debug, PartialEq, Eq, Structural)]
pub enum Turn {
    /// Mirror image: left and right change places.
    Mirror,
    /// A quarter turn to the right.
    Clockwise,
    /// A half turn.
    UpsideDown,
    /// A quarter turn to the left.
    Counterclockwise,
}

/// The width of a `width` by `height` grid after the move.
pub open spec fn turned_width(turn: Turn, width: int, height: int) -> int {
    match turn {
        Turn::Mirror | Turn::UpsideDown => width,
        Turn::Clockwise | Turn::Counterclockwise => height,
    }
}

/// The height of a `width` by `height` grid after the move.
pub open spec fn turned_height(turn: Turn, width: int, height: int) -> int {
    match turn {
        Turn::Mirror | Turn::UpsideDown => height,
        Turn::Clockwise | Turn::Counterclockwise => width,
    }
}

/// The column of the `width` by `height` source from which the pixel in
/// column `x`, row `y` of the moved picture is taken.
pub open spec fn source_x(turn: Turn, width: int, height: int, x: int, y: int) -> int {
    match turn {
        Turn::Mirror => width - 1 - x,
        Turn::Clockwise => y,
        Turn::UpsideDown => width - 1 - x,
        Turn::Counterclockwise => width - 1 - y,
    }
}

/// The row of the `width` by `height` source from which the pixel in column
/// `x`, row `y` of the moved picture is taken.
pub open spec fn source_y(turn: Turn, width: int, height: int, x: int, y: int) -> int {
    match turn {
        Turn::Mirror => y,
        Turn::Clockwise => height - 1 - x,
        Turn::UpsideDown => height - 1 - y,
        Turn::Counterclockwise => x,
    }
}

/// The move that undoes `turn`.
pub open spec fn opposite(turn: Turn) -> Turn {
    match turn {
        Turn::Mirror => Turn::Mirror,
        Turn::Clockwise => Turn::Counterclockwise,
        Turn::UpsideDown => Turn::UpsideDown,
        Turn::Counterclockwise => Turn::Clockwise,
    }
}

/// What a pixel buffer shows: rows from top to bottom, each a sequence of
/// pixels from left to right, each pixel the bytes of its channels.
pub struct Picture {
    pub has_alpha: bool,
    pub rows: Seq<Seq<Seq<u8>>>,
}

impl Picture {
    pub open spec fn height(self) -> int {
        self.rows.len() as int
    }

    pub open spec fn width(self) -> int {
        if self.rows.len() > 0 {
            self.rows[0].len() as int
        } else {
            0
        }
    }

    /// A picture has at least one pixel, and all its rows have one length.
    pub open spec fn valid(self) -> bool {
        &&& self.height() > 0
        &&& self.width() > 0
        &&& forall|y: int|
            0 <= y < self.height() ==> (#[trigger] self.rows[y]).len() == self.width()
    }

    /// The picture after one move.
    pub open spec fn turned(self, turn: Turn) -> Picture {
        let w = self.width();
        let h = self.height();
        Picture {
            has_alpha: self.has_alpha,
            rows: Seq::new(
                turned_height(turn, w, h) as nat,
                |y: int|
                    Seq::new(
                        turned_width(turn, w, h) as nat,
                        |x: int| self.rows[source_y(turn, w, h, x, y)][source_x(turn, w, h, x, y)],
                    ),
            ),
        }
    }
}

/// A move keeps a picture valid, and swaps or keeps its sides.
pub proof fn lemma_turned_valid(picture: Picture, turn: Turn)
    requires
        picture.valid(),
    ensures
        picture.turned(turn).valid(),
        picture.turned(turn).width() == turned_width(turn, picture.width(), picture.height()),
        picture.turned(turn).height() == turned_height(turn, picture.width(), picture.height()),
        picture.turned(turn).has_alpha == picture.has_alpha,
{
}

/// A move followed by its opposite gives the picture back.
pub proof fn lemma_turn_undone(picture: Picture, turn: Turn)
    requires
        picture.valid(),
    ensures
        picture.turned(turn).turned(opposite(turn)) == picture,
{
    lemma_turned_valid(picture, turn);
    let back = picture.turned(turn).turned(opposite(turn));
    assert(back.rows.len() == picture.rows.len());
    assert forall|y: int| 0 <= y < picture.rows.len() implies back.rows[y] =~= picture.rows[y] by {
        assert(picture.rows[y].len() == picture.width());
    }
    assert(back.rows =~= picture.rows);
}

/// The mirror image of a quarter turn to the right is the quarter turn to the
/// left of the mirror image, and so for the other three moves: a move changes
/// into its opposite when it passes a mirror.
pub proof fn lemma_mirror_exchanges(picture: Picture, turn: Turn)
    requires
        picture.valid(),
    ensures
        picture.turned(turn).turned(Turn::Mirror) == picture.turned(Turn::Mirror).turned(
            opposite(turn),
        ),
{
    lemma_turned_valid(picture, turn);
    lemma_turned_valid(picture, Turn::Mirror);
    let left = picture.turned(turn).turned(Turn::Mirror);
    let right = picture.turned(Turn::Mirror).turned(opposite(turn));
    assert(left.rows.len() == right.rows.len());
    assert forall|y: int| 0 <= y < left.rows.len() implies left.rows[y] =~= right.rows[y] by {
    }
    assert(left.rows =~= right.rows);
}

/// Two quarter turns in one direction make a half turn.
pub proof fn lemma_two_quarters(picture: Picture, turn: Turn)
    requires
        picture.valid(),
        turn == Turn::Clockwise || turn == Turn::Counterclockwise,
    ensures
        picture.turned(turn).turned(turn) == picture.turned(Turn::UpsideDown),
{
    lemma_turned_valid(picture, turn);
    let left = picture.turned(turn).turned(turn);
    let right = picture.turned(Turn::UpsideDown);
    assert(left.rows.len() == right.rows.len());
    assert forall|y: int| 0 <= y < left.rows.len() implies left.rows[y] =~= right.rows[y] by {
    }
    assert(left.rows =~= right.rows);
}

} // verus!
