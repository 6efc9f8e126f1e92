//! The per-square data of the board: the side a piece belongs to, the kind
//! of piece, and the pairing of the two that a single square holds.

use vstd::prelude::*;

verus! {

/// The side a piece belongs to. `Null` is the "no owner" value carried by
/// an empty square's occupant slot; it never takes part in turn order.
#[derive(Clone, Copy, PartialEq, Eq, Structural, Debug)]
pub enum Colour {
    Black,
    White,
    Null,
}

/// The kind of piece standing on a square; `Null` marks an empty square.
#[derive(Clone, Copy, PartialEq, Eq, Structural, Debug)]
pub enum Piece {
    Pawn,
    Rook,
    Bishop,
    Knight,
    Queen,
    King,
    Null,
}

/// One square of the board. When `piece` is `Piece::Null` the square is
/// empty and `colour` carries the square's fixed checkerboard colour;
/// otherwise `colour` is the owner of the piece standing there.
#[derive(Clone, Copy, PartialEq, Eq, Structural, Debug)]
pub struct BlockData {
    pub colour: Colour,
    pub piece: Piece,
}

/// The colour on the other side of the table; `Null` has no other side.
pub open spec fn opposite(c: Colour) -> Colour {
    match c {
        Colour::Black => Colour::White,
        Colour::White => Colour::Black,
        Colour::Null => Colour::Null,
    }
}

/// The fixed checkerboard colour of the square at row `r`, column `c`:
/// squares whose coordinates sum to an even number are black, the rest
/// white. This never changes over the life of a board.
pub open spec fn checker_colour(r: int, c: int) -> Colour {
    if (r + c) % 2 == 0 {
        Colour::Black
    } else {
        Colour::White
    }
}

/// The empty-square value for row `r`, column `c`: no piece, and the
/// square's own checkerboard colour restored.
pub open spec fn cleared_tile(r: int, c: int) -> BlockData {
    BlockData { colour: checker_colour(r, c), piece: Piece::Null }
}

} // verus!
