//! The mathematical statement of the movement rules: which destinations a
//! piece of each kind may reach, when the line between two squares is free
//! of obstructions, and when a move would capture a friendly unit. The
//! executable engine in `board` is verified against these predicates.

use crate::tile::checker_colour;
use crate::tile::BlockData;
use crate::tile::Colour;
use crate::tile::Piece;
use vstd::prelude::*;

verus! {

/// The 8x8 grid of squares, indexed `grid[row][column]`.
pub type Grid = [[BlockData; 8]; 8];

/// `(r, c)` addresses a square of the 8x8 grid.
pub open spec fn in_range(r: int, c: int) -> bool {
    &&& 0 <= r < 8
    &&& 0 <= c < 8
}

/// Every empty square of the grid shows its own checker colour: the
/// colour slot of a vacated square always reverts to the fixed
/// checkerboard pattern.
pub open spec fn checker_wf(b: Grid) -> bool {
    forall|r: int, c: int|
        in_range(r, c) && (#[trigger] b[r][c]).piece == Piece::Null ==> b[r][c].colour
            == checker_colour(r, c)
}

/// `x` lies strictly between `a` and `b`, whichever of the two is smaller.
pub open spec fn strictly_between(a: int, b: int, x: int) -> bool {
    ||| a < x < b
    ||| b < x < a
}

/// Every square strictly between columns `c1` and `c2` on row `r` is empty.
pub open spec fn horiz_clear(b: Grid, r: int, c1: int, c2: int) -> bool {
    forall|c: int|
        strictly_between(c1, c2, c) ==> (#[trigger] b[r][c]).piece == Piece::Null
}

/// Every square strictly between rows `r1` and `r2` in column `c` is empty.
pub open spec fn vert_clear(b: Grid, c: int, r1: int, r2: int) -> bool {
    forall|r: int|
        strictly_between(r1, r2, r) ==> (#[trigger] b[r][c]).piece == Piece::Null
}

/// The column of the diagonal through `(r1, c1)` and `(r2, c2)` at row `r`.
/// On a rising diagonal (row and column grow together) the column grows
/// with the row; on the other diagonal it shrinks.
pub open spec fn diag_col(r1: int, c1: int, r2: int, c2: int, r: int) -> int {
    if r2 - r1 == c2 - c1 {
        c1 + (r - r1)
    } else {
        c1 - (r - r1)
    }
}

/// Every square strictly between `(r1, c1)` and `(r2, c2)` on their common
/// diagonal is empty.
pub open spec fn diag_clear(b: Grid, r1: int, c1: int, r2: int, c2: int) -> bool {
    forall|r: int|
        strictly_between(r1, r2, r) ==> (#[trigger] b[r][diag_col(r1, c1, r2, c2, r)]).piece
            == Piece::Null
}

/// The two squares lie on one straight or diagonal line: same row, same
/// column, same coordinate sum (one diagonal) or same coordinate
/// difference (the other).
pub open spec fn line_move(r1: int, c1: int, r2: int, c2: int) -> bool {
    ||| r1 == r2
    ||| c1 == c2
    ||| r1 + c1 == r2 + c2
    ||| r1 - c1 == r2 - c2
}

/// The straight or diagonal path from `(r1, c1)` to `(r2, c2)` is free of
/// obstructions; the endpoints themselves are not examined. Meaningful
/// only when `line_move` holds of the four coordinates.
pub open spec fn path_clear(b: Grid, r1: int, c1: int, r2: int, c2: int) -> bool {
    if r1 == r2 {
        horiz_clear(b, r1, c1, c2)
    } else if c1 == c2 {
        vert_clear(b, c1, r1, r2)
    } else {
        diag_clear(b, r1, c1, r2, c2)
    }
}

/// What the sliding-piece obstruction check answers: the two squares lie
/// on one straight or diagonal line and the path between them is clear.
/// Any pair that lies on no such line counts as blocked.
pub open spec fn hop_ok(b: Grid, r1: int, c1: int, r2: int, c2: int) -> bool {
    &&& line_move(r1, c1, r2, c2)
    &&& path_clear(b, r1, c1, r2, c2)
}

/// Moving a piece of colour `turn` onto `(r2, c2)` would capture a
/// friendly unit: the destination is occupied and its occupant is the
/// mover's own.
pub open spec fn captures_friendly(b: Grid, turn: Colour, r2: int, c2: int) -> bool {
    &&& b[r2][c2].piece != Piece::Null
    &&& b[r2][c2].colour == turn
}

/// The row direction a pawn of colour `c` advances in: black pawns start
/// on row 6 and walk towards row 0, white pawns start on row 1 and walk
/// towards row 7.
pub open spec fn pawn_dir(c: Colour) -> int {
    if c == Colour::Black {
        -1
    } else {
        1
    }
}

/// The row a pawn of colour `c` starts the game on, the only row it may
/// open with a two-square advance from.
pub open spec fn pawn_start_row(c: Colour) -> int {
    if c == Colour::Black {
        6
    } else {
        1
    }
}

/// A pawn of colour `colour` standing on `(r1, c1)` may move to
/// `(r2, c2)`: one square forward onto an empty square, two squares
/// forward from its starting row with both the crossed and the target
/// square empty, or one square diagonally forward capturing an occupant.
pub open spec fn pawn_move(b: Grid, colour: Colour, r1: int, c1: int, r2: int, c2: int) -> bool {
    let d = pawn_dir(colour);
    ||| (r2 == r1 + d && c2 == c1 && b[r2][c2].piece == Piece::Null)
    ||| (r2 == r1 + 2 * d && c2 == c1 && r1 == pawn_start_row(colour)
        && b[r1 + d][c1].piece == Piece::Null && b[r2][c2].piece == Piece::Null)
    ||| (r2 == r1 + d && (c2 == c1 + 1 || c2 == c1 - 1) && b[r2][c2].piece != Piece::Null)
}

/// A knight on `(r1, c1)` may jump to `(r2, c2)`: one square along one
/// axis and two along the other, with nothing in between examined.
pub open spec fn knight_move(r1: int, c1: int, r2: int, c2: int) -> bool {
    let dr = r2 - r1;
    let dc = c2 - c1;
    ||| ((dr == 1 || dr == -1) && (dc == 2 || dc == -2))
    ||| ((dr == 2 || dr == -2) && (dc == 1 || dc == -1))
}

/// A rook on `(r1, c1)` may move to `(r2, c2)`: a different square on the
/// same row or the same column, with a clear path between the two.
pub open spec fn rook_move(b: Grid, r1: int, c1: int, r2: int, c2: int) -> bool {
    &&& (r1 == r2 || c1 == c2)
    &&& !(r1 == r2 && c1 == c2)
    &&& path_clear(b, r1, c1, r2, c2)
}

/// A bishop on `(r1, c1)` may move to `(r2, c2)`: a different square on
/// one of its two diagonals, with a clear path between the two.
pub open spec fn bishop_move(b: Grid, r1: int, c1: int, r2: int, c2: int) -> bool {
    &&& (r1 + c1 == r2 + c2 || r1 - c1 == r2 - c2)
    &&& !(r1 == r2 && c1 == c2)
    &&& path_clear(b, r1, c1, r2, c2)
}

/// A queen combines the rook and the bishop: any different square on a
/// shared row, column or diagonal, with a clear path between the two.
pub open spec fn queen_move(b: Grid, r1: int, c1: int, r2: int, c2: int) -> bool {
    &&& line_move(r1, c1, r2, c2)
    &&& !(r1 == r2 && c1 == c2)
    &&& path_clear(b, r1, c1, r2, c2)
}

/// A king on `(r1, c1)` may move to `(r2, c2)`: at most one square away in
/// each dimension, and not standing still.
pub open spec fn king_move(r1: int, c1: int, r2: int, c2: int) -> bool {
    let dr = r2 - r1;
    let dc = c2 - c1;
    &&& -1 <= dr <= 1
    &&& -1 <= dc <= 1
    &&& !(dr == 0 && dc == 0)
}

/// The kind-specific rule for the piece standing on `(r1, c1)`; an empty
/// square moves nowhere.
pub open spec fn kind_move(b: Grid, r1: int, c1: int, r2: int, c2: int) -> bool {
    match b[r1][c1].piece {
        Piece::Pawn => pawn_move(b, b[r1][c1].colour, r1, c1, r2, c2),
        Piece::Rook => rook_move(b, r1, c1, r2, c2),
        Piece::Bishop => bishop_move(b, r1, c1, r2, c2),
        Piece::Knight => knight_move(r1, c1, r2, c2),
        Piece::Queen => queen_move(b, r1, c1, r2, c2),
        Piece::King => king_move(r1, c1, r2, c2),
        Piece::Null => false,
    }
}

/// The whole legality rule for moving the occupant of `(r1, c1)` to
/// `(r2, c2)` when it is `turn`'s move: the moved piece belongs to the
/// side whose turn it is, the destination holds no friendly unit, and the
/// kind-specific rule for the piece admits the destination.
pub open spec fn move_allowed(
    b: Grid,
    turn: Colour,
    r1: int,
    c1: int,
    r2: int,
    c2: int,
) -> bool {
    &&& b[r1][c1].colour == turn
    &&& !captures_friendly(b, turn, r2, c2)
    &&& kind_move(b, r1, c1, r2, c2)
}

/// The grid after a legal move: the destination takes over the source's
/// occupant, the source reverts to an empty square of its own checker
/// colour, and every other square is untouched.
pub open spec fn grid_after_move(
    old_b: Grid,
    new_b: Grid,
    r1: int,
    c1: int,
    r2: int,
    c2: int,
) -> bool {
    forall|r: int, c: int|
        in_range(r, c) ==> (#[trigger] new_b[r][c]) == (if r == r1 && c == c1 {
            BlockData { colour: checker_colour(r1, c1), piece: Piece::Null }
        } else if r == r2 && c == c2 {
            old_b[r1][c1]
        } else {
            old_b[r][c]
        })
}

} // verus!
