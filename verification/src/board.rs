//! The board state and the move-legality engine: an 8x8 grid of squares,
//! whose turn it is, a wrapping cursor, and the decision procedure that
//! accepts or rejects a requested move and applies the accepted ones.

use crate::rules::captures_friendly;
use crate::rules::checker_wf;
use crate::rules::diag_clear;
use crate::rules::diag_col;
use crate::rules::grid_after_move;
use crate::rules::hop_ok;
use crate::rules::horiz_clear;
use crate::rules::in_range;
use crate::rules::king_move;
use crate::rules::knight_move;
use crate::rules::move_allowed;
use crate::rules::pawn_move;
use crate::rules::strictly_between;
use crate::rules::vert_clear;
use crate::rules::Grid;
use crate::tile::cleared_tile;
use crate::tile::opposite;
use crate::tile::BlockData;
use crate::tile::Colour;
use crate::tile::Piece;
use vstd::prelude::*;

verus! {

/// The piece the back rank of side `colour` holds in column `c`: rooks in
/// the corners, then knights, then bishops; the king and the queen stand
/// on the two middle columns, their places mirrored between the sides
/// (white's king column is black's queen column and the other way round).
pub open spec fn back_rank_piece(colour: Colour, c: int) -> Piece {
    if c == 0 || c == 7 {
        Piece::Rook
    } else if c == 1 || c == 6 {
        Piece::Knight
    } else if c == 2 || c == 5 {
        Piece::Bishop
    } else if c == 3 {
        if colour == Colour::White {
            Piece::King
        } else {
            Piece::Queen
        }
    } else {
        if colour == Colour::White {
            Piece::Queen
        } else {
            Piece::King
        }
    }
}

/// The square at row `r`, column `c` of a freshly set up game: white's
/// back rank on row 0 and pawns on row 1, black's pawns on row 6 and
/// back rank on row 7, every other square empty and checker-coloured.
pub open spec fn starting_tile(r: int, c: int) -> BlockData {
    if r == 0 {
        BlockData { colour: Colour::White, piece: back_rank_piece(Colour::White, c) }
    } else if r == 1 {
        BlockData { colour: Colour::White, piece: Piece::Pawn }
    } else if r == 6 {
        BlockData { colour: Colour::Black, piece: Piece::Pawn }
    } else if r == 7 {
        BlockData { colour: Colour::Black, piece: back_rank_piece(Colour::Black, c) }
    } else {
        cleared_tile(r, c)
    }
}

/// A game directly after `new_game`: white moves first, the cursor and
/// the picked-up square rest on the bottom-left corner, and every square
/// holds its starting tile.
pub open spec fn starting_state(m: Matrix) -> bool {
    &&& m.turn == Colour::White
    &&& m.arrow == (7usize, 0usize)
    &&& m.selected_piece == (7usize, 0usize)
    &&& forall|r: int, c: int|
        in_range(r, c) ==> (#[trigger] m.board[r][c]) == starting_tile(r, c)
}

/// The whole game state: the grid, the cursor (`arrow`), the square most
/// recently picked up (`selected_piece`), and whose move is next (`turn`).
pub struct Matrix {
    pub board: Grid,
    pub arrow: (usize, usize),
    pub selected_piece: (usize, usize),
    pub turn: Colour,
}

impl Matrix {
    /// Well-formedness of a game state: the cursor and the picked-up
    /// square address the grid, the turn belongs to one of the two
    /// players, and every empty square shows its own checker colour.
    pub open spec fn wf(self) -> bool {
        &&& self.arrow.0 < 8
        &&& self.arrow.1 < 8
        &&& self.selected_piece.0 < 8
        &&& self.selected_piece.1 < 8
        &&& self.turn != Colour::Null
        &&& checker_wf(self.board)
    }

    /// Read the square at row `r`, column `c`.
    fn tile(&self, r: usize, c: usize) -> (t: BlockData)
        requires
            r < 8,
            c < 8,
        ensures
            t == self.board[r as int][c as int],
    {
        self.board[r][c]
    }

    /// Overwrite the square at row `r`, column `c`, leaving every other
    /// square and the rest of the state untouched.
    fn set_tile(&mut self, r: usize, c: usize, t: BlockData)
        requires
            r < 8,
            c < 8,
        ensures
            final(self).arrow == old(self).arrow,
            final(self).selected_piece == old(self).selected_piece,
            final(self).turn == old(self).turn,
            forall|i: int, j: int|
                in_range(i, j) ==> (#[trigger] final(self).board[i][j]) == (if i == r as int && j
                    == c as int {
                    t
                } else {
                    old(self).board[i][j]
                }),
    {
        let mut row: [BlockData; 8] = self.board[r];
        row[c] = t;
        self.board[r] = row;
    }

    /// A fresh board: all 64 squares empty and checker-coloured by the
    /// parity of their coordinates, the cursor and the picked-up square
    /// resting on the bottom-left corner, and white to move first.
    pub fn new() -> (m: Matrix)
        ensures
            m.wf(),
            m.turn == Colour::White,
            m.arrow == (7usize, 0usize),
            m.selected_piece == (7usize, 0usize),
            forall|r: int, c: int| in_range(r, c) ==> (#[trigger] m.board[r][c]) == cleared_tile(
                r,
                c,
            ),
    {
        let empty = BlockData { colour: Colour::Null, piece: Piece::Null };
        let mut m = Matrix {
            board: [[empty; 8]; 8],
            arrow: (7, 0),
            selected_piece: (7, 0),
            turn: Colour::White,
        };
        let mut r: usize = 0;
        while r < 8
            invariant
                r <= 8,
                m.arrow == (7usize, 0usize),
                m.selected_piece == (7usize, 0usize),
                m.turn == Colour::White,
                forall|i: int, j: int|
                    in_range(i, j) && i < r ==> (#[trigger] m.board[i][j]) == cleared_tile(i, j),
            decreases 8 - r,
        {
            let mut c: usize = 0;
            while c < 8
                invariant
                    r < 8,
                    c <= 8,
                    m.arrow == (7usize, 0usize),
                    m.selected_piece == (7usize, 0usize),
                    m.turn == Colour::White,
                    forall|i: int, j: int|
                        in_range(i, j) && i < r ==> (#[trigger] m.board[i][j]) == cleared_tile(
                            i,
                            j,
                        ),
                    forall|j: int|
                        0 <= j < c ==> (#[trigger] m.board[r as int][j]) == cleared_tile(
                            r as int,
                            j,
                        ),
                decreases 8 - c,
            {
                let colour = if (r + c) % 2 == 0 {
                    Colour::Black
                } else {
                    Colour::White
                };
                m.set_tile(r, c, BlockData { colour, piece: Piece::Null });
                c = c + 1;
            }
            r = r + 1;
        }
        m
    }

    /// Hand the turn to the other player.
    fn toggle_turn(&mut self)
        ensures
            final(self).turn == opposite(old(self).turn),
            final(self).board == old(self).board,
            final(self).arrow == old(self).arrow,
            final(self).selected_piece == old(self).selected_piece,
    {
        if self.turn == Colour::Black {
            self.turn = Colour::White;
        } else if self.turn == Colour::White {
            self.turn = Colour::Black;
        } else {
            self.turn = Colour::Null;
        }
    }

    /// Remember the square under the cursor as the piece picked up for
    /// the next commit. The grid itself is untouched.
    pub fn select_piece(&mut self)
        ensures
            final(self).selected_piece == old(self).arrow,
            final(self).board == old(self).board,
            final(self).arrow == old(self).arrow,
            final(self).turn == old(self).turn,
            old(self).wf() ==> final(self).wf(),
    {
        self.selected_piece = (self.arrow.0, self.arrow.1);
    }

    /// Whether a piece of colour `piece_team` may land on `move_coords`
    /// as far as friendly fire goes: landing on an empty square or on an
    /// opposing piece is allowed, landing on one's own piece is not.
    fn validate_friend(&self, piece_team: Colour, move_coords: (usize, usize)) -> (r: bool)
        requires
            move_coords.0 < 8,
            move_coords.1 < 8,
        ensures
            r == !captures_friendly(
                self.board,
                piece_team,
                move_coords.0 as int,
                move_coords.1 as int,
            ),
    {
        let spot_info = self.tile(move_coords.0, move_coords.1);
        if spot_info.piece == Piece::Null {
            return true;
        }
        if spot_info.colour == piece_team {
            return false;
        } else {
            return true;
        }
    }

    /// The relocation primitive: copy the occupant of `piece_moved` onto
    /// `spot`, then reset `piece_moved` to an empty square of its own
    /// checker colour. No legality is checked here; callers validate
    /// the move first.
    fn switch_pieces(&mut self, piece_moved: (usize, usize), spot: (usize, usize))
        requires
            piece_moved.0 < 8,
            piece_moved.1 < 8,
            spot.0 < 8,
            spot.1 < 8,
        ensures
            final(self).arrow == old(self).arrow,
            final(self).selected_piece == old(self).selected_piece,
            final(self).turn == old(self).turn,
            forall|i: int, j: int|
                in_range(i, j) ==> (#[trigger] final(self).board[i][j]) == (if i
                    == piece_moved.0 as int && j == piece_moved.1 as int {
                    cleared_tile(i, j)
                } else if i == spot.0 as int && j == spot.1 as int {
                    old(self).board[piece_moved.0 as int][piece_moved.1 as int]
                } else {
                    old(self).board[i][j]
                }),
    {
        let moved = self.tile(piece_moved.0, piece_moved.1);
        self.set_tile(spot.0, spot.1, moved);
        let new_colour = if (piece_moved.0 + piece_moved.1) % 2 == 0 {
            Colour::Black
        } else {
            Colour::White
        };
        self.set_tile(
            piece_moved.0,
            piece_moved.1,
            BlockData { colour: new_colour, piece: Piece::Null },
        );
    }

    /// Displace the cursor by `displace`, wrapping each coordinate
    /// independently modulo 8: moving past an edge of the grid re-enters
    /// it from the opposite edge, so the cursor always addresses a
    /// square.
    pub fn mutate_arrow(&mut self, displace: (i32, i32))
        requires
            old(self).wf(),
        ensures
            final(self).wf(),
            final(self).arrow.0 as int == (old(self).arrow.0 as int + displace.0 as int) % 8,
            final(self).arrow.1 as int == (old(self).arrow.1 as int + displace.1 as int) % 8,
            final(self).board == old(self).board,
            final(self).selected_piece == old(self).selected_piece,
            final(self).turn == old(self).turn,
    {
        let shifted_row: i64 = self.arrow.0 as i64 + displace.0 as i64;
        let shifted_col: i64 = self.arrow.1 as i64 + displace.1 as i64;
        let row: i64 = shifted_row.checked_rem_euclid(8).unwrap();
        let col: i64 = shifted_col.checked_rem_euclid(8).unwrap();
        self.arrow = (row as usize, col as usize);
    }

    /// The obstruction check for the sliding pieces (rook, bishop and
    /// queen): `move_coords` lies on one straight or diagonal line from
    /// `piece_coords`, and every square strictly between the two is
    /// empty. A destination on no such line counts as blocked. The
    /// endpoints themselves are never examined.
    #[verifier::loop_isolation(false)]
    fn check_piece_hop(&self, piece_coords: (usize, usize), move_coords: (usize, usize)) -> (r:
        bool)
        requires
            piece_coords.0 < 8,
            piece_coords.1 < 8,
            move_coords.0 < 8,
            move_coords.1 < 8,
        ensures
            r == hop_ok(
                self.board,
                piece_coords.0 as int,
                piece_coords.1 as int,
                move_coords.0 as int,
                move_coords.1 as int,
            ),
    {
        let (r1, c1) = piece_coords;
        let (r2, c2) = move_coords;
        if r1 == r2 {
            let lo = if c1 < c2 {
                c1
            } else {
                c2
            };
            let hi = if c1 < c2 {
                c2
            } else {
                c1
            };
            let mut c: usize = lo + 1;
            while c < hi
                invariant
                    r1 < 8,
                    hi < 8,
                    lo < c <= 8,
                    lo == if c1 < c2 { c1 as int } else { c2 as int },
                    hi == if c1 < c2 { c2 as int } else { c1 as int },
                    forall|j: int|
                        lo < j < c && j < hi ==> (#[trigger] self.board[r1 as int][j]).piece
                            == Piece::Null,
                decreases hi - c,
            {
                if self.tile(r1, c).piece != Piece::Null {
                    assert(!horiz_clear(self.board, r1 as int, c1 as int, c2 as int)) by {
                        assert(strictly_between(c1 as int, c2 as int, c as int));
                        assert(self.board[r1 as int][c as int].piece != Piece::Null);
                    }
                    return false;
                }
                c = c + 1;
            }
            return true;
        } else if c1 == c2 {
            let lo = if r1 < r2 {
                r1
            } else {
                r2
            };
            let hi = if r1 < r2 {
                r2
            } else {
                r1
            };
            let mut rr: usize = lo + 1;
            while rr < hi
                invariant
                    c1 < 8,
                    hi < 8,
                    lo < rr <= 8,
                    lo == if r1 < r2 { r1 as int } else { r2 as int },
                    hi == if r1 < r2 { r2 as int } else { r1 as int },
                    forall|i: int|
                        lo < i < rr && i < hi ==> (#[trigger] self.board[i][c1 as int]).piece
                            == Piece::Null,
                decreases hi - rr,
            {
                if self.tile(rr, c1).piece != Piece::Null {
                    assert(!vert_clear(self.board, c1 as int, r1 as int, r2 as int)) by {
                        assert(strictly_between(r1 as int, r2 as int, rr as int));
                        assert(self.board[rr as int][c1 as int].piece != Piece::Null);
                    }
                    return false;
                }
                rr = rr + 1;
            }
            return true;
        } else if r1 + c1 == r2 + c2 || r1 as i64 - c1 as i64 == r2 as i64 - c2 as i64 {
            let (rlo, clo) = if r1 < r2 {
                (r1, c1)
            } else {
                (r2, c2)
            };
            let (rhi, chi) = if r1 < r2 {
                (r2, c2)
            } else {
                (r1, c1)
            };
            let ascending = clo < chi;
            let mut i: usize = rlo + 1;
            while i < rhi
                invariant
                    r1 < 8,
                    c1 < 8,
                    r2 < 8,
                    c2 < 8,
                    r1 != r2,
                    c1 != c2,
                    r1 + c1 == r2 + c2 || r1 as int - c1 as int == r2 as int - c2 as int,
                    (rlo == r1 && clo == c1 && rhi == r2 && chi == c2) || (rlo == r2 && clo == c2
                        && rhi == r1 && chi == c1),
                    rlo < rhi,
                    ascending == (clo < chi),
                    ascending ==> rhi as int - rlo as int == chi as int - clo as int,
                    !ascending ==> rhi as int - rlo as int == clo as int - chi as int,
                    rlo < i <= rhi,
                    forall|t: int|
                        rlo < t < i ==> (#[trigger] self.board[t][diag_col(
                            r1 as int,
                            c1 as int,
                            r2 as int,
                            c2 as int,
                            t,
                        )]).piece == Piece::Null,
                decreases rhi - i,
            {
                let col = if ascending {
                    clo + (i - rlo)
                } else {
                    clo - (i - rlo)
                };
                assert(col as int == diag_col(r1 as int, c1 as int, r2 as int, c2 as int, i as int));
                if self.tile(i, col).piece != Piece::Null {
                    assert(!diag_clear(
                        self.board,
                        r1 as int,
                        c1 as int,
                        r2 as int,
                        c2 as int,
                    )) by {
                        assert(strictly_between(r1 as int, r2 as int, i as int));
                        assert(self.board[i as int][diag_col(
                            r1 as int,
                            c1 as int,
                            r2 as int,
                            c2 as int,
                            i as int,
                        )].piece != Piece::Null);
                    }
                    return false;
                }
                i = i + 1;
            }
            return true;
        } else {
            return false;
        }
    }

    /// The pawn rule for a pawn of colour `colour` on `(pr, pc)` aiming
    /// at the cursor square: one square forward onto an empty square, two
    /// squares forward from the starting row over an empty square onto an
    /// empty square, or one square diagonally forward onto an occupant.
    fn pawn_ok(&self, pr: usize, pc: usize, colour: Colour) -> (r: bool)
        requires
            pr < 8,
            pc < 8,
            self.arrow.0 < 8,
            self.arrow.1 < 8,
        ensures
            r == pawn_move(
                self.board,
                colour,
                pr as int,
                pc as int,
                self.arrow.0 as int,
                self.arrow.1 as int,
            ),
    {
        let d: i64 = if colour == Colour::Black {
            -1
        } else {
            1
        };
        let r1: i64 = pr as i64;
        let c1: i64 = pc as i64;
        let r2: i64 = self.arrow.0 as i64;
        let c2: i64 = self.arrow.1 as i64;
        if r2 == r1 + d && c2 == c1 {
            return self.tile(self.arrow.0, self.arrow.1).piece == Piece::Null;
        }
        if r2 == r1 + 2 * d && c2 == c1 {
            let start: i64 = if colour == Colour::Black {
                6
            } else {
                1
            };
            if r1 != start {
                return false;
            }
            let mid: usize = if colour == Colour::Black {
                pr - 1
            } else {
                pr + 1
            };
            if self.tile(mid, pc).piece != Piece::Null {
                return false;
            }
            return self.tile(self.arrow.0, self.arrow.1).piece == Piece::Null;
        }
        if r2 == r1 + d && (c2 == c1 + 1 || c2 == c1 - 1) {
            return self.tile(self.arrow.0, self.arrow.1).piece != Piece::Null;
        }
        false
    }

    /// The knight rule for a knight on `(pr, pc)` aiming at the cursor
    /// square: one square along one axis and two along the other.
    fn knight_ok(&self, pr: usize, pc: usize) -> (r: bool)
        requires
            pr < 8,
            pc < 8,
            self.arrow.0 < 8,
            self.arrow.1 < 8,
        ensures
            r == knight_move(pr as int, pc as int, self.arrow.0 as int, self.arrow.1 as int),
    {
        let dr: i64 = self.arrow.0 as i64 - pr as i64;
        let dc: i64 = self.arrow.1 as i64 - pc as i64;
        ((dr == 1 || dr == -1) && (dc == 2 || dc == -2)) || ((dr == 2 || dr == -2) && (dc == 1
            || dc == -1))
    }

    /// The king rule for a king on `(pr, pc)` aiming at the cursor
    /// square: at most one square away in each dimension, and not
    /// standing still.
    fn king_ok(&self, pr: usize, pc: usize) -> (r: bool)
        requires
            pr < 8,
            pc < 8,
            self.arrow.0 < 8,
            self.arrow.1 < 8,
        ensures
            r == king_move(pr as int, pc as int, self.arrow.0 as int, self.arrow.1 as int),
    {
        let dr: i64 = self.arrow.0 as i64 - pr as i64;
        let dc: i64 = self.arrow.1 as i64 - pc as i64;
        -1 <= dr && dr <= 1 && -1 <= dc && dc <= 1 && !(dr == 0 && dc == 0)
    }

    /// The move-legality engine. Attempt to move the occupant of
    /// `piece_coords` to the square under the cursor: when the move is
    /// legal for the side whose turn it is, the piece is relocated, the
    /// vacated square reverts to its checker colour, the turn passes to
    /// the other player and `true` comes back; otherwise the whole state
    /// is left exactly as it was and `false` comes back.
    pub fn movement(&mut self, piece_coords: (usize, usize)) -> (r: bool)
        requires
            old(self).wf(),
            piece_coords.0 < 8,
            piece_coords.1 < 8,
        ensures
            final(self).wf(),
            r == move_allowed(
                old(self).board,
                old(self).turn,
                piece_coords.0 as int,
                piece_coords.1 as int,
                old(self).arrow.0 as int,
                old(self).arrow.1 as int,
            ),
            r ==> grid_after_move(
                old(self).board,
                final(self).board,
                piece_coords.0 as int,
                piece_coords.1 as int,
                old(self).arrow.0 as int,
                old(self).arrow.1 as int,
            ),
            r ==> final(self).turn == opposite(old(self).turn),
            final(self).arrow == old(self).arrow,
            final(self).selected_piece == old(self).selected_piece,
            !r ==> *final(self) == *old(self),
    {
        let piece_type = self.tile(piece_coords.0, piece_coords.1);
        if piece_type.colour != self.turn {
            return false;
        }
        let arrow = (self.arrow.0, self.arrow.1);
        if !self.validate_friend(piece_type.colour, arrow) {
            return false;
        }
        let ok = match piece_type.piece {
            Piece::Pawn => self.pawn_ok(piece_coords.0, piece_coords.1, piece_type.colour),
            Piece::Knight => self.knight_ok(piece_coords.0, piece_coords.1),
            Piece::Rook => {
                if arrow.0 == piece_coords.0 && arrow.1 == piece_coords.1 {
                    false
                } else if arrow.0 != piece_coords.0 && arrow.1 != piece_coords.1 {
                    false
                } else {
                    self.check_piece_hop(piece_coords, arrow)
                }
            },
            Piece::Bishop => {
                if arrow.0 == piece_coords.0 && arrow.1 == piece_coords.1 {
                    false
                } else if arrow.0 + arrow.1 != piece_coords.0 + piece_coords.1 && arrow.0 as i64
                    - arrow.1 as i64 != piece_coords.0 as i64 - piece_coords.1 as i64 {
                    false
                } else {
                    self.check_piece_hop(piece_coords, arrow)
                }
            },
            Piece::Queen => {
                if arrow.0 == piece_coords.0 && arrow.1 == piece_coords.1 {
                    false
                } else {
                    self.check_piece_hop(piece_coords, arrow)
                }
            },
            Piece::King => self.king_ok(piece_coords.0, piece_coords.1),
            Piece::Null => false,
        };
        if ok {
            self.switch_pieces(piece_coords, arrow);
            self.toggle_turn();
            true
        } else {
            false
        }
    }

    /// Fill row `row` with pawns of colour `colour`.
    fn pawn_layout(&mut self, row: usize, colour: Colour)
        requires
            row < 8,
            colour != Colour::Null,
        ensures
            final(self).arrow == old(self).arrow,
            final(self).selected_piece == old(self).selected_piece,
            final(self).turn == old(self).turn,
            forall|i: int, j: int|
                in_range(i, j) ==> (#[trigger] final(self).board[i][j]) == (if i == row as int {
                    BlockData { colour, piece: Piece::Pawn }
                } else {
                    old(self).board[i][j]
                }),
    {
        let mut item: usize = 0;
        while item < 8
            invariant
                row < 8,
                item <= 8,
                colour != Colour::Null,
                self.arrow == old(self).arrow,
                self.selected_piece == old(self).selected_piece,
                self.turn == old(self).turn,
                forall|i: int, j: int|
                    in_range(i, j) ==> (#[trigger] self.board[i][j]) == (if i == row as int && j
                        < item {
                        BlockData { colour, piece: Piece::Pawn }
                    } else {
                        old(self).board[i][j]
                    }),
            decreases 8 - item,
        {
            self.set_tile(row, item, BlockData { colour, piece: Piece::Pawn });
            item = item + 1;
        }
    }

    /// Fill row `row` with the back rank of colour `colour`: rook,
    /// knight, bishop in from each corner, and the king and queen on the
    /// middle columns with their places mirrored between the sides.
    fn piece_layout(&mut self, row: usize, colour: Colour)
        requires
            row < 8,
            colour != Colour::Null,
        ensures
            final(self).arrow == old(self).arrow,
            final(self).selected_piece == old(self).selected_piece,
            final(self).turn == old(self).turn,
            forall|i: int, j: int|
                in_range(i, j) ==> (#[trigger] final(self).board[i][j]) == (if i == row as int {
                    BlockData { colour, piece: back_rank_piece(colour, j) }
                } else {
                    old(self).board[i][j]
                }),
    {
        let mut index: usize = 0;
        while index < 8
            invariant
                row < 8,
                index <= 8,
                colour != Colour::Null,
                self.arrow == old(self).arrow,
                self.selected_piece == old(self).selected_piece,
                self.turn == old(self).turn,
                forall|i: int, j: int|
                    in_range(i, j) ==> (#[trigger] self.board[i][j]) == (if i == row as int && j
                        < index {
                        BlockData { colour, piece: back_rank_piece(colour, j) }
                    } else {
                        old(self).board[i][j]
                    }),
            decreases 8 - index,
        {
            let piece = if index == 0 || index == 7 {
                Piece::Rook
            } else if index == 1 || index == 6 {
                Piece::Knight
            } else if index == 2 || index == 5 {
                Piece::Bishop
            } else if index == 3 {
                if colour == Colour::White {
                    Piece::King
                } else {
                    Piece::Queen
                }
            } else {
                if colour == Colour::White {
                    Piece::Queen
                } else {
                    Piece::King
                }
            };
            self.set_tile(row, index, BlockData { colour, piece });
            index = index + 1;
        }
    }

    /// Place the 32 starting pieces: pawns on the row nearest each side's
    /// back rank, and the back ranks themselves, king and queen mirrored
    /// between the sides. Every other square is left as it is.
    pub fn populate_pieces(&mut self)
        ensures
            final(self).arrow == old(self).arrow,
            final(self).selected_piece == old(self).selected_piece,
            final(self).turn == old(self).turn,
            forall|i: int, j: int|
                in_range(i, j) ==> (#[trigger] final(self).board[i][j]) == (if i == 0 || i == 1
                    || i == 6 || i == 7 {
                    starting_tile(i, j)
                } else {
                    old(self).board[i][j]
                }),
    {
        self.pawn_layout(1, Colour::White);
        self.pawn_layout(6, Colour::Black);
        self.piece_layout(0, Colour::White);
        self.piece_layout(7, Colour::Black);
    }
}

/// Rejection is idempotent. A rejected `movement` call leaves the state
/// exactly as it was (its contract gives `after == before`), and the
/// legality rule reads nothing but that state and the move's coordinates,
/// so a second call with the same arguments is rejected again and, by the
/// same contract, again changes nothing.
pub proof fn lemma_rejection_idempotent(before: Matrix, after: Matrix, pr: int, pc: int)
    requires
        !move_allowed(
            before.board,
            before.turn,
            pr,
            pc,
            before.arrow.0 as int,
            before.arrow.1 as int,
        ),
        after == before,
    ensures
        !move_allowed(after.board, after.turn, pr, pc, after.arrow.0 as int, after.arrow.1 as int),
{
}

/// A fully set up game, ready for white's first move: the checkerboard
/// colouring laid down by parity and the 32 starting pieces in their
/// standard places.
pub fn new_game() -> (m: Matrix)
    ensures
        m.wf(),
        starting_state(m),
{
    let mut m = Matrix::new();
    m.populate_pieces();
    m
}

} // verus!
