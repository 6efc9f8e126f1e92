//! A turn-based rule-validation engine for chess-style play on an 8x8 grid.
//!
//! The engine decides whether a requested move is legal for the piece that
//! makes it, rejects moves that break turn order or capture a friendly
//! unit, and applies legal moves while keeping the checkerboard colouring
//! of vacated squares intact. A directional cursor, wrapping at the grid
//! edges, supplies the coordinates that the engine consumes.

pub mod board;
pub mod rules;
pub mod tile;

pub use board::Matrix;
pub use tile::BlockData;
pub use tile::Colour;
pub use tile::Piece;
