//! Plain chess vocabulary shared by the whole crate: colors, piece roles,
//! pieces and board squares.

use vstd::prelude::*;

verus! {

/// A side in the game.
#[derive(Clone, Copy, PartialEq, Eq, Structural, Debug, Hash)]
pub enum Color {
    White,
    Black,
}

/// The kind of a chess piece.
#[derive(Clone, Copy, PartialEq, Eq, Structural, Debug, Hash)]
pub enum Role {
    Pawn,
    Knight,
    Bishop,
    Rook,
    Queen,
    King,
}

/// A piece: its color and its role.
#[derive(Clone, Copy, PartialEq, Eq, Structural, Debug)]
pub struct Piece {
    pub color: Color,
    pub role: Role,
}

/// A board square, numbered `file + 8 * rank` from a1 = 0 to h8 = 63.
#[derive(Clone, Copy, PartialEq, Eq, Structural, Debug)]
pub struct Square {
    pub index: u8,
}

/// The other side.
pub open spec fn other(c: Color) -> Color {
    match c {
        Color::White => Color::Black,
        Color::Black => Color::White,
    }
}

impl Square {
    /// A square on the board (index below 64).
    pub open spec fn valid(self) -> bool {
        self.index < 64
    }

    /// File index, 0 for the a-file up to 7 for the h-file.
    pub open spec fn file(self) -> int {
        self.index as int % 8
    }

    /// Rank index, 0 for the first rank up to 7 for the eighth.
    pub open spec fn rank(self) -> int {
        self.index as int / 8
    }

    /// Returns the file index of this square.
    pub fn file_index(&self) -> (r: usize)
        ensures
            r == self.file(),
    {
        (self.index % 8) as usize
    }

    /// Returns the rank index of this square.
    pub fn rank_index(&self) -> (r: usize)
        ensures
            r == self.rank(),
    {
        (self.index / 8) as usize
    }
}

/// Returns the opposite color.
pub fn opposite_color(color: Color) -> (r: Color)
    ensures
        r == other(color),
{
    match color {
        Color::White => Color::Black,
        Color::Black => Color::White,
    }
}

/// Switching sides twice gives back the same side.
pub proof fn lemma_opposite_involutive(c: Color)
    ensures
        other(other(c)) == c,
        other(c) != c,
{
}

} // verus!
