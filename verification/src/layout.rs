//! Board orientation: converting between chess squares and the grid cells
//! on screen, where display rank 0 is the top row and display file 0 the
//! left column.

use vstd::prelude::*;
use crate::game::square_from_indices;
use crate::types::Square;

verus! {

/// The square shown in grid cell (`display_file`, `display_rank`). Unflipped,
/// White sits at the bottom: the top row is rank 8. Flipped, Black sits at
/// the bottom and files run from h to a. (Indices are taken as `u32`, as
/// `File::new` and `Rank::new` receive them.)
pub open spec fn displayed_square_of(display_file: int, display_rank: int, flipped: bool) -> Square {
    let file = if flipped {
        7 - display_file
    } else {
        display_file
    };
    let rank = if flipped {
        display_rank
    } else {
        7 - display_rank
    };
    Square { index: ((file as u32) + 8 * (rank as u32)) as u8 }
}

/// The grid cell where a square is shown; none for a square whose rank is
/// off the board when it must be counted down from the top.
pub open spec fn display_coords_of(square: Square, flipped: bool) -> Option<(usize, usize)> {
    let file = square.file();
    let rank = square.rank();
    if flipped {
        Some(((7 - file) as usize, rank as usize))
    } else if rank <= 7 {
        Some((file as usize, (7 - rank) as usize))
    } else {
        None
    }
}

/// Converts a grid cell into the chess square shown there.
pub fn displayed_square(display_file: usize, display_rank: usize, flipped: bool) -> (r: Square)
    requires
        flipped ==> display_file <= 7 && (display_rank as u32) < 8,
        !flipped ==> display_rank <= 7 && (display_file as u32) < 8,
    ensures
        r == displayed_square_of(display_file as int, display_rank as int, flipped),
{
    let board_file = if flipped {
        7 - display_file
    } else {
        display_file
    };
    let board_rank = if flipped {
        display_rank
    } else {
        7 - display_rank
    };
    square_from_indices(board_file, board_rank)
}

/// Converts a chess square into the grid cell where it is shown.
pub fn display_coords(square: Square, flipped: bool) -> (r: Option<(usize, usize)>)
    ensures
        r == display_coords_of(square, flipped),
{
    let file_index = square.file_index();
    let rank_index = square.rank_index();
    let display_file = if flipped {
        7usize.checked_sub(file_index)?
    } else {
        file_index
    };
    let display_rank = if flipped {
        rank_index
    } else {
        7usize.checked_sub(rank_index)?
    };
    Some((display_file, display_rank))
}

/// Whether the grid cell shows a light square (the top-left cell is light).
pub fn is_light_cell(display_file: usize, display_rank: usize) -> (r: bool)
    ensures
        r == ((display_file + display_rank) % 2 == 0),
{
    display_file % 2 == display_rank % 2
}

/// Showing a square and reading back the square in that cell gives the same
/// square, in either orientation.
pub proof fn lemma_display_round_trip(square: Square, flipped: bool)
    requires
        square.valid(),
    ensures
        display_coords_of(square, flipped) matches Some((f, r)) && f <= 7 && r <= 7
            && displayed_square_of(f as int, r as int, flipped) == square,
{
}

/// Every grid cell shows a square on the board, and that square is shown in
/// that same cell.
pub proof fn lemma_cell_round_trip(display_file: int, display_rank: int, flipped: bool)
    requires
        0 <= display_file <= 7,
        0 <= display_rank <= 7,
    ensures
        displayed_square_of(display_file, display_rank, flipped).valid(),
        display_coords_of(displayed_square_of(display_file, display_rank, flipped), flipped)
            == Some((display_file as usize, display_rank as usize)),
{
}

} // verus!
