//! The text of the move list and of the CSV export.

use vstd::prelude::*;
use crate::engine::MoveData;
use crate::moves::move_squares_spec;
use crate::text::{
    color_name_of, csv_field, decimal, file_char, is_csv_special, needs_csv_quotes,
    rank_char, square_name,
};
use crate::types::{Color, Square};

verus! {

/// The move number of ply `i` (0 for White's first move, 1 for Black's
/// first move, and so on).
pub open spec fn move_number(i: int) -> int {
    i / 2 + 1
}

/// "N." before a White move, "N..." before a Black one.
pub open spec fn move_prefix(i: int) -> Seq<char> {
    decimal(move_number(i) as nat) + if i % 2 == 0 {
        "."@
    } else {
        "..."@
    }
}

/// One line of the move list for ply `i`: "N. White: e2 -> e4", or with the
/// move's notation when the move has no origin and destination squares.
pub open spec fn move_line(i: int, san: Seq<char>, m: MoveData, mover: Color) -> Seq<char> {
    let head = move_prefix(i) + " "@ + color_name_of(mover) + ": "@;
    match move_squares_spec(m) {
        Some((f, t)) => head + square_name(f) + " -> "@ + square_name(t),
        None => head + san,
    }
}

/// The header line of the CSV export.
pub open spec fn csv_header() -> Seq<char> {
    "move_number,side,from,to,san\n"@
}

/// One CSV line for ply `i`: move number, side, origin, destination and
/// notation, each text field escaped; origin and destination are empty for
/// a move without both squares.
pub open spec fn csv_row(i: int, san: Seq<char>, m: MoveData, mover: Color) -> Seq<char> {
    let (from, to) = match move_squares_spec(m) {
        Some((f, t)) => (square_name(f), square_name(t)),
        None => (Seq::<char>::empty(), Seq::<char>::empty()),
    };
    decimal(move_number(i) as nat) + ","@ + csv_field(color_name_of(mover)) + ","@ + csv_field(
        from,
    ) + ","@ + csv_field(to) + ","@ + csv_field(san) + "\n"@
}

proof fn lemma_plain_field(s: Seq<char>)
    requires
        forall|i: int| 0 <= i < s.len() ==> !is_csv_special(#[trigger] s[i]),
    ensures
        csv_field(s) == s,
{
    assert(!needs_csv_quotes(s));
}

/// The move list and the CSV export describe a move alike: the same move
/// number, the same side and the same squares, none of which ever needs CSV
/// quoting; a move without both squares shows its notation in the list and
/// leaves both square fields empty in the CSV row.
pub proof fn lemma_line_and_row_agree(i: int, san: Seq<char>, m: MoveData, mover: Color)
    ensures
        move_squares_spec(m) matches Some((f, t)) ==> {
            &&& move_line(i, san, m, mover) == move_prefix(i) + " "@ + color_name_of(mover) + ": "@
                + square_name(f) + " -> "@ + square_name(t)
            &&& csv_row(i, san, m, mover) == decimal(move_number(i) as nat) + ","@ + color_name_of(
                mover,
            ) + ","@ + square_name(f) + ","@ + square_name(t) + ","@ + csv_field(san) + "\n"@
        },
        move_squares_spec(m) is None ==> {
            &&& move_line(i, san, m, mover) == move_prefix(i) + " "@ + color_name_of(mover) + ": "@
                + san
            &&& csv_row(i, san, m, mover) == decimal(move_number(i) as nat) + ","@ + color_name_of(
                mover,
            ) + ",,,"@ + csv_field(san) + "\n"@
        },
{
    reveal_strlit("White");
    reveal_strlit("Black");
    reveal_strlit(",");
    reveal_strlit(",,,");
    lemma_plain_field(color_name_of(mover));
    lemma_plain_field(Seq::<char>::empty());
    if let Some((f, t)) = move_squares_spec(m) {
        lemma_plain_square(f);
        lemma_plain_square(t);
    } else {
        assert(","@ + csv_field(Seq::<char>::empty()) + ","@ + csv_field(Seq::<char>::empty()) + ","@
            =~= ",,,"@);
    }
}

proof fn lemma_plain_square(sq: Square)
    ensures
        csv_field(square_name(sq)) == square_name(sq),
{
    let n = square_name(sq);
    assert(n[0] == file_char(sq.file()));
    assert(n[1] == rank_char(sq.rank()));
    lemma_plain_field(n);
}

} // verus!
