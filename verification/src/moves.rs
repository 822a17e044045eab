//! Reading the squares and roles out of a move.

use vstd::prelude::*;
use crate::engine::{Move, MoveData};
use crate::types::{Role, Square};

verus! {

/// The piece role for an engine role code (1 pawn, 2 knight, 3 bishop,
/// 4 rook, 5 queen, 6 king).
pub open spec fn role_of_code(c: u8) -> Role {
    if c == 1 {
        Role::Pawn
    } else if c == 2 {
        Role::Knight
    } else if c == 3 {
        Role::Bishop
    } else if c == 4 {
        Role::Rook
    } else if c == 5 {
        Role::Queen
    } else {
        Role::King
    }
}

/// The engine's code of a role: the discriminant of `shakmaty::Role`
/// (pawn 1, knight 2, bishop 3, rook 4, queen 5, king 6), which
/// `Role::try_from` reads back.
pub open spec fn code_of_role(r: Role) -> u8 {
    match r {
        Role::Pawn => 1,
        Role::Knight => 2,
        Role::Bishop => 3,
        Role::Rook => 4,
        Role::Queen => 5,
        Role::King => 6,
    }
}

/// Reading a role code gives the engine's role: each role's code reads back
/// as that role, and each code from 1 to 6 is the code of the role it reads
/// as.
pub proof fn lemma_role_codes(r: Role, c: u8)
    ensures
        role_of_code(code_of_role(r)) == r,
        1 <= c <= 6 ==> code_of_role(role_of_code(c)) == c,
{
}

/// A promoting move promotes to exactly the role whose engine code it
/// carries.
pub proof fn lemma_promotion_role_code(m: MoveData, r: Role)
    requires
        m matches MoveData::Normal { promotion: Some(c), .. } && 1 <= c <= 6,
    ensures
        promotion_role_spec(m) == Some(r) <==> (m matches MoveData::Normal {
            promotion: Some(c),
            ..
        } && c == code_of_role(r)),
{
}

/// The square the king lands on when castling: the g-file when the rook
/// stands on the king's right (king side), the c-file otherwise, on the
/// king's rank (`Move::castling_side` with `CastlingSide::king_to_file`).
pub open spec fn castle_king_target(king: u8, rook: u8) -> Square {
    Square { index: ((king / 8) * 8 + if king < rook { 6int } else { 2int }) as u8 }
}

/// The origin square of a move: the king's square for castling, none for a
/// drop.
pub open spec fn move_from_spec(m: MoveData) -> Option<Square> {
    match m {
        MoveData::Normal { from, .. } => Some(Square { index: from }),
        MoveData::EnPassant { from, .. } => Some(Square { index: from }),
        MoveData::Castle { king, .. } => Some(Square { index: king }),
        MoveData::Put { .. } => None,
    }
}

/// The destination square of a move as a player sees it: for castling, the
/// king's final square rather than the rook's square; none for a drop.
pub open spec fn move_to_spec(m: MoveData) -> Option<Square> {
    match m {
        MoveData::Normal { to, .. } => Some(Square { index: to }),
        MoveData::EnPassant { to, .. } => Some(Square { index: to }),
        MoveData::Castle { king, rook } => Some(castle_king_target(king, rook)),
        MoveData::Put { .. } => None,
    }
}

/// Origin and destination together, when the move has both.
pub open spec fn move_squares_spec(m: MoveData) -> Option<(Square, Square)> {
    match (move_from_spec(m), move_to_spec(m)) {
        (Some(f), Some(t)) => Some((f, t)),
        _ => None,
    }
}

/// The role a pawn promotes to, for a promoting move.
pub open spec fn promotion_role_spec(m: MoveData) -> Option<Role> {
    match m {
        MoveData::Normal { promotion: Some(c), .. } => Some(role_of_code(c)),
        _ => None,
    }
}

fn role_from_code(c: u8) -> (r: Role)
    ensures
        r == role_of_code(c),
{
    if c == 1 {
        Role::Pawn
    } else if c == 2 {
        Role::Knight
    } else if c == 3 {
        Role::Bishop
    } else if c == 4 {
        Role::Rook
    } else if c == 5 {
        Role::Queen
    } else {
        Role::King
    }
}

/// Returns the origin square of a move.
pub fn move_from(mv: &Move) -> (r: Option<Square>)
    ensures
        r == move_from_spec(mv@),
{
    match mv.data() {
        MoveData::Normal { from, .. } => Some(Square { index: from }),
        MoveData::EnPassant { from, .. } => Some(Square { index: from }),
        MoveData::Castle { king, .. } => Some(Square { index: king }),
        MoveData::Put { .. } => None,
    }
}

/// Returns the destination square of a move, using the king's final square
/// for castling.
pub fn move_to(mv: &Move) -> (r: Option<Square>)
    ensures
        r == move_to_spec(mv@),
{
    match mv.data() {
        MoveData::Normal { to, .. } => Some(Square { index: to }),
        MoveData::EnPassant { to, .. } => Some(Square { index: to }),
        MoveData::Castle { king, rook } => {
            let file: u8 = if king < rook { 6 } else { 2 };
            Some(Square { index: (king / 8) * 8 + file })
        },
        MoveData::Put { .. } => None,
    }
}

/// Returns the origin and destination squares, when the move has both.
pub fn move_squares(mv: &Move) -> (r: Option<(Square, Square)>)
    ensures
        r == move_squares_spec(mv@),
{
    let from = move_from(mv)?;
    let to = move_to(mv)?;
    Some((from, to))
}

/// Returns the role a promoting move promotes to.
pub fn promotion_role(mv: &Move) -> (r: Option<Role>)
    ensures
        r == promotion_role_spec(mv@),
{
    match mv.data() {
        MoveData::Normal { promotion: Some(c), .. } => Some(role_from_code(c)),
        _ => None,
    }
}

/// When castling, the king lands on its own rank, on the g-file when the
/// rook stands to its right and on the c-file otherwise.
pub proof fn lemma_castle_target(king: u8, rook: u8)
    requires
        king < 64,
    ensures
        castle_king_target(king, rook).valid(),
        castle_king_target(king, rook).rank() == (Square { index: king }).rank(),
        castle_king_target(king, rook).file() == if king < rook { 6int } else { 2int },
{
}

} // verus!
