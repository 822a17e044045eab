//! Bridge to the `shakmaty` rules engine.
//!
//! A position is carried as the engine's own `Chess` value together with a
//! plain copy of what it holds: the board bitboards, the side to move, the
//! castling rights, the legal en passant square and the halfmove clock, as
//! `Position::to_setup(EnPassantMode::Legal)` reports them. Both fields are
//! private and every `ChessPos` is built by `start_position` or `play_move`
//! below, which fill the copy from the engine value they hold, so the copy
//! (the view of a `ChessPos`) always describes the engine position. Moves
//! are carried the same way: the engine's move with a plain copy of its
//! fields, built by `legal_moves` or, from the plain fields, by `build_move`.

use vstd::prelude::*;
use shakmaty::{Chess, EnPassantMode, Position};
use shakmaty::san::San;
use shakmaty::Color as EngineColor;
use shakmaty::Move as EngineMove;
use shakmaty::Role as EngineRole;
use shakmaty::Square as EngineSquare;
use crate::types::{Color, Piece, Role, Square};

verus! {

#[verifier::external_type_specification]
#[verifier::external_body]
pub struct ExChess(Chess);

#[verifier::external_type_specification]
#[verifier::external_body]
pub struct ExEngineMove(EngineMove);

/// What makes two positions the same position for repetition purposes: the
/// board, the side to move, the castling rights and the square of a legal
/// en passant capture. Squares are numbered `file + 8 * rank`, and each
/// bitboard has bit `i` set when square `i` holds such a piece.
#[derive(Clone, Copy, PartialEq, Eq, Structural, Debug)]
pub struct PositionKey {
    pub pawns: u64,
    pub knights: u64,
    pub bishops: u64,
    pub rooks: u64,
    pub queens: u64,
    pub kings: u64,
    pub white: u64,
    pub black: u64,
    pub turn: Color,
    /// Squares of the rooks that may still castle.
    pub castling_rights: u64,
    /// Target square of a legal en passant capture, if there is one.
    pub ep_square: Option<u8>,
}

/// A plain description of a position: its repetition key and its halfmove
/// clock. (The move number is left out: nothing here depends on it.)
#[derive(Clone, Copy, PartialEq, Eq, Structural, Debug)]
pub struct Snapshot {
    pub key: PositionKey,
    /// Plies since the last capture or pawn move.
    pub halfmoves: u32,
}

/// A plain description of a move. Roles are coded 1 (pawn) to 6 (king) and
/// squares are numbered `file + 8 * rank`.
#[derive(Clone, Copy, PartialEq, Eq, Structural, Debug)]
pub enum MoveData {
    Normal { role: u8, from: u8, capture: Option<u8>, to: u8, promotion: Option<u8> },
    EnPassant { from: u8, to: u8 },
    /// Castling, given by the king's square and the castling rook's square.
    Castle { king: u8, rook: u8 },
    /// A piece drop; standard chess never generates one.
    Put { role: u8, to: u8 },
}

/// A position of the rules engine.
pub struct ChessPos {
    chess: Chess,
    snap: Snapshot,
}

/// A move of the rules engine.
#[derive(Clone, Copy)]
pub struct Move {
    engine: EngineMove,
    data: MoveData,
}

impl View for ChessPos {
    type V = Snapshot;

    closed spec fn view(&self) -> Snapshot {
        self.snap
    }
}

impl View for Move {
    type V = MoveData;

    closed spec fn view(&self) -> MoveData {
        self.data
    }
}

impl ChessPos {
    /// The plain description of this position.
    pub fn snapshot(&self) -> (r: Snapshot)
        ensures
            r == self@,
    {
        self.snap
    }
}

impl Move {
    /// The plain description of this move.
    pub fn data(&self) -> (r: MoveData)
        ensures
            r == self@,
    {
        self.data
    }
}

/// Plain move data that names real squares (0 to 63) and real role codes
/// (1 to 6).
pub open spec fn move_data_valid(d: MoveData) -> bool {
    let role_ok = |c: u8| 1 <= c <= 6;
    match d {
        MoveData::Normal { role, from, capture, to, promotion } => {
            &&& role_ok(role)
            &&& from < 64 && to < 64
            &&& capture matches Some(c) ==> role_ok(c)
            &&& promotion matches Some(c) ==> role_ok(c)
        },
        MoveData::EnPassant { from, to } => from < 64 && to < 64,
        MoveData::Castle { king, rook } => king < 64 && rook < 64,
        MoveData::Put { role, to } => role_ok(role) && to < 64,
    }
}

fn role_code_ok(c: u8) -> (r: bool)
    ensures
        r == (1 <= c <= 6),
{
    1 <= c && c <= 6
}

fn optional_role_code_ok(c: Option<u8>) -> (r: bool)
    ensures
        r == (c matches Some(x) ==> 1 <= x <= 6),
{
    match c {
        Some(x) => role_code_ok(x),
        None => true,
    }
}

/// The engine move with exactly the given fields.
///
/// Trusted wrapper around the constructors of `shakmaty::Move`, with
/// `Square::new` (which asserts an index below 64) and `Role::try_from`
/// (codes 1 to 6) for the fields; the engine move then carries the same
/// fields that `legal_moves` would read out of it.
#[verifier::external_body]
fn build_move(d: MoveData) -> (r: Move)
    requires
        move_data_valid(d),
    ensures
        r@ == d,
{
    let sq = |i: u8| EngineSquare::new(u32::from(i));
    let code = |c: u8| EngineRole::try_from(c).unwrap();
    let engine = match d {
        MoveData::Normal { role, from, capture, to, promotion } => EngineMove::Normal { role: code(role), from: sq(from), capture: capture.map(code), to: sq(to), promotion: promotion.map(code) },
        MoveData::EnPassant { from, to } => EngineMove::EnPassant { from: sq(from), to: sq(to) },
        MoveData::Castle { king, rook } => EngineMove::Castle { king: sq(king), rook: sq(rook) },
        MoveData::Put { role, to } => EngineMove::Put { role: code(role), to: sq(to) },
    };
    Move { engine, data: d }
}

impl Move {
    /// A move with the given fields, whether or not it is legal anywhere;
    /// `None` when a square or role code is out of range.
    pub fn new(d: MoveData) -> (r: Option<Move>)
        ensures
            r is Some <==> move_data_valid(d),
            r matches Some(m) ==> m@ == d,
    {
        let ok = match d {
            MoveData::Normal { role, from, capture, to, promotion } => role_code_ok(role) && from < 64
                && to < 64 && optional_role_code_ok(capture) && optional_role_code_ok(promotion),
            MoveData::EnPassant { from, to } => from < 64 && to < 64,
            MoveData::Castle { king, rook } => king < 64 && rook < 64,
            MoveData::Put { role, to } => role_code_ok(role) && to < 64,
        };
        if ok {
            Some(build_move(d))
        } else {
            None
        }
    }
}

/// The plain descriptions of a list of moves.
pub open spec fn move_views(s: Seq<Move>) -> Seq<MoveData> {
    s.map_values(|m: Move| m@)
}

/// Whether bit `i` of a bitboard is set.
pub open spec fn has_bit(bits: u64, i: u8) -> bool {
    (bits >> i) & 1u64 == 1u64
}

/// The color of the piece on square `i`, looking at White first
/// (`Board::color_at`).
pub open spec fn color_on(k: PositionKey, i: u8) -> Option<Color> {
    if has_bit(k.white, i) {
        Some(Color::White)
    } else if has_bit(k.black, i) {
        Some(Color::Black)
    } else {
        None
    }
}

/// The role of the piece on square `i`: the first role bitboard that holds
/// it, in the order pawn, knight, bishop, rook, queen, and king otherwise
/// (`ByRole::find_or_king`).
pub open spec fn role_on(k: PositionKey, i: u8) -> Role {
    if has_bit(k.pawns, i) {
        Role::Pawn
    } else if has_bit(k.knights, i) {
        Role::Knight
    } else if has_bit(k.bishops, i) {
        Role::Bishop
    } else if has_bit(k.rooks, i) {
        Role::Rook
    } else if has_bit(k.queens, i) {
        Role::Queen
    } else {
        Role::King
    }
}

/// The piece on a square, as `Board::piece_at` reads the bitboards; `None`
/// for an empty square or a square off the board.
pub open spec fn piece_on(k: PositionKey, sq: Square) -> Option<Piece> {
    if sq.index < 64 {
        match color_on(k, sq.index) {
            Some(c) => Some(Piece { color: c, role: role_on(k, sq.index) }),
            None => None,
        }
    } else {
        None
    }
}

/// The bitboard of one role.
pub open spec fn role_board(k: PositionKey, r: Role) -> u64 {
    match r {
        Role::Pawn => k.pawns,
        Role::Knight => k.knights,
        Role::Bishop => k.bishops,
        Role::Rook => k.rooks,
        Role::Queen => k.queens,
        Role::King => k.kings,
    }
}

/// The bitboard of one color.
pub open spec fn color_board(k: PositionKey, c: Color) -> u64 {
    match c {
        Color::White => k.white,
        Color::Black => k.black,
    }
}

/// Reading the board: a square on the board whose bit is set in exactly
/// one color bitboard and exactly one role bitboard holds a piece of that
/// color and role; a square in neither color bitboard is empty.
pub proof fn lemma_piece_on_reads_boards(k: PositionKey, sq: Square, c: Color, r: Role)
    requires
        sq.valid(),
    ensures
        ({
            &&& has_bit(color_board(k, c), sq.index)
            &&& !has_bit(color_board(k, crate::types::other(c)), sq.index)
            &&& has_bit(role_board(k, r), sq.index)
            &&& forall|r2: Role| r2 != r ==> !has_bit(#[trigger] role_board(k, r2), sq.index)
        }) ==> piece_on(k, sq) == Some(Piece { color: c, role: r }),
        !has_bit(k.white, sq.index) && !has_bit(k.black, sq.index) ==> piece_on(k, sq) is None,
{
    let i = sq.index;
    if has_bit(color_board(k, c), i) && !has_bit(color_board(k, crate::types::other(c)), i)
        && has_bit(role_board(k, r), i) && (forall|r2: Role|
        r2 != r ==> !has_bit(#[trigger] role_board(k, r2), i)) {
        assert(r != Role::Pawn ==> !has_bit(role_board(k, Role::Pawn), i));
        assert(r != Role::Knight ==> !has_bit(role_board(k, Role::Knight), i));
        assert(r != Role::Bishop ==> !has_bit(role_board(k, Role::Bishop), i));
        assert(r != Role::Rook ==> !has_bit(role_board(k, Role::Rook), i));
        assert(r != Role::Queen ==> !has_bit(role_board(k, Role::Queen), i));
    }
}

/// The first rank of the standard start, read from its bitboards: a1 to h1
/// hold a white rook, knight, bishop, queen, king, bishop, knight and rook.
pub proof fn lemma_start_first_rank()
    ensures
        piece_on(standard_start().key, Square { index: 0 }) == Some(Piece { color: Color::White, role: Role::Rook }),
        piece_on(standard_start().key, Square { index: 1 }) == Some(Piece { color: Color::White, role: Role::Knight }),
        piece_on(standard_start().key, Square { index: 2 }) == Some(Piece { color: Color::White, role: Role::Bishop }),
        piece_on(standard_start().key, Square { index: 3 }) == Some(Piece { color: Color::White, role: Role::Queen }),
        piece_on(standard_start().key, Square { index: 4 }) == Some(Piece { color: Color::White, role: Role::King }),
        piece_on(standard_start().key, Square { index: 5 }) == Some(Piece { color: Color::White, role: Role::Bishop }),
        piece_on(standard_start().key, Square { index: 6 }) == Some(Piece { color: Color::White, role: Role::Knight }),
        piece_on(standard_start().key, Square { index: 7 }) == Some(Piece { color: Color::White, role: Role::Rook }),
{
    let p: u64 = 0x00ff_0000_0000_ff00;
    let n: u64 = 0x4200_0000_0000_0042;
    let b: u64 = 0x2400_0000_0000_0024;
    let r: u64 = 0x8100_0000_0000_0081;
    let q: u64 = 0x0800_0000_0000_0008;
    let w: u64 = 0xffff;
    assert(forall|i: u8|
        i < 8 ==> ((w >> i) & 1u64 == 1u64 && (p >> i) & 1u64 != 1u64 && ((n >> i) & 1u64 == 1u64
            <==> (i == 1 || i == 6)) && ((b >> i) & 1u64 == 1u64 <==> (i == 2 || i == 5)) && ((r
            >> i) & 1u64 == 1u64 <==> (i == 0 || i == 7)) && ((q >> i) & 1u64 == 1u64 <==> i == 3)))
        by (bit_vector)
        requires
            p == 0x00ff_0000_0000_ff00u64,
            n == 0x4200_0000_0000_0042u64,
            b == 0x2400_0000_0000_0024u64,
            r == 0x8100_0000_0000_0081u64,
            q == 0x0800_0000_0000_0008u64,
            w == 0xffffu64,
    ;
    assert(has_bit(w, 0u8) && has_bit(w, 1u8) && has_bit(w, 2u8) && has_bit(w, 3u8));
    assert(has_bit(w, 4u8) && has_bit(w, 5u8) && has_bit(w, 6u8) && has_bit(w, 7u8));
    assert(!has_bit(p, 0u8) && !has_bit(p, 1u8) && !has_bit(p, 2u8) && !has_bit(p, 3u8));
    assert(!has_bit(p, 4u8) && !has_bit(p, 5u8) && !has_bit(p, 6u8) && !has_bit(p, 7u8));
    assert(has_bit(n, 1u8) && has_bit(n, 6u8) && !has_bit(n, 0u8) && !has_bit(n, 2u8));
    assert(!has_bit(n, 3u8) && !has_bit(n, 4u8) && !has_bit(n, 5u8) && !has_bit(n, 7u8));
    assert(has_bit(b, 2u8) && has_bit(b, 5u8) && !has_bit(b, 0u8) && !has_bit(b, 3u8));
    assert(!has_bit(b, 4u8) && !has_bit(b, 7u8));
    assert(has_bit(r, 0u8) && has_bit(r, 7u8) && !has_bit(r, 3u8) && !has_bit(r, 4u8));
    assert(has_bit(q, 3u8) && !has_bit(q, 4u8));
}

impl PositionKey {
    /// Returns the piece on `square`, if any.
    pub fn piece_at(&self, square: Square) -> (r: Option<Piece>)
        ensures
            r == piece_on(*self, square),
    {
        let i = square.index;
        if i >= 64 {
            return None;
        }
        let color = if (self.white >> i) & 1 == 1 {
            Color::White
        } else if (self.black >> i) & 1 == 1 {
            Color::Black
        } else {
            return None;
        };
        let role = if (self.pawns >> i) & 1 == 1 {
            Role::Pawn
        } else if (self.knights >> i) & 1 == 1 {
            Role::Knight
        } else if (self.bishops >> i) & 1 == 1 {
            Role::Bishop
        } else if (self.rooks >> i) & 1 == 1 {
            Role::Rook
        } else if (self.queens >> i) & 1 == 1 {
            Role::Queen
        } else {
            Role::King
        };
        Some(Piece { color, role })
    }
}

/// The standard starting position.
pub open spec fn standard_start() -> Snapshot {
    Snapshot {
        key: PositionKey {
            pawns: 0x00ff_0000_0000_ff00,
            knights: 0x4200_0000_0000_0042,
            bishops: 0x2400_0000_0000_0024,
            rooks: 0x8100_0000_0000_0081,
            queens: 0x0800_0000_0000_0008,
            kings: 0x1000_0000_0000_0010,
            white: 0xffff,
            black: 0xffff_0000_0000_0000,
            turn: Color::White,
            castling_rights: 0x8100_0000_0000_0081,
            ep_square: None,
        },
        halfmoves: 0,
    }
}

/// The legal moves of a position, in the order the engine generates them
/// (`Position::legal_moves`).
pub uninterp spec fn legal_moves_of(p: Snapshot) -> Seq<MoveData>;

/// Whether the side to move is in check (`Position::is_check`).
pub uninterp spec fn check_in(p: Snapshot) -> bool;

/// Whether neither side has mating material
/// (`Position::is_insufficient_material`).
pub uninterp spec fn insufficient_material_in(p: Snapshot) -> bool;

/// The position reached by playing a move (`Position::play`).
pub uninterp spec fn position_after(p: Snapshot, m: MoveData) -> Snapshot;

/// The standard algebraic notation of a move (`San::from_move`, displayed).
pub uninterp spec fn san_of(p: Snapshot, m: MoveData) -> Seq<char>;

/// Whether a move resets the halfmove clock: a pawn move, a capture, an
/// en passant capture or a pawn drop (`Move::is_zeroing`).
pub open spec fn zeroing(m: MoveData) -> bool {
    match m {
        MoveData::Normal { role, capture, .. } => role == 1 || capture is Some,
        MoveData::EnPassant { .. } => true,
        MoveData::Castle { .. } => false,
        MoveData::Put { role, .. } => role == 1,
    }
}

/// The halfmove clock after a move: zero after a zeroing move, otherwise
/// one more, stopping at `u32::MAX`.
pub open spec fn halfmoves_after(p: Snapshot, m: MoveData) -> u32 {
    if zeroing(m) {
        0
    } else if p.halfmoves < u32::MAX {
        (p.halfmoves + 1) as u32
    } else {
        u32::MAX
    }
}

/// Checkmate: in check with no legal move.
pub open spec fn checkmate_in(p: Snapshot) -> bool {
    check_in(p) && legal_moves_of(p).len() == 0
}

/// Stalemate: not in check and no legal move.
pub open spec fn stalemate_in(p: Snapshot) -> bool {
    !check_in(p) && legal_moves_of(p).len() == 0
}

/// Whether a move is legal in a position.
pub open spec fn legal_in(p: Snapshot, m: MoveData) -> bool {
    legal_moves_of(p).contains(m)
}

/// The starting position of a standard game.
///
/// Trusted wrapper around `Chess::default()`. Its source builds
/// `Chess::new()`: the initial board, White to move, all four castling
/// rights (the corner rooks), no en passant square and halfmove clock 0,
/// which is what the contract states.
#[verifier::external_body]
pub(crate) fn start_position() -> (r: ChessPos)
    ensures
        r@ == standard_start(),
{
    let c = Chess::default();
    let s = c.to_setup(EnPassantMode::Legal);
    let (r, k) = s.board.into_bitboards();
    let turn = match s.turn { EngineColor::White => Color::White, EngineColor::Black => Color::Black };
    let key = PositionKey { pawns: r.pawn.0, knights: r.knight.0, bishops: r.bishop.0, rooks: r.rook.0, queens: r.queen.0, kings: r.king.0, white: k.white.0, black: k.black.0, turn, castling_rights: s.castling_rights.0, ep_square: s.ep_square.map(|q| q as u8) };
    ChessPos { snap: Snapshot { key, halfmoves: s.halfmoves }, chess: c }
}

/// The legal moves of a position.
///
/// Trusted wrapper around `Position::legal_moves`, each engine move paired
/// with a plain copy of its fields. The list is named `legal_moves_of`.
#[verifier::external_body]
pub(crate) fn legal_moves(p: &ChessPos) -> (r: Vec<Move>)
    ensures
        r@.map_values(|m: Move| m@) == legal_moves_of(p@),
{
    p.chess.legal_moves().iter().map(|m| Move { engine: *m, data: match *m {
        EngineMove::Normal { role, from, capture, to, promotion } => MoveData::Normal { role: role as u8, from: from as u8, capture: capture.map(|c| c as u8), to: to as u8, promotion: promotion.map(|c| c as u8) },
        EngineMove::EnPassant { from, to } => MoveData::EnPassant { from: from as u8, to: to as u8 },
        EngineMove::Castle { king, rook } => MoveData::Castle { king: king as u8, rook: rook as u8 },
        EngineMove::Put { role, to } => MoveData::Put { role: role as u8, to: to as u8 },
    } }).collect()
}

/// Whether a move is legal.
///
/// Trusted wrapper around `Position::is_legal`, documented as testing a move
/// for legality; a legal move is one of those `Position::legal_moves`
/// generates.
#[verifier::external_body]
pub(crate) fn is_legal(p: &ChessPos, m: &Move) -> (r: bool)
    ensures
        r == legal_in(p@, m@),
{
    p.chess.is_legal(m.engine)
}

/// Plays a move, giving `None` when the engine refuses it.
///
/// Trusted wrapper around `Position::play`, which returns the new position
/// when `is_legal` accepts the move and an error otherwise. The new position
/// is named `position_after`; of it the contract also states what `do_move`
/// plainly does: the turn passes to the other side, and the halfmove clock
/// is reset by a zeroing move and otherwise counts up, saturating.
#[verifier::external_body]
pub(crate) fn play_move(p: &ChessPos, m: &Move) -> (r: Option<ChessPos>)
    ensures
        r is Some <==> legal_in(p@, m@),
        r matches Some(q) ==> q@ == position_after(p@, m@),
        r matches Some(q) ==> q@.key.turn == crate::types::other(p@.key.turn),
        r matches Some(q) ==> q@.halfmoves == halfmoves_after(p@, m@),
{
    let c = p.chess.clone().play(m.engine).ok()?;
    let s = c.to_setup(EnPassantMode::Legal);
    let (r, k) = s.board.into_bitboards();
    let turn = match s.turn { EngineColor::White => Color::White, EngineColor::Black => Color::Black };
    let key = PositionKey { pawns: r.pawn.0, knights: r.knight.0, bishops: r.bishop.0, rooks: r.rook.0, queens: r.queen.0, kings: r.king.0, white: k.white.0, black: k.black.0, turn, castling_rights: s.castling_rights.0, ep_square: s.ep_square.map(|q| q as u8) };
    Some(ChessPos { snap: Snapshot { key, halfmoves: s.halfmoves }, chess: c })
}

/// The standard algebraic notation of a move in a position.
///
/// Trusted wrapper around `San::from_move`, whose result is turned into text
/// by its `Display` impl. The text is named `san_of`.
#[verifier::external_body]
pub(crate) fn san_text(p: &ChessPos, m: &Move) -> (r: String)
    ensures
        r@ == san_of(p@, m@),
{
    San::from_move(&p.chess, m.engine).to_string()
}

/// Whether the side to move is in check.
///
/// Trusted wrapper around `Position::is_check`; the answer is named
/// `check_in`.
#[verifier::external_body]
pub(crate) fn is_check(p: &ChessPos) -> (r: bool)
    ensures
        r == check_in(p@),
{
    p.chess.is_check()
}

/// Whether the side to move is checkmated.
///
/// Trusted wrapper around `Position::is_checkmate`, whose source is
/// `!self.checkers().is_empty() && self.legal_moves().is_empty()`: in check
/// (`is_check` is `self.checkers().any()`) with no legal move.
#[verifier::external_body]
pub(crate) fn is_checkmate(p: &ChessPos) -> (r: bool)
    ensures
        r == checkmate_in(p@),
{
    p.chess.is_checkmate()
}

/// Whether the side to move is stalemated.
///
/// Trusted wrapper around `Position::is_stalemate`, whose source is
/// `self.checkers().is_empty() && !self.is_variant_end() &&
/// self.legal_moves().is_empty()`, where `is_variant_end` is always false
/// for standard chess: not in check, with no legal move.
#[verifier::external_body]
pub(crate) fn is_stalemate(p: &ChessPos) -> (r: bool)
    ensures
        r == stalemate_in(p@),
{
    p.chess.is_stalemate()
}

/// Whether both sides lack mating material.
///
/// Trusted wrapper around `Position::is_insufficient_material`; the answer
/// is named `insufficient_material_in`.
#[verifier::external_body]
pub(crate) fn is_insufficient_material(p: &ChessPos) -> (r: bool)
    ensures
        r == insufficient_material_in(p@),
{
    p.chess.is_insufficient_material()
}

} // verus!
