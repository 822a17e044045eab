//! The game: current position, move history with undo, repetition counting
//! and outcome detection, plus the move-list views built from the history.

use vstd::prelude::*;
use vstd::string::*;
use crate::engine::{
    check_in, checkmate_in, insufficient_material_in, is_check, is_checkmate,
    is_insufficient_material, is_legal, is_stalemate, legal_in, legal_moves, legal_moves_of,
    play_move, position_after, san_of, san_text, stalemate_in, standard_start, start_position,
    piece_on, halfmoves_after, ChessPos, Move, MoveData, PositionKey, Snapshot,
};
use crate::moves::{move_from, move_from_spec, move_squares, move_squares_spec, move_to, move_to_spec};
use crate::notation::{csv_header, csv_row, move_line};
use crate::text::{
    color_name, color_name_of, csv_escape, push_decimal, push_square, square_text,
};
use crate::types::{opposite_color, other, Color, Piece, Square};

verus! {

/// A high-level game outcome used by the UI.
#[derive(Clone, Copy, PartialEq, Eq, Structural, Debug)]
pub enum GameOutcome {
    /// The given side has won by checkmate.
    Checkmate { winner: Color },
    /// The position is a stalemate.
    Stalemate,
    /// Both sides lack mating material.
    InsufficientMaterial,
    /// The halfmove clock reached 100 ply.
    FiftyMoveRule,
    /// The same position occurred at least three times.
    ThreefoldRepetition,
}

/// Why a move was refused.
#[derive(Clone, Copy, PartialEq, Eq, Structural, Debug)]
pub enum GameError {
    /// The move is not legal in the current position.
    IllegalMove,
}

impl GameError {
    /// The message shown for this error.
    pub fn message(&self) -> (r: &'static str)
        ensures
            r@ == "illegal move"@,
    {
        "illegal move"
    }
}

/// Information about one recorded move.
pub struct MoveRecord {
    san: String,
    played_move: Move,
    previous_position: ChessPos,
}

/// A recorded move as plain values: its notation, the move, and the position
/// it was played from.
pub type RecordModel = (Seq<char>, MoveData, Snapshot);

impl MoveRecord {
    pub closed spec fn model(self) -> RecordModel {
        (self.san@, self.played_move@, self.previous_position@)
    }
}

/// How often one position has appeared in the game.
#[derive(Clone, Copy)]
struct RepetitionEntry {
    key: PositionKey,
    count: u128,
}

/// The mutable game state.
pub struct Game {
    /// The current position.
    position: ChessPos,
    /// Move records, kept for the move list and for undo.
    history: Vec<MoveRecord>,
    /// How many times each position has appeared, for threefold repetition.
    repetition_counts: Vec<RepetitionEntry>,
}

/// The positions the game has passed through, ending with the current one.
pub open spec fn line_of(records: Seq<RecordModel>, current: Snapshot) -> Seq<PositionKey> {
    records.map_values(|r: RecordModel| r.2.key).push(current.key)
}

/// How many times `k` occurs in `s`.
pub open spec fn occurrences(s: Seq<PositionKey>, k: PositionKey) -> nat
    decreases s.len(),
{
    if s.len() == 0 {
        0
    } else {
        occurrences(s.drop_last(), k) + if s.last() == k {
            1nat
        } else {
            0nat
        }
    }
}

/// A recorded move was legal where it was played, and its notation is the
/// engine's.
pub open spec fn record_ok(r: RecordModel) -> bool {
    legal_in(r.2, r.1) && r.0 == san_of(r.2, r.1)
}

/// Record `i` starts where record `i - 1` led.
pub open spec fn follows(records: Seq<RecordModel>, i: int) -> bool {
    records[i].2 == position_after(records[i - 1].2, records[i - 1].1)
}

/// A game record played from the standard start: every move was legal where
/// it was played, its notation is the engine's, each position follows from
/// the previous one, and the current position follows from the last move.
pub open spec fn played_from_start(records: Seq<RecordModel>, current: Snapshot) -> bool {
    &&& forall|i: int| 0 <= i < records.len() ==> #[trigger] record_ok(records[i])
    &&& records.len() > 0 ==> records[0].2 == standard_start()
    &&& forall|i: int| 0 < i < records.len() ==> #[trigger] follows(records, i)
    &&& current == if records.len() == 0 {
        standard_start()
    } else {
        position_after(records.last().2, records.last().1)
    }
}

/// The side to move after `n` plies from the standard start.
pub open spec fn ply_color(n: int) -> Color {
    if n % 2 == 0 {
        Color::White
    } else {
        Color::Black
    }
}

/// The sides alternate: ply `i` was played by `ply_color(i)`, and the side
/// to move now is `ply_color` of the number of moves played.
pub open spec fn turns_alternate(records: Seq<RecordModel>, current: Snapshot) -> bool {
    &&& forall|i: int| 0 <= i < records.len() ==> #[trigger] records[i].2.key.turn == ply_color(i)
    &&& current.key.turn == ply_color(records.len() as int)
}

/// White makes exactly the even plies (0, 2, 4, ...) and Black the odd ones.
pub proof fn lemma_white_moves_on_even_plies(records: Seq<RecordModel>, current: Snapshot, i: int)
    requires
        turns_alternate(records, current),
        0 <= i < records.len(),
    ensures
        (records[i].2.key.turn == Color::White) <==> (i % 2 == 0),
{
    assert(records[i].2.key.turn == ply_color(i));
}

/// The game after playing a legal move `m`: the new position, and a record
/// of the move with its notation and the position it was played from.
pub open spec fn after_play(current: Snapshot, records: Seq<RecordModel>, m: MoveData) -> (
    Snapshot,
    Seq<RecordModel>,
) {
    (position_after(current, m), records.push((san_of(current, m), m, current)))
}

/// The game after undoing: back to the position the last move was played
/// from, with that record removed; unchanged when nothing was played.
pub open spec fn after_undo(current: Snapshot, records: Seq<RecordModel>) -> (
    Snapshot,
    Seq<RecordModel>,
) {
    if records.len() == 0 {
        (current, records)
    } else {
        (records.last().2, records.drop_last())
    }
}

/// The CSV lines of the first `n` records.
pub open spec fn csv_rows(records: Seq<RecordModel>, n: int) -> Seq<char>
    decreases n,
{
    if n <= 0 || n > records.len() {
        Seq::empty()
    } else {
        csv_rows(records, n - 1) + csv_row(
            n - 1,
            records[n - 1].0,
            records[n - 1].1,
            records[n - 1].2.key.turn,
        )
    }
}

/// The status line: the outcome when the game is over, otherwise whose move
/// it is, with a check warning.
pub open spec fn status_text_of(outcome: Option<GameOutcome>, check: bool, turn: Color) -> Seq<
    char,
> {
    match outcome {
        Some(GameOutcome::Checkmate { winner: Color::White }) => "Checkmate - White wins"@,
        Some(GameOutcome::Checkmate { winner: Color::Black }) => "Checkmate - Black wins"@,
        Some(GameOutcome::Stalemate) => "Stalemate - draw"@,
        Some(GameOutcome::InsufficientMaterial) => "Draw - insufficient material"@,
        Some(GameOutcome::FiftyMoveRule) => "Draw - 50-move rule"@,
        Some(GameOutcome::ThreefoldRepetition) => "Draw - threefold repetition"@,
        None => if check {
            "Check! "@ + color_name_of(turn) + " to move"@
        } else {
            color_name_of(turn) + " to move"@
        },
    }
}

/// The outcome for a position that has appeared `repetitions` times,
/// checking checkmate, stalemate, insufficient material, the fifty-move
/// rule and threefold repetition in that order.
pub open spec fn outcome_of(p: Snapshot, repetitions: nat) -> Option<GameOutcome> {
    if checkmate_in(p) {
        Some(GameOutcome::Checkmate { winner: other(p.key.turn) })
    } else if stalemate_in(p) {
        Some(GameOutcome::Stalemate)
    } else if insufficient_material_in(p) {
        Some(GameOutcome::InsufficientMaterial)
    } else if p.halfmoves >= 100 {
        Some(GameOutcome::FiftyMoveRule)
    } else if repetitions >= 3 {
        Some(GameOutcome::ThreefoldRepetition)
    } else {
        None
    }
}

spec fn counts_match(entries: Seq<RepetitionEntry>, line: Seq<PositionKey>) -> bool {
    &&& forall|i: int|
        0 <= i < entries.len() ==> #[trigger] entries[i].count == occurrences(line, entries[i].key)
            && entries[i].count >= 1
    &&& forall|i: int, j: int|
        0 <= i < entries.len() && 0 <= j < entries.len() && i != j ==> #[trigger] entries[i].key
            != #[trigger] entries[j].key
    &&& forall|k: PositionKey|
        occurrences(line, k) > 0 ==> exists|i: int|
            0 <= i < entries.len() && #[trigger] entries[i].key == k
}

/// The legal moves that start on `sq`, in engine order.
pub open spec fn moves_from(p: Snapshot, sq: Square) -> Seq<MoveData> {
    legal_moves_of(p).filter(|d: MoveData| move_from_spec(d) == Some(sq))
}

/// The legal moves from `from` to `to`, in engine order (several when a
/// pawn promotes).
pub open spec fn moves_between(p: Snapshot, from: Square, to: Square) -> Seq<MoveData> {
    moves_from(p, from).filter(|d: MoveData| move_to_spec(d) == Some(to))
}

proof fn lemma_filter_take_step(s: Seq<MoveData>, i: int, pred: spec_fn(MoveData) -> bool)
    requires
        0 <= i < s.len(),
    ensures
        s.take(i + 1).filter(pred) == if pred(s[i]) {
            s.take(i).filter(pred).push(s[i])
        } else {
            s.take(i).filter(pred)
        },
{
    reveal(Seq::filter);
    assert(s.take(i + 1).drop_last() =~= s.take(i));
    assert(s.take(i + 1).last() == s[i]);
}

proof fn lemma_filter_empty(s: Seq<MoveData>, pred: spec_fn(MoveData) -> bool)
    ensures
        s.take(0).filter(pred) == Seq::<MoveData>::empty(),
{
    reveal(Seq::filter);
    assert(s.take(0) =~= Seq::<MoveData>::empty());
}

proof fn lemma_view_push(s: Seq<Move>, m: Move)
    ensures
        s.push(m).map_values(|x: Move| x@) == s.map_values(|x: Move| x@).push(m@),
{
    assert(s.push(m).map_values(|x: Move| x@) =~= s.map_values(|x: Move| x@).push(m@));
}

/// Keeps the moves that end on `to`.
fn keep_moves_to(moves: &Vec<Move>, to: Square) -> (r: Vec<Move>)
    ensures
        r@.map_values(|m: Move| m@) == moves@.map_values(|m: Move| m@).filter(
            |d: MoveData| move_to_spec(d) == Some(to),
        ),
{
    let ghost all = moves@.map_values(|m: Move| m@);
    let ghost pred = |d: MoveData| move_to_spec(d) == Some(to);
    let mut out: Vec<Move> = Vec::new();
    proof {
        lemma_filter_empty(all, pred);
        assert(out@.map_values(|m: Move| m@) =~= Seq::<MoveData>::empty());
    }
    let mut i: usize = 0;
    while i < moves.len()
        invariant
            i <= moves@.len(),
            all == moves@.map_values(|m: Move| m@),
            pred == (|d: MoveData| move_to_spec(d) == Some(to)),
            out@.map_values(|m: Move| m@) == all.take(i as int).filter(pred),
        decreases moves@.len() - i,
    {
        let mv = moves[i];
        proof {
            lemma_filter_take_step(all, i as int, pred);
            lemma_view_push(out@, mv);
        }
        let keep = match move_to(&mv) {
            Some(t) => t == to,
            None => false,
        };
        if keep {
            out.push(mv);
        }
        i = i + 1;
    }
    proof {
        assert(all.take(moves@.len() as int) =~= all);
    }
    out
}

/// Every move from `from` to `to` that the game offers is legal.
pub proof fn lemma_moves_between_legal(p: Snapshot, from: Square, to: Square, i: int)
    requires
        0 <= i < moves_between(p, from, to).len(),
    ensures
        legal_in(p, moves_between(p, from, to)[i]),
        move_from_spec(moves_between(p, from, to)[i]) == Some(from),
        move_to_spec(moves_between(p, from, to)[i]) == Some(to),
{
    let ms = moves_from(p, from);
    let all = legal_moves_of(p);
    let pf = |d: MoveData| move_from_spec(d) == Some(from);
    let pt = |d: MoveData| move_to_spec(d) == Some(to);
    let x = ms.filter(pt)[i];
    ms.lemma_filter_pred(pt, i);
    assert(ms.filter(pt).contains(x));
    ms.lemma_filter_contains_rev(pt, x);
    let j = choose|j: int| 0 <= j < ms.len() && ms[j] == x;
    all.lemma_filter_pred(pf, j);
    assert(all.filter(pf).contains(x));
    all.lemma_filter_contains_rev(pf, x);
}

proof fn lemma_occurrences_push(s: Seq<PositionKey>, x: PositionKey, k: PositionKey)
    ensures
        occurrences(s.push(x), k) == occurrences(s, k) + if x == k {
            1nat
        } else {
            0nat
        },
{
    assert(s.push(x).drop_last() =~= s);
}

proof fn lemma_occurrences_bound(s: Seq<PositionKey>, k: PositionKey)
    ensures
        occurrences(s, k) <= s.len(),
    decreases s.len(),
{
    if s.len() > 0 {
        lemma_occurrences_bound(s.drop_last(), k);
    }
}

proof fn lemma_occurrences_last(s: Seq<PositionKey>)
    requires
        s.len() > 0,
    ensures
        occurrences(s, s.last()) >= 1,
        occurrences(s.drop_last(), s.last()) + 1 == occurrences(s, s.last()),
        forall|k: PositionKey| k != s.last() ==> occurrences(s.drop_last(), k) == occurrences(s, k),
{
}

proof fn lemma_counts_single(key: PositionKey)
    ensures
        counts_match(seq![RepetitionEntry { key, count: 1 }], seq![key]),
{
    let e = seq![RepetitionEntry { key, count: 1 }];
    let line = seq![key];
    assert(line.drop_last() =~= Seq::<PositionKey>::empty());
    assert forall|k: PositionKey| occurrences(line, k) > 0 implies exists|i: int|
        0 <= i < e.len() && #[trigger] e[i].key == k by {
        assert(occurrences(Seq::<PositionKey>::empty(), k) == 0);
        assert(occurrences(line, k) == occurrences(line.drop_last(), k) + if line.last() == k { 1nat } else { 0nat });
        assert(k == key);
        assert(e[0].key == k);
    }
    assert(occurrences(line, key) == 1) by {
        assert(occurrences(Seq::<PositionKey>::empty(), key) == 0);
    }
}

proof fn lemma_counts_increment(e: Seq<RepetitionEntry>, line: Seq<PositionKey>, i: int)
    requires
        counts_match(e, line),
        0 <= i < e.len(),
        e[i].count + 1 <= u128::MAX,
    ensures
        counts_match(
            e.update(i, RepetitionEntry { key: e[i].key, count: (e[i].count + 1) as u128 }),
            line.push(e[i].key),
        ),
{
    let k = e[i].key;
    let e2 = e.update(i, RepetitionEntry { key: k, count: (e[i].count + 1) as u128 });
    let l2 = line.push(k);
    assert forall|x: PositionKey| #[trigger] occurrences(l2, x) == occurrences(line, x) + if x == k {
        1nat
    } else {
        0nat
    } by {
        lemma_occurrences_push(line, k, x);
    }
    assert forall|j: int| 0 <= j < e2.len() implies #[trigger] e2[j].count == occurrences(l2, e2[j].key)
        && e2[j].count >= 1 by {
        if j != i {
            assert(e[j].key != k);
        }
    }
    assert forall|x: PositionKey| occurrences(l2, x) > 0 implies exists|j: int|
        0 <= j < e2.len() && #[trigger] e2[j].key == x by {
        if x == k {
            assert(e2[i].key == x);
        } else {
            assert(occurrences(line, x) > 0);
            let j = choose|j: int| 0 <= j < e.len() && #[trigger] e[j].key == x;
            assert(e2[j].key == x);
        }
    }
}

proof fn lemma_counts_insert(e: Seq<RepetitionEntry>, line: Seq<PositionKey>, k: PositionKey)
    requires
        counts_match(e, line),
        forall|j: int| 0 <= j < e.len() ==> e[j].key != k,
    ensures
        counts_match(e.push(RepetitionEntry { key: k, count: 1 }), line.push(k)),
{
    let e2 = e.push(RepetitionEntry { key: k, count: 1 });
    let l2 = line.push(k);
    assert forall|x: PositionKey| #[trigger] occurrences(l2, x) == occurrences(line, x) + if x == k {
        1nat
    } else {
        0nat
    } by {
        lemma_occurrences_push(line, k, x);
    }
    assert(occurrences(line, k) == 0) by {
        if occurrences(line, k) > 0 {
            let j = choose|j: int| 0 <= j < e.len() && #[trigger] e[j].key == k;
        }
    }
    assert forall|j: int| 0 <= j < e2.len() implies #[trigger] e2[j].count == occurrences(l2, e2[j].key)
        && e2[j].count >= 1 by {
        if j < e.len() {
            assert(e[j].key != k);
        }
    }
    assert forall|x: PositionKey| occurrences(l2, x) > 0 implies exists|j: int|
        0 <= j < e2.len() && #[trigger] e2[j].key == x by {
        if x == k {
            assert(e2[e.len() as int].key == x);
        } else {
            assert(occurrences(line, x) > 0);
            let j = choose|j: int| 0 <= j < e.len() && #[trigger] e[j].key == x;
            assert(e2[j].key == x);
        }
    }
}

proof fn lemma_counts_decrement(e: Seq<RepetitionEntry>, line: Seq<PositionKey>, i: int)
    requires
        counts_match(e, line),
        line.len() > 0,
        0 <= i < e.len(),
        e[i].key == line.last(),
        e[i].count > 1,
    ensures
        counts_match(
            e.update(i, RepetitionEntry { key: e[i].key, count: (e[i].count - 1) as u128 }),
            line.drop_last(),
        ),
{
    let k = e[i].key;
    let e2 = e.update(i, RepetitionEntry { key: k, count: (e[i].count - 1) as u128 });
    let l2 = line.drop_last();
    lemma_occurrences_last(line);
    assert forall|j: int| 0 <= j < e2.len() implies #[trigger] e2[j].count == occurrences(l2, e2[j].key)
        && e2[j].count >= 1 by {
        if j != i {
            assert(e[j].key != k);
        }
    }
    assert forall|x: PositionKey| occurrences(l2, x) > 0 implies exists|j: int|
        0 <= j < e2.len() && #[trigger] e2[j].key == x by {
        if x == k {
            assert(e2[i].key == x);
        } else {
            assert(occurrences(line, x) > 0);
            let j = choose|j: int| 0 <= j < e.len() && #[trigger] e[j].key == x;
            assert(e2[j].key == x);
        }
    }
}

proof fn lemma_counts_remove(e: Seq<RepetitionEntry>, line: Seq<PositionKey>, i: int)
    requires
        counts_match(e, line),
        line.len() > 0,
        0 <= i < e.len(),
        e[i].key == line.last(),
        e[i].count == 1,
    ensures
        counts_match(e.remove(i), line.drop_last()),
{
    let k = e[i].key;
    let e2 = e.remove(i);
    let l2 = line.drop_last();
    lemma_occurrences_last(line);
    assert(occurrences(l2, k) == 0);
    assert forall|j: int| 0 <= j < e2.len() implies #[trigger] e2[j].count == occurrences(l2, e2[j].key)
        && e2[j].count >= 1 by {
        if j < i {
            assert(e2[j] == e[j]);
            assert(e[j].key != k);
        } else {
            assert(e2[j] == e[j + 1]);
            assert(e[j + 1].key != k);
        }
    }
    assert forall|a: int, b: int|
        0 <= a < e2.len() && 0 <= b < e2.len() && a != b implies #[trigger] e2[a].key
            != #[trigger] e2[b].key by {
        let a1 = if a < i { a } else { a + 1 };
        let b1 = if b < i { b } else { b + 1 };
        assert(e2[a] == e[a1]);
        assert(e2[b] == e[b1]);
    }
    assert forall|x: PositionKey| occurrences(l2, x) > 0 implies exists|j: int|
        0 <= j < e2.len() && #[trigger] e2[j].key == x by {
        assert(x != k);
        assert(occurrences(line, x) > 0);
        let j = choose|j: int| 0 <= j < e.len() && #[trigger] e[j].key == x;
        assert(j != i);
        if j < i {
            assert(e2[j] == e[j]);
        } else {
            assert(e2[j - 1] == e[j]);
        }
    }
}

proof fn lemma_played_push(records: Seq<RecordModel>, current: Snapshot, m: MoveData)
    requires
        played_from_start(records, current),
        legal_in(current, m),
    ensures
        played_from_start(records.push((san_of(current, m), m, current)), position_after(current, m)),
{
    let r2 = records.push((san_of(current, m), m, current));
    assert forall|i: int| 0 < i < r2.len() implies #[trigger] follows(r2, i) by {
        assert(r2[i - 1] == records[i - 1]);
        if i < records.len() {
            assert(r2[i] == records[i]);
            assert(follows(records, i));
        }
    }
    assert forall|i: int| 0 <= i < r2.len() implies #[trigger] record_ok(r2[i]) by {
        if i < records.len() {
            assert(r2[i] == records[i]);
            assert(record_ok(records[i]));
        }
    }
}

proof fn lemma_played_pop(records: Seq<RecordModel>, current: Snapshot)
    requires
        played_from_start(records, current),
        records.len() > 0,
    ensures
        played_from_start(records.drop_last(), records.last().2),
{
    let r2 = records.drop_last();
    assert forall|i: int| 0 < i < r2.len() implies #[trigger] follows(r2, i) by {
        assert(r2[i] == records[i]);
        assert(r2[i - 1] == records[i - 1]);
        assert(follows(records, i));
    }
    assert forall|i: int| 0 <= i < r2.len() implies #[trigger] record_ok(r2[i]) by {
        assert(r2[i] == records[i]);
        assert(record_ok(records[i]));
    }
    if r2.len() > 0 {
        assert(follows(records, records.len() - 1));
    }
}

/// Undoing right after playing a move restores the game exactly: the same
/// position and the same move record.
pub proof fn lemma_undo_reverts_play(current: Snapshot, records: Seq<RecordModel>, m: MoveData)
    ensures
        ({
            let (c2, r2) = after_play(current, records, m);
            after_undo(c2, r2) == (current, records)
        }),
{
    let (c2, r2) = after_play(current, records, m);
    assert(r2.drop_last() =~= records);
}

/// Playing a legal move keeps the record a legal game from the start, and
/// the new position has appeared once more than before while every other
/// position keeps its count.
pub proof fn lemma_play_keeps_game(
    current: Snapshot,
    records: Seq<RecordModel>,
    m: MoveData,
    k: PositionKey,
)
    requires
        played_from_start(records, current),
        legal_in(current, m),
    ensures
        ({
            let (c2, r2) = after_play(current, records, m);
            &&& played_from_start(r2, c2)
            &&& occurrences(line_of(r2, c2), k) == occurrences(line_of(records, current), k) + if k
                == c2.key {
                1nat
            } else {
                0nat
            }
        }),
{
    let (c2, r2) = after_play(current, records, m);
    lemma_played_push(records, current, m);
    assert(line_of(r2, c2) =~= line_of(records, current).push(c2.key));
    lemma_occurrences_push(line_of(records, current), c2.key, k);
}

/// Undoing keeps the record a legal game from the start, and the position
/// being left has appeared once less while every other position keeps its
/// count.
pub proof fn lemma_undo_keeps_game(current: Snapshot, records: Seq<RecordModel>, k: PositionKey)
    requires
        played_from_start(records, current),
        records.len() > 0,
    ensures
        ({
            let (c2, r2) = after_undo(current, records);
            &&& played_from_start(r2, c2)
            &&& occurrences(line_of(r2, c2), k) + if k == current.key {
                1nat
            } else {
                0nat
            } == occurrences(line_of(records, current), k)
        }),
{
    let (c2, r2) = after_undo(current, records);
    lemma_played_pop(records, current);
    let line = line_of(records, current);
    assert(line_of(r2, c2) =~= line.drop_last());
    assert(line.drop_last().push(current.key) =~= line);
    lemma_occurrences_push(line.drop_last(), current.key, k);
}

/// The status line names the result when the game is over; otherwise it
/// says whose move it is, prefixed with "Check! " exactly when that side is
/// in check, whichever side it is.
pub proof fn lemma_status_line(check: bool, turn: Color, winner: Color)
    ensures
        status_text_of(None, true, Color::White) == "Check! "@ + "White"@ + " to move"@,
        status_text_of(None, true, Color::Black) == "Check! "@ + "Black"@ + " to move"@,
        status_text_of(None, false, Color::White) == "White"@ + " to move"@,
        status_text_of(None, false, Color::Black) == "Black"@ + " to move"@,
        check ==> status_text_of(None, check, turn) == "Check! "@ + status_text_of(None, false, turn),
        status_text_of(Some(GameOutcome::Checkmate { winner }), check, turn) == "Checkmate - "@ + (
        if winner == Color::White {
            "White"@
        } else {
            "Black"@
        }) + " wins"@,
        status_text_of(Some(GameOutcome::Stalemate), check, turn) == "Stalemate - draw"@,
        status_text_of(Some(GameOutcome::InsufficientMaterial), check, turn)
            == "Draw - insufficient material"@,
        status_text_of(Some(GameOutcome::FiftyMoveRule), check, turn) == "Draw - 50-move rule"@,
        status_text_of(Some(GameOutcome::ThreefoldRepetition), check, turn)
            == "Draw - threefold repetition"@,
{
    reveal_strlit("Checkmate - White wins");
    reveal_strlit("Checkmate - Black wins");
    reveal_strlit("Checkmate - ");
    reveal_strlit("White");
    reveal_strlit("Black");
    reveal_strlit(" wins");
    assert("Checkmate - "@ + "White"@ + " wins"@ =~= "Checkmate - White wins"@);
    assert("Checkmate - "@ + "Black"@ + " wins"@ =~= "Checkmate - Black wins"@);
    if check {
        let name = if turn == Color::White {
            "White"@
        } else {
            "Black"@
        };
        assert("Checkmate - "@ + name + " wins"@ == "Checkmate - "@ + name + " wins"@);
        assert("Check! "@ + name + " to move"@ =~= "Check! "@ + (name + " to move"@));
    }
}

/// A checkmate outcome means the side to move is in check with no legal
/// move, and the other side is the winner; the other outcomes each mean
/// their rule holds and no earlier one applies.
pub proof fn lemma_outcome_reasons(p: Snapshot, repetitions: nat)
    ensures
        outcome_of(p, repetitions) matches Some(GameOutcome::Checkmate { winner }) ==> check_in(p)
            && legal_moves_of(p).len() == 0 && winner == other(p.key.turn) && winner != p.key.turn,
        outcome_of(p, repetitions) == Some(GameOutcome::Stalemate) ==> !check_in(p)
            && legal_moves_of(p).len() == 0,
        outcome_of(p, repetitions) == Some(GameOutcome::FiftyMoveRule) ==> p.halfmoves >= 100
            && legal_moves_of(p).len() > 0,
        outcome_of(p, repetitions) == Some(GameOutcome::ThreefoldRepetition) ==> repetitions >= 3
            && p.halfmoves < 100 && legal_moves_of(p).len() > 0,
        outcome_of(p, repetitions) is None ==> legal_moves_of(p).len() > 0 && p.halfmoves < 100
            && repetitions < 3 && !insufficient_material_in(p),
{
}

impl Game {
    /// The current position, as plain values.
    pub closed spec fn current(self) -> Snapshot {
        self.position@
    }

    /// The recorded moves, oldest first.
    pub closed spec fn records(self) -> Seq<RecordModel> {
        self.history@.map_values(|r: MoveRecord| r.model())
    }

    /// The positions the game has passed through, ending with the current one.
    pub open spec fn line(self) -> Seq<PositionKey> {
        line_of(self.records(), self.current())
    }

    /// How many times the current position has appeared.
    pub open spec fn repetitions(self) -> nat {
        occurrences(self.line(), self.current().key)
    }

    /// The repetition table agrees with the positions the game passed through.
    pub closed spec fn counts_ok(self) -> bool {
        counts_match(self.repetition_counts@, self.line())
    }

    /// A well-formed game: a legal record from the start, with the sides
    /// alternating and matching repetition counts.
    pub open spec fn wf(self) -> bool {
        &&& played_from_start(self.records(), self.current())
        &&& turns_alternate(self.records(), self.current())
        &&& self.counts_ok()
    }

    /// Creates a new game in the standard starting position.
    pub fn new() -> (g: Self)
        ensures
            g.wf(),
            g.current() == standard_start(),
            g.records() == Seq::<RecordModel>::empty(),
            g.repetitions() == 1,
    {
        let position = start_position();
        let key = position.snapshot().key;
        let mut repetition_counts: Vec<RepetitionEntry> = Vec::new();
        // The starting position has occurred once as soon as the game begins.
        repetition_counts.push(RepetitionEntry { key, count: 1 });
        let g = Game { position, history: Vec::new(), repetition_counts };
        proof {
            assert(g.records() =~= Seq::<RecordModel>::empty());
            assert(g.line() =~= seq![key]);
            assert(g.repetition_counts@ =~= seq![RepetitionEntry { key, count: 1 }]);
            lemma_counts_single(key);
            assert(g.line().drop_last() =~= Seq::<PositionKey>::empty());
            assert(occurrences(Seq::<PositionKey>::empty(), key) == 0);
            assert(g.current().key == key);
        }
        g
    }

    /// Index of the repetition entry for `key`, if there is one.
    fn find_entry(&self, key: &PositionKey) -> (r: Option<usize>)
        ensures
            r matches Some(i) ==> i < self.repetition_counts@.len()
                && self.repetition_counts@[i as int].key == *key,
            r is None ==> forall|i: int|
                0 <= i < self.repetition_counts@.len() ==> self.repetition_counts@[i].key != *key,
    {
        let mut i: usize = 0;
        while i < self.repetition_counts.len()
            invariant
                i <= self.repetition_counts@.len(),
                forall|j: int| 0 <= j < i ==> self.repetition_counts@[j].key != *key,
            decreases self.repetition_counts@.len() - i,
        {
            if self.repetition_counts[i].key == *key {
                return Some(i);
            }
            i = i + 1;
        }
        None
    }

    /// Returns the current position.
    pub fn position(&self) -> (r: &ChessPos)
        ensures
            r@ == self.current(),
    {
        &self.position
    }

    /// Returns the number of times the current position has appeared.
    pub fn repetition_count(&self) -> (r: u128)
        requires
            self.wf(),
        ensures
            r == self.repetitions(),
    {
        let key = self.position.snapshot().key;
        proof {
            let line = self.line();
            assert(line.last() == key);
            lemma_occurrences_last(line);
        }
        match self.find_entry(&key) {
            Some(i) => self.repetition_counts[i].count,
            None => 0,
        }
    }

    /// Undoes the most recent move, returning it if one existed.
    pub fn undo(&mut self) -> (r: Option<Move>)
        requires
            old(self).wf(),
        ensures
            final(self).wf(),
            (final(self).current(), final(self).records()) == after_undo(
                old(self).current(),
                old(self).records(),
            ),
            old(self).records().len() == 0 ==> r is None,
            old(self).records().len() > 0 ==> (r matches Some(m) && m@ == old(
                self,
            ).records().last().1),
    {
        let ghost old_line = self.line();
        let ghost old_records = self.records();
        // Nothing to undo when there is no history.
        let record = self.history.pop()?;
        let key = self.position.snapshot().key;
        proof {
            assert(old_line.last() == key);
            lemma_occurrences_last(old_line);
        }
        // The current position leaves the game, so its count goes down.
        if let Some(i) = self.find_entry(&key) {
            let entry = self.repetition_counts[i];
            let count = entry.count.saturating_sub(1);
            if count == 0 {
                proof {
                    lemma_counts_remove(self.repetition_counts@, old_line, i as int);
                }
                self.repetition_counts.remove(i);
            } else {
                proof {
                    lemma_counts_decrement(self.repetition_counts@, old_line, i as int);
                }
                self.repetition_counts.set(i, RepetitionEntry { key: entry.key, count });
            }
        }
        let MoveRecord { san: _, played_move, previous_position } = record;
        self.position = previous_position;
        proof {
            assert(self.records() =~= old_records.drop_last());
            assert(old_records.last() == (record.san@, record.played_move@, record.previous_position@));
            assert(self.line() =~= old_line.drop_last());
            lemma_played_pop(old_records, old(self).current());
        }
        Some(played_move)
    }

    /// Resets the game to the standard starting position.
    pub fn reset(&mut self)
        ensures
            final(self).wf(),
            final(self).current() == standard_start(),
            final(self).records() == Seq::<RecordModel>::empty(),
    {
        *self = Self::new();
    }

    /// Returns the piece currently on `square`, if any.
    pub fn piece_at(&self, square: Square) -> (r: Option<Piece>)
        ensures
            r == piece_on(self.current().key, square),
    {
        self.position.snapshot().key.piece_at(square)
    }

    /// Returns the side to move.
    pub fn side_to_move(&self) -> (r: Color)
        ensures
            r == self.current().key.turn,
    {
        self.position.snapshot().key.turn
    }

    /// Returns whether the side to move is currently in check.
    pub fn is_check(&self) -> (r: bool)
        ensures
            r == check_in(self.current()),
    {
        is_check(&self.position)
    }

    /// Returns the number of played moves.
    pub fn history_len(&self) -> (r: usize)
        ensures
            r == self.records().len(),
    {
        self.history.len()
    }

    /// Returns whether there is any move history to undo.
    pub fn can_undo(&self) -> (r: bool)
        ensures
            r == (self.records().len() > 0),
    {
        self.history.len() > 0
    }

    /// Returns the current game outcome, if the game is over.
    pub fn outcome(&self) -> (r: Option<GameOutcome>)
        requires
            self.wf(),
        ensures
            r == outcome_of(self.current(), self.repetitions()),
    {
        // Checkmate is the most specific decisive outcome and comes first.
        if is_checkmate(&self.position) {
            return Some(GameOutcome::Checkmate { winner: opposite_color(self.side_to_move()) });
        }
        if is_stalemate(&self.position) {
            return Some(GameOutcome::Stalemate);
        }
        if is_insufficient_material(&self.position) {
            return Some(GameOutcome::InsufficientMaterial);
        }
        if self.position.snapshot().halfmoves >= 100 {
            return Some(GameOutcome::FiftyMoveRule);
        }
        if self.repetition_count() >= 3 {
            return Some(GameOutcome::ThreefoldRepetition);
        }
        None
    }

    /// Returns all legal moves that start on `square`.
    pub fn legal_moves_from(&self, square: Square) -> (r: Vec<Move>)
        ensures
            r@.map_values(|m: Move| m@) == moves_from(self.current(), square),
    {
        let moves = legal_moves(&self.position);
        let ghost all = moves@.map_values(|m: Move| m@);
        let ghost pred = |d: MoveData| move_from_spec(d) == Some(square);
        let mut out: Vec<Move> = Vec::new();
        proof {
            lemma_filter_empty(all, pred);
            assert(out@.map_values(|m: Move| m@) =~= Seq::<MoveData>::empty());
        }
        let mut i: usize = 0;
        while i < moves.len()
            invariant
                i <= moves@.len(),
                all == moves@.map_values(|m: Move| m@),
                all == legal_moves_of(self.current()),
                pred == (|d: MoveData| move_from_spec(d) == Some(square)),
                out@.map_values(|m: Move| m@) == all.take(i as int).filter(pred),
            decreases moves@.len() - i,
        {
            let mv = moves[i];
            proof {
                lemma_filter_take_step(all, i as int, pred);
                lemma_view_push(out@, mv);
            }
            let keep = match move_from(&mv) {
                Some(f) => f == square,
                None => false,
            };
            if keep {
                out.push(mv);
            }
            i = i + 1;
        }
        proof {
            assert(all.take(moves@.len() as int) =~= all);
        }
        out
    }

    /// Returns all legal moves from `from` to `to`. There can be more than
    /// one when a pawn promotes.
    pub fn legal_moves_between(&self, from: Square, to: Square) -> (r: Vec<Move>)
        ensures
            r@.map_values(|m: Move| m@) == moves_between(self.current(), from, to),
    {
        let moves = self.legal_moves_from(from);
        keep_moves_to(&moves, to)
    }

    /// Returns the notation of every played move, oldest first.
    pub fn san_history(&self) -> (r: Vec<&str>)
        ensures
            r@.len() == self.records().len(),
            forall|i: int| 0 <= i < r@.len() ==> (#[trigger] r@[i])@ == self.records()[i].0,
    {
        let mut out: Vec<&str> = Vec::new();
        let mut i: usize = 0;
        while i < self.history.len()
            invariant
                i <= self.history@.len(),
                out@.len() == i,
                forall|j: int| 0 <= j < i ==> (#[trigger] out@[j])@ == self.history@[j].san@,
            decreases self.history@.len() - i,
        {
            out.push(self.history[i].san.as_str());
            i = i + 1;
        }
        proof {
            assert forall|j: int| 0 <= j < out@.len() implies (#[trigger] out@[j])@ == self.records()[j].0 by {
                assert(self.records()[j] == self.history@[j].model());
            }
        }
        out
    }

    /// Returns the origin and destination squares of the last played move.
    pub fn last_move_squares(&self) -> (r: Option<(Square, Square)>)
        ensures
            r == if self.records().len() == 0 {
                None
            } else {
                move_squares_spec(self.records().last().1)
            },
    {
        let n = self.history.len();
        if n == 0 {
            return None;
        }
        proof {
            assert(self.records().last() == self.history@[n - 1].model());
        }
        move_squares(&self.history[n - 1].played_move)
    }

    /// Returns the move list, one numbered line per played move.
    pub fn formatted_move_list(&self) -> (r: Vec<String>)
        ensures
            r@.len() == self.records().len(),
            forall|i: int|
                0 <= i < r@.len() ==> (#[trigger] r@[i])@ == move_line(
                    i,
                    self.records()[i].0,
                    self.records()[i].1,
                    self.records()[i].2.key.turn,
                ),
    {
        let mut out: Vec<String> = Vec::new();
        let mut i: usize = 0;
        while i < self.history.len()
            invariant
                i <= self.history@.len(),
                out@.len() == i,
                forall|j: int|
                    0 <= j < i ==> (#[trigger] out@[j])@ == move_line(
                        j,
                        self.records()[j].0,
                        self.records()[j].1,
                        self.records()[j].2.key.turn,
                    ),
            decreases self.history@.len() - i,
        {
            let record = &self.history[i];
            proof {
                assert(self.records()[i as int] == record.model());
            }
            let line = format_move_line(i, record);
            out.push(line);
            i = i + 1;
        }
        out
    }

    /// Returns the move list as CSV text.
    pub fn move_list_csv(&self) -> (r: String)
        ensures
            r@ == csv_header() + csv_rows(self.records(), self.records().len() as int),
    {
        let mut csv = "move_number,side,from,to,san\n".to_owned();
        let mut i: usize = 0;
        while i < self.history.len()
            invariant
                i <= self.history@.len(),
                csv@ == csv_header() + csv_rows(self.records(), i as int),
            decreases self.history@.len() - i,
        {
            let record = &self.history[i];
            proof {
                assert(self.records()[i as int] == record.model());
            }
            let row = format_csv_row(i, record);
            csv.append(row.as_str());
            proof {
                assert(csv_rows(self.records(), i + 1) == csv_rows(self.records(), i as int) + row@);
            }
            i = i + 1;
        }
        csv
    }

    /// Plays the provided legal move and records it in the history.
    ///
    /// Returns an error if `mv` is illegal in the current position.
    pub fn play(&mut self, mv: Move) -> (r: Result<(), GameError>)
        requires
            old(self).wf(),
        ensures
            final(self).wf(),
            r is Ok <==> legal_in(old(self).current(), mv@),
            r is Ok ==> (final(self).current(), final(self).records()) == after_play(
                old(self).current(),
                old(self).records(),
                mv@,
            ),
            r is Ok ==> final(self).current().key.turn == other(old(self).current().key.turn)
                && final(self).current().halfmoves == halfmoves_after(old(self).current(), mv@),
            r is Err ==> r == Err::<(), GameError>(GameError::IllegalMove) && final(self).current()
                == old(self).current() && final(self).records() == old(self).records(),
    {
        // Validate before changing state.
        if !is_legal(&self.position, &mv) {
            return Err(GameError::IllegalMove);
        }
        let san = san_text(&self.position, &mv);
        let mut next = match play_move(&self.position, &mv) {
            Some(next) => next,
            None => return Err(GameError::IllegalMove),
        };
        let ghost old_line = self.line();
        let ghost old_records = self.records();
        let played_before = self.history.len();
        let next_key = next.snapshot().key;
        // Track repetitions after the move reaches the new position.
        match self.find_entry(&next_key) {
            Some(i) => {
                let entry = self.repetition_counts[i];
                proof {
                    assert(old_line.len() == played_before + 1);
                    lemma_occurrences_bound(old_line, next_key);
                    lemma_counts_increment(self.repetition_counts@, old_line, i as int);
                }
                self.repetition_counts.set(i, RepetitionEntry { key: entry.key, count: entry.count + 1 });
            },
            None => {
                proof {
                    lemma_counts_insert(self.repetition_counts@, old_line, next_key);
                }
                self.repetition_counts.push(RepetitionEntry { key: next_key, count: 1 });
            },
        }
        std::mem::swap(&mut self.position, &mut next);
        self.history.push(MoveRecord { san, played_move: mv, previous_position: next });
        proof {
            assert(self.records() =~= old_records.push((san_of(next@, mv@), mv@, next@)));
            assert(self.line() =~= old_line.push(next_key));
            lemma_played_push(old_records, next@, mv@);
        }
        Ok(())
    }
}

/// Builds one line of the move list.
fn format_move_line(index: usize, record: &MoveRecord) -> (r: String)
    ensures
        r@ == move_line(index as int, record.model().0, record.model().1, record.model().2.key.turn),
{
    let mover = record.previous_position.snapshot().key.turn;
    let mut s = String::new();
    push_decimal(&mut s, (index / 2 + 1) as u64);
    if index % 2 == 0 {
        s.append(".");
    } else {
        s.append("...");
    }
    s.append(" ");
    s.append(color_name(mover));
    s.append(": ");
    match move_squares(&record.played_move) {
        Some((from, to)) => {
            push_square(&mut s, from);
            s.append(" -> ");
            push_square(&mut s, to);
        },
        None => {
            s.append(record.san.as_str());
        },
    }
    proof {
        assert(s@ =~= move_line(index as int, record.model().0, record.model().1, mover));
    }
    s
}

/// Builds one CSV line.
fn format_csv_row(index: usize, record: &MoveRecord) -> (r: String)
    ensures
        r@ == csv_row(index as int, record.model().0, record.model().1, record.model().2.key.turn),
{
    let mover = record.previous_position.snapshot().key.turn;
    let (from, to) = match move_squares(&record.played_move) {
        Some((f, t)) => (square_text(f), square_text(t)),
        None => (String::new(), String::new()),
    };
    let mut s = String::new();
    push_decimal(&mut s, (index / 2 + 1) as u64);
    s.append(",");
    s.append(csv_escape(color_name(mover)).as_str());
    s.append(",");
    s.append(csv_escape(from.as_str()).as_str());
    s.append(",");
    s.append(csv_escape(to.as_str()).as_str());
    s.append(",");
    s.append(csv_escape(record.san.as_str()).as_str());
    s.append("\n");
    proof {
        assert(s@ =~= csv_row(index as int, record.model().0, record.model().1, mover));
    }
    s
}

/// Builds a user-facing status string for the current game state.
pub fn status_text(game: &Game) -> (r: String)
    requires
        game.wf(),
    ensures
        r@ == status_text_of(
            outcome_of(game.current(), game.repetitions()),
            check_in(game.current()),
            game.current().key.turn,
        ),
{
    if let Some(outcome) = game.outcome() {
        return match outcome {
            GameOutcome::Checkmate { winner: Color::White } => "Checkmate - White wins".to_owned(),
            GameOutcome::Checkmate { winner: Color::Black } => "Checkmate - Black wins".to_owned(),
            GameOutcome::Stalemate => "Stalemate - draw".to_owned(),
            GameOutcome::InsufficientMaterial => "Draw - insufficient material".to_owned(),
            GameOutcome::FiftyMoveRule => "Draw - 50-move rule".to_owned(),
            GameOutcome::ThreefoldRepetition => "Draw - threefold repetition".to_owned(),
        };
    }
    let mut s = if game.is_check() {
        "Check! ".to_owned()
    } else {
        String::new()
    };
    s.append(color_name(game.side_to_move()));
    s.append(" to move");
    s
}

/// Converts a board coordinate into a `Square`.
pub fn square_from_indices(file_index: usize, rank_index: usize) -> (r: Square)
    requires
        (file_index as u32) < 8,
        (rank_index as u32) < 8,
    ensures
        r.index == (file_index as u32) + 8 * (rank_index as u32),
        r.file() == file_index as u32,
        r.rank() == rank_index as u32,
{
    let file = file_index as u32;
    let rank = rank_index as u32;
    Square { index: (file + 8 * rank) as u8 }
}

} // verus!
