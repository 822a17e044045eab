//! The interactive session: selection, promotion choice, keyboard cursor,
//! undo, settings, timeout and messages. Each method takes one user event and updates
//! the state; the caller performs the clock work that the returned
//! `ClockEffect` asks for, since clocks run on wall time.

use vstd::prelude::*;
use vstd::string::*;
use crate::assets::BoardTheme;
use crate::engine::{legal_in, move_views, Move, MoveData, Snapshot};
use crate::game::{
    after_play, after_undo, moves_between, moves_from, outcome_of, Game, RecordModel,
};
use crate::layout::{display_coords, display_coords_of, displayed_square, displayed_square_of};
use crate::moves::{move_to, move_to_spec, promotion_role, promotion_role_spec};
use crate::engine::piece_on;
use crate::types::{Color, Role, Square};

verus! {

/// The clock presets.
#[derive(Clone, Copy, PartialEq, Eq, Structural, Debug)]
pub enum TimerPreset {
    OneMinute,
    ThreeMinutes,
    FiveMinutes,
    Custom,
}

/// What the caller must do with the clocks after an event.
#[derive(Clone, Copy, PartialEq, Eq, Structural, Debug)]
pub enum ClockEffect {
    /// Leave the clocks as they are.
    Unchanged,
    /// Restart the elapsed-time measurement from now.
    RestartTick,
    /// Set both clocks to `selected_timer_seconds` and stop measuring.
    ResetClocks,
}

/// Promotion moves wait here until the player picks the new piece.
pub struct PendingPromotion {
    /// Legal promotion moves from the same source square to the same target.
    candidates: Vec<Move>,
}

/// The file the exported move list is written to.
pub const MOVE_LIST_EXPORT_PATH: &'static str = "move_list.csv";

/// The session state, apart from the clock values.
pub struct ChessSession {
    /// The rules model: current position and move history.
    game: Game,
    /// The square the user clicked first while preparing a move.
    selected_square: Option<Square>,
    /// Where the selected piece can go; the board marks these squares.
    legal_destinations: Vec<Square>,
    /// Whether the board is drawn from Black's point of view.
    flipped: bool,
    /// Whether the previous move is highlighted.
    show_last_move: bool,
    /// Current visual style for board squares.
    board_theme: BoardTheme,
    /// Whether keyboard move entry is on.
    keyboard_moves_enabled: bool,
    /// Square currently targeted by arrow-key movement.
    keyboard_cursor: Square,
    /// Whether the clocks count down.
    timed_game_enabled: bool,
    /// Preset selected by the clock buttons.
    timer_preset: TimerPreset,
    /// Clock length in minutes when the preset is `Custom`.
    custom_timer_minutes: u32,
    /// The player who ran out of time, if any.
    timed_out: Option<Color>,
    /// True after a move is played, false after the single allowed undo.
    undo_available: bool,
    /// Promotion moves waiting for the player's choice.
    pending_promotion: Option<PendingPromotion>,
    /// Whether the new-game confirmation dialog is open.
    show_new_game_confirmation: bool,
    /// Recoverable error text for the sidebar.
    last_error: Option<String>,
    /// Success or info text for the sidebar.
    last_message: Option<String>,
}

/// The plain state of a session that its methods change, apart from the
/// public settings fields.
pub struct SessionModel {
    pub position: Snapshot,
    pub records: Seq<RecordModel>,
    pub selected: Option<Square>,
    pub destinations: Seq<Square>,
    pub pending: Option<Seq<MoveData>>,
    pub cursor: Square,
    pub timed_out: Option<Color>,
    pub undo_available: bool,
    pub flipped: bool,
    pub show_last_move: bool,
    pub board_theme: BoardTheme,
    pub keyboard_moves_enabled: bool,
    pub timed_game_enabled: bool,
    pub timer_preset: TimerPreset,
    pub custom_timer_minutes: u32,
    pub show_new_game_confirmation: bool,
    pub last_error: Option<Seq<char>>,
    pub last_message: Option<Seq<char>>,
}

/// The squares the given moves lead to, as the player sees them.
pub open spec fn destinations(ms: Seq<MoveData>) -> Seq<Square> {
    ms.filter_map(|m: MoveData| move_to_spec(m))
}

/// The square e2, where the keyboard cursor starts.
pub open spec fn start_cursor() -> Square {
    Square { index: 12 }
}

/// The clock length, in seconds, for a preset.
pub open spec fn timer_seconds(preset: TimerPreset, custom_minutes: u32) -> nat {
    let minutes: nat = match preset {
        TimerPreset::OneMinute => 1,
        TimerPreset::ThreeMinutes => 3,
        TimerPreset::FiveMinutes => 5,
        TimerPreset::Custom => if custom_minutes >= 1 {
            custom_minutes as nat
        } else {
            1
        },
    };
    minutes * 60
}

/// Clamps a display coordinate to the board.
pub open spec fn clamp7(x: int) -> int {
    if x < 0 {
        0
    } else if x > 7 {
        7
    } else {
        x
    }
}

/// The view of an optional text.
pub open spec fn text_view(t: Option<String>) -> Option<Seq<char>> {
    match t {
        Some(s) => Some(s@),
        None => None,
    }
}

/// The session with the selection cleared.
pub open spec fn deselected(m: SessionModel) -> SessionModel {
    SessionModel { selected: None, destinations: Seq::empty(), ..m }
}

/// The session with `square` selected and its piece's destinations marked.
pub open spec fn selected_at(m: SessionModel, square: Square) -> SessionModel {
    SessionModel {
        selected: Some(square),
        destinations: destinations(moves_from(m.position, square)),
        ..m
    }
}

/// Playing `mv`: on success the game advances, the selection and any
/// promotion choice are cleared, undo becomes available, messages are
/// cleared and the clock restarts measuring; otherwise the error is shown
/// and nothing else changes.
pub open spec fn played(m: SessionModel, mv: MoveData) -> (SessionModel, ClockEffect) {
    if legal_in(m.position, mv) {
        (
            SessionModel {
                position: after_play(m.position, m.records, mv).0,
                records: after_play(m.position, m.records, mv).1,
                selected: None,
                destinations: Seq::empty(),
                pending: None,
                undo_available: true,
                last_error: None,
                last_message: None,
                ..m
            },
            ClockEffect::RestartTick,
        )
    } else {
        (
            SessionModel { last_error: Some("illegal move"@), last_message: None, ..m },
            ClockEffect::Unchanged,
        )
    }
}

/// Board input is ignored while a promotion choice is open or the game is
/// over (by the rules or on time).
pub open spec fn input_blocked(m: SessionModel, repetitions: nat) -> bool {
    m.pending is Some || outcome_of(m.position, repetitions) is Some || m.timed_out is Some
}

/// Trying to move the selected piece from `from` to `square`: nothing when
/// no legal move leads there, the promotion choice when several do, and the
/// move itself when exactly one does.
pub open spec fn move_attempted(m: SessionModel, from: Square, square: Square) -> (
    SessionModel,
    ClockEffect,
) {
    let c = moves_between(m.position, from, square);
    if c.len() == 0 {
        (m, ClockEffect::Unchanged)
    } else if c.len() > 1 {
        (SessionModel { pending: Some(c), ..m }, ClockEffect::Unchanged)
    } else {
        played(m, c[0])
    }
}

/// The effect of clicking `square`: clicking the selected square cancels
/// the selection; clicking a piece of the side to move selects it; with a
/// selection, clicking a destination plays the move, or opens the promotion
/// choice when several moves (promotions) lead there.
#[verifier::opaque]
pub open spec fn clicked(m: SessionModel, repetitions: nat, square: Square) -> (
    SessionModel,
    ClockEffect,
) {
    if input_blocked(m, repetitions) {
        (m, ClockEffect::Unchanged)
    } else if m.selected == Some(square) {
        (deselected(m), ClockEffect::Unchanged)
    } else if (piece_on(m.position.key, square) matches Some(p) && p.color == m.position.key.turn) {
        (selected_at(m, square), ClockEffect::Unchanged)
    } else {
        match m.selected {
            None => (m, ClockEffect::Unchanged),
            Some(from) => if piece_on(m.position.key, from) is None {
                (deselected(m), ClockEffect::Unchanged)
            } else {
                move_attempted(m, from, square)
            },
        }
    }
}

/// Undoing the last move, whenever one was played: back one move, with
/// selection, promotion choice, timeout and messages cleared and the
/// one-step undo offer used up. The clocks restart measuring if moves
/// remain, and are reset otherwise. (Offering undo only once after each
/// move is the Undo button's rule: see `undo_offered`.)
pub open spec fn undone(m: SessionModel) -> (SessionModel, ClockEffect) {
    if m.records.len() == 0 {
        (m, ClockEffect::Unchanged)
    } else {
        let (p, r) = after_undo(m.position, m.records);
        (
            SessionModel {
                position: p,
                records: r,
                selected: None,
                destinations: Seq::empty(),
                pending: None,
                undo_available: false,
                timed_out: None,
                last_error: None,
                last_message: None,
                ..m
            },
            if r.len() > 0 {
                ClockEffect::RestartTick
            } else {
                ClockEffect::ResetClocks
            },
        )
    }
}

/// The Undo button is offered right after a move, once: a move was played
/// and the one-step undo is not used up.
pub open spec fn undo_offered(m: SessionModel) -> bool {
    m.undo_available && m.records.len() > 0
}

/// The Export CSV button is offered once a move was played.
pub open spec fn export_offered(m: SessionModel) -> bool {
    m.records.len() > 0
}

/// The custom clock length kept within 1 to 999 minutes.
pub open spec fn clamp_minutes(minutes: u32) -> u32 {
    if minutes < 1 {
        1
    } else if minutes > 999 {
        999
    } else {
        minutes
    }
}

/// A new game: the standard start with no moves, no selection, no
/// promotion choice, the cursor back on e2, no timeout, no undo and no
/// messages; the settings stay as they are.
pub open spec fn game_reset(m: SessionModel) -> SessionModel {
    SessionModel {
        position: crate::engine::standard_start(),
        records: Seq::empty(),
        selected: None,
        destinations: Seq::empty(),
        pending: None,
        cursor: start_cursor(),
        timed_out: None,
        undo_available: false,
        last_error: None,
        last_message: None,
        ..m
    }
}

/// Timer settings are locked once the first move is played.
pub open spec fn timer_locked(m: SessionModel) -> bool {
    m.records.len() > 0
}

/// Switching timed play on or off: refused once the game has started;
/// otherwise the clocks are reset.
pub open spec fn timed_game_toggled(m: SessionModel) -> (SessionModel, ClockEffect) {
    if timer_locked(m) {
        (m, ClockEffect::Unchanged)
    } else {
        (
            SessionModel { timed_game_enabled: !m.timed_game_enabled, timed_out: None, ..m },
            ClockEffect::ResetClocks,
        )
    }
}

/// Choosing a clock preset: only in a timed game that has not started; the
/// clocks are then reset.
pub open spec fn preset_chosen(m: SessionModel, preset: TimerPreset) -> (SessionModel, ClockEffect) {
    if timer_locked(m) || !m.timed_game_enabled {
        (m, ClockEffect::Unchanged)
    } else {
        (SessionModel { timer_preset: preset, timed_out: None, ..m }, ClockEffect::ResetClocks)
    }
}

/// Editing the custom clock length: only in a timed game that has not
/// started; the length is kept within 1 to 999 minutes, the custom preset
/// is selected and the clocks are reset.
pub open spec fn custom_minutes_set(m: SessionModel, minutes: u32) -> (SessionModel, ClockEffect) {
    if timer_locked(m) || !m.timed_game_enabled {
        (m, ClockEffect::Unchanged)
    } else {
        (
            SessionModel {
                custom_timer_minutes: clamp_minutes(minutes),
                timer_preset: TimerPreset::Custom,
                timed_out: None,
                ..m
            },
            ClockEffect::ResetClocks,
        )
    }
}

/// The keyboard cursor moved by the given display offsets, clamped to the
/// board.
pub open spec fn cursor_moved(m: SessionModel, file_delta: int, rank_delta: int) -> SessionModel {
    SessionModel { cursor: cursor_step(m.cursor, m.flipped, file_delta, rank_delta), ..m }
}

/// The cursor square moved by display offsets, clamped to the board; a
/// square that has no grid cell stays where it is.
pub open spec fn cursor_step(cursor: Square, flipped: bool, file_delta: int, rank_delta: int) -> Square {
    match display_coords_of(cursor, flipped) {
        None => cursor,
        Some((f, r)) => displayed_square_of(clamp7(f + file_delta), clamp7(r + rank_delta), flipped),
    }
}

/// The cursor square after the arrow keys of one frame, applied in the
/// order left, right, up, down.
pub open spec fn arrows_cursor(
    cursor: Square,
    flipped: bool,
    left: bool,
    right: bool,
    up: bool,
    down: bool,
) -> Square {
    let c1 = if left {
        cursor_step(cursor, flipped, -1, 0)
    } else {
        cursor
    };
    let c2 = if right {
        cursor_step(c1, flipped, 1, 0)
    } else {
        c1
    };
    let c3 = if up {
        cursor_step(c2, flipped, 0, -1)
    } else {
        c2
    };
    if down {
        cursor_step(c3, flipped, 0, 1)
    } else {
        c3
    }
}

/// The session after the arrow keys of one frame: only the cursor moves.
pub open spec fn arrows_moved(m: SessionModel, left: bool, right: bool, up: bool, down: bool) -> SessionModel {
    SessionModel { cursor: arrows_cursor(m.cursor, m.flipped, left, right, up, down), ..m }
}

/// The effect of the keys pressed in one frame: the arrows first, then
/// cancel, then select; nothing when keyboard moves are off.
pub open spec fn keys_pressed(
    m: SessionModel,
    repetitions: nat,
    left: bool,
    right: bool,
    up: bool,
    down: bool,
    select: bool,
    cancel: bool,
) -> (SessionModel, ClockEffect) {
    if !m.keyboard_moves_enabled {
        (m, ClockEffect::Unchanged)
    } else {
        let m4 = arrows_moved(m, left, right, up, down);
        let m5 = if cancel {
            deselected(m4)
        } else {
            m4
        };
        if select {
            clicked(m5, repetitions, m5.cursor)
        } else {
            (m5, ClockEffect::Unchanged)
        }
    }
}

/// Index `i` holds the first candidate promoting to `role`.
pub open spec fn first_promotion_to(c: Seq<MoveData>, role: Role, i: int) -> bool {
    &&& 0 <= i < c.len()
    &&& promotion_role_spec(c[i]) == Some(role)
    &&& forall|j: int| 0 <= j < i ==> promotion_role_spec(#[trigger] c[j]) != Some(role)
}

/// Choosing the promotion piece plays the first waiting move that promotes
/// to it; nothing happens when no move is waiting or none matches.
pub open spec fn promotion_chosen(m: SessionModel, role: Role) -> (SessionModel, ClockEffect) {
    match m.pending {
        None => (m, ClockEffect::Unchanged),
        Some(c) => if exists|i: int| first_promotion_to(c, role, i) {
            let i = choose|i: int| first_promotion_to(c, role, i);
            played(SessionModel { pending: None, ..m }, c[i])
        } else {
            (m, ClockEffect::Unchanged)
        },
    }
}

/// Index of the first candidate that promotes to `role`.
fn find_promotion(candidates: &Vec<Move>, role: Role) -> (r: Option<usize>)
    ensures
        r matches Some(i) ==> first_promotion_to(move_views(candidates@), role, i as int),
        r is None ==> forall|k: int| !#[trigger] first_promotion_to(move_views(candidates@), role, k),
{
    let ghost c = move_views(candidates@);
    let mut i: usize = 0;
    while i < candidates.len()
        invariant
            i <= candidates@.len(),
            c == move_views(candidates@),
            forall|j: int| 0 <= j < i ==> promotion_role_spec(#[trigger] c[j]) != Some(role),
        decreases candidates@.len() - i,
    {
        let hit = match promotion_role(&candidates[i]) {
            Some(r) => r == role,
            None => false,
        };
        if hit {
            return Some(i);
        }
        i = i + 1;
    }
    proof {
        assert forall|k: int| !#[trigger] first_promotion_to(c, role, k) by {
            if first_promotion_to(c, role, k) {
                assert(promotion_role_spec(c[k]) != Some(role));
            }
        }
    }
    None
}

/// Clicking the selected square again cancels the selection and changes
/// nothing else.
pub proof fn lemma_click_selected_cancels(m: SessionModel, repetitions: nat, square: Square)
    requires
        !input_blocked(m, repetitions),
        m.selected == Some(square),
    ensures
        clicked(m, repetitions, square) == (deselected(m), ClockEffect::Unchanged),
        deselected(m).selected is None,
        deselected(m).destinations.len() == 0,
{
    reveal(clicked);
}

/// The move played for a chosen promotion piece carries that piece's engine
/// code as its promotion.
pub proof fn lemma_promotion_choice_code(c: Seq<MoveData>, role: Role, i: int)
    requires
        first_promotion_to(c, role, i),
        crate::engine::move_data_valid(c[i]),
    ensures
        c[i] matches MoveData::Normal { promotion: Some(p), .. } && p == crate::moves::code_of_role(
            role,
        ),
{
}

/// Board input is blocked exactly while a promotion choice is open, the
/// game has an outcome, or a side ran out of time; being in check does not
/// block it.
pub proof fn lemma_input_blocked_exactly(m: SessionModel, repetitions: nat)
    ensures
        input_blocked(m, repetitions) <==> (m.pending is Some || outcome_of(m.position, repetitions)
            is Some || m.timed_out is Some),
{
}

/// In a game that is still running, with no promotion choice open, clicking
/// a piece of the side to move (other than the selected one) selects it and
/// marks the destinations of its legal moves, in check or not.
pub proof fn lemma_click_own_piece_in_play(m: SessionModel, repetitions: nat, square: Square)
    requires
        m.pending is None,
        outcome_of(m.position, repetitions) is None,
        m.timed_out is None,
        m.selected != Some(square),
        piece_on(m.position.key, square) matches Some(p) && p.color == m.position.key.turn,
    ensures
        clicked(m, repetitions, square) == (selected_at(m, square), ClockEffect::Unchanged),
        selected_at(m, square).selected == Some(square),
        selected_at(m, square).destinations == destinations(moves_from(m.position, square)),
{
    reveal(clicked);
}

/// The keyboard cursor moves in screen coordinates in either orientation:
/// its grid cell moves by the given offsets, clamped to the board, so Up
/// (rank offset -1) never moves it down the screen.
pub proof fn lemma_cursor_moves_on_screen(c: Square, flipped: bool, file_delta: int, rank_delta: int)
    requires
        c.valid(),
    ensures
        display_coords_of(c, flipped) matches Some((f, r)) && display_coords_of(
            cursor_step(c, flipped, file_delta, rank_delta),
            flipped,
        ) == Some(((clamp7(f + file_delta)) as usize, (clamp7(r + rank_delta)) as usize)),
{
    crate::layout::lemma_display_round_trip(c, flipped);
    let (f, r) = display_coords_of(c, flipped).unwrap();
    crate::layout::lemma_cell_round_trip(clamp7(f + file_delta), clamp7(r + rank_delta), flipped);
}

/// Clicking a piece of the side to move (other than the selected one)
/// selects it and marks exactly the destinations of its legal moves.
pub proof fn lemma_click_own_piece_selects(m: SessionModel, repetitions: nat, square: Square)
    requires
        !input_blocked(m, repetitions),
        m.selected != Some(square),
        piece_on(m.position.key, square) matches Some(p) && p.color == m.position.key.turn,
    ensures
        clicked(m, repetitions, square) == (selected_at(m, square), ClockEffect::Unchanged),
        selected_at(m, square).selected == Some(square),
        selected_at(m, square).destinations == destinations(moves_from(m.position, square)),
        selected_at(m, square).position == m.position,
        selected_at(m, square).records == m.records,
{
    reveal(clicked);
}

/// While a promotion choice is open or the game is over, clicks change
/// nothing.
pub proof fn lemma_blocked_click_ignored(m: SessionModel, repetitions: nat, square: Square)
    requires
        input_blocked(m, repetitions),
    ensures
        clicked(m, repetitions, square) == (m, ClockEffect::Unchanged),
{
    reveal(clicked);
}

/// The keyboard cursor never leaves the board.
pub proof fn lemma_cursor_stays_on_board(m: SessionModel, file_delta: int, rank_delta: int)
    requires
        m.cursor.valid(),
    ensures
        cursor_moved(m, file_delta, rank_delta).cursor.valid(),
{
    crate::layout::lemma_display_round_trip(m.cursor, m.flipped);
    if let Some((f, r)) = display_coords_of(m.cursor, m.flipped) {
        crate::layout::lemma_cell_round_trip(
            clamp7(f + file_delta),
            clamp7(r + rank_delta),
            m.flipped,
        );
    }
}

/// Undoing right after a successful move restores the game and leaves no
/// selection, no promotion choice and the one-step undo used up.
pub proof fn lemma_undo_after_move(m: SessionModel, mv: MoveData)
    requires
        legal_in(m.position, mv),
    ensures
        ({
            let u = undone(played(m, mv).0).0;
            &&& u.position == m.position
            &&& u.records == m.records
            &&& u.selected is None
            &&& u.pending is None
            &&& !u.undo_available
        }),
{
    crate::game::lemma_undo_reverts_play(m.position, m.records, mv);
}

/// The single undo: after an undo the Undo button is not offered, and only
/// a successful move offers it again; so between two undos through the
/// button at least one move is played. Export is offered exactly when a
/// move was played.
pub proof fn lemma_undo_once(m: SessionModel, mv: MoveData)
    ensures
        !undo_offered(undone(m).0),
        undo_offered(m) ==> undone(m).0.records.len() + 1 == m.records.len(),
        legal_in(m.position, mv) ==> undo_offered(played(m, mv).0),
        !legal_in(m.position, mv) ==> undo_offered(played(m, mv).0) == undo_offered(m),
        export_offered(m) <==> m.records.len() > 0,
{
}

/// Once the first move is played the timer settings cannot change; before
/// that, every change of a timer setting resets the clocks.
pub proof fn lemma_timer_settings_lock(m: SessionModel, preset: TimerPreset, minutes: u32)
    ensures
        timer_locked(m) ==> timed_game_toggled(m) == (m, ClockEffect::Unchanged) && preset_chosen(
            m,
            preset,
        ) == (m, ClockEffect::Unchanged) && custom_minutes_set(m, minutes) == (
            m,
            ClockEffect::Unchanged,
        ),
        timed_game_toggled(m).0 != m ==> timed_game_toggled(m).1 == ClockEffect::ResetClocks,
        preset_chosen(m, preset).0 != m ==> preset_chosen(m, preset).1 == ClockEffect::ResetClocks,
        custom_minutes_set(m, minutes).0 != m ==> custom_minutes_set(m, minutes).1
            == ClockEffect::ResetClocks,
{
}

proof fn lemma_filter_map_take_step(s: Seq<MoveData>, i: int)
    requires
        0 <= i < s.len(),
    ensures
        s.take(i + 1).filter_map(|m: MoveData| move_to_spec(m)) == s.take(i).filter_map(
            |m: MoveData| move_to_spec(m),
        ) + match move_to_spec(s[i]) {
            Some(t) => seq![t],
            None => Seq::<Square>::empty(),
        },
{
    assert(s.take(i + 1).drop_last() =~= s.take(i));
    assert(s.take(i + 1).last() == s[i]);
    if move_to_spec(s[i]) is None {
        assert(s.take(i).filter_map(|m: MoveData| move_to_spec(m)) + Seq::<Square>::empty()
            =~= s.take(i).filter_map(|m: MoveData| move_to_spec(m)));
    }
}

/// The cursor square moved by display offsets, clamped to the board.
fn step_cursor(cursor: Square, flipped: bool, file_delta: isize, rank_delta: isize) -> (r: Square)
    requires
        cursor.valid(),
        file_delta <= isize::MAX - 7,
        rank_delta <= isize::MAX - 7,
    ensures
        r == cursor_step(cursor, flipped, file_delta as int, rank_delta as int),
        r.valid(),
{
    proof {
        crate::layout::lemma_display_round_trip(cursor, flipped);
    }
    let (display_file, display_rank) = match display_coords(cursor, flipped) {
        Some(coords) => coords,
        None => return cursor,
    };
    let f = display_file as isize + file_delta;
    let r = display_rank as isize + rank_delta;
    let next_file: usize = if f < 0 {
        0
    } else if f > 7 {
        7
    } else {
        f as usize
    };
    let next_rank: usize = if r < 0 {
        0
    } else if r > 7 {
        7
    } else {
        r as usize
    };
    proof {
        crate::layout::lemma_cell_round_trip(next_file as int, next_rank as int, flipped);
    }
    displayed_square(next_file, next_rank, flipped)
}

impl PendingPromotion {
    pub closed spec fn moves(self) -> Seq<MoveData> {
        move_views(self.candidates@)
    }
}

impl ChessSession {
    /// The plain state.
    pub closed spec fn model(self) -> SessionModel {
        SessionModel {
            position: self.game.current(),
            records: self.game.records(),
            selected: self.selected_square,
            destinations: self.legal_destinations@,
            pending: match self.pending_promotion {
                Some(p) => Some(p.moves()),
                None => None,
            },
            cursor: self.keyboard_cursor,
            timed_out: self.timed_out,
            undo_available: self.undo_available,
            flipped: self.flipped,
            show_last_move: self.show_last_move,
            board_theme: self.board_theme,
            keyboard_moves_enabled: self.keyboard_moves_enabled,
            timed_game_enabled: self.timed_game_enabled,
            timer_preset: self.timer_preset,
            custom_timer_minutes: self.custom_timer_minutes,
            show_new_game_confirmation: self.show_new_game_confirmation,
            last_error: text_view(self.last_error),
            last_message: text_view(self.last_message),
        }
    }

    /// How many times the current position has appeared.
    pub closed spec fn repetitions(self) -> nat {
        self.game.repetitions()
    }

    /// The session is consistent: the game is well formed, the keyboard
    /// cursor is on the board, undo is offered only when a move was played,
    /// the custom clock length is within 1 to 999 minutes,
    /// the move markers are exactly the
    /// destinations of the selected piece's legal moves (none without a
    /// selection), and waiting promotion moves are several legal moves.
    pub closed spec fn wf(self) -> bool {
        &&& self.game.wf()
        &&& self.keyboard_cursor.valid()
        &&& self.undo_available ==> self.game.records().len() > 0
        &&& 1 <= self.custom_timer_minutes <= 999
        &&& self.selected_square is None ==> self.legal_destinations@.len() == 0
        &&& self.selected_square matches Some(s) ==> self.legal_destinations@ == destinations(
            moves_from(self.game.current(), s),
        )
        &&& self.pending_promotion matches Some(p) ==> p.moves().len() > 1 && forall|i: int|
            0 <= i < p.moves().len() ==> legal_in(self.game.current(), #[trigger] p.moves()[i])
    }

    /// The consistency facts a caller may rely on.
    pub proof fn lemma_wf_facts(self)
        requires
            self.wf(),
        ensures
            self.model().cursor.valid(),
            self.model().undo_available ==> self.model().records.len() > 0,
            1 <= self.model().custom_timer_minutes <= 999,
            self.model().selected is None ==> self.model().destinations.len() == 0,
            self.model().selected matches Some(s) ==> self.model().destinations == destinations(
                moves_from(self.model().position, s),
            ),
            self.model().pending matches Some(p) ==> p.len() > 1 && forall|i: int|
                0 <= i < p.len() ==> legal_in(self.model().position, #[trigger] p[i]),
    {
    }

    /// Creates a new session with the standard starting position.
    pub fn new() -> (s: Self)
        ensures
            s.wf(),
            s.model() == (SessionModel {
                position: crate::engine::standard_start(),
                records: Seq::empty(),
                selected: None,
                destinations: Seq::empty(),
                pending: None,
                cursor: start_cursor(),
                timed_out: None,
                undo_available: false,
                flipped: false,
                show_last_move: true,
                board_theme: BoardTheme::Purple,
                keyboard_moves_enabled: false,
                timed_game_enabled: false,
                timer_preset: TimerPreset::FiveMinutes,
                custom_timer_minutes: 5,
                show_new_game_confirmation: false,
                last_error: None,
                last_message: None,
            }),
    {
        let s = ChessSession {
            game: Game::new(),
            selected_square: None,
            legal_destinations: Vec::new(),
            flipped: false,
            show_last_move: true,
            board_theme: BoardTheme::Purple,
            keyboard_moves_enabled: false,
            keyboard_cursor: Square { index: 12 },
            timed_game_enabled: false,
            timer_preset: TimerPreset::FiveMinutes,
            custom_timer_minutes: 5,
            timed_out: None,
            undo_available: false,
            pending_promotion: None,
            show_new_game_confirmation: false,
            last_error: None,
            last_message: None,
        };
        proof {
            assert(s.model().destinations =~= Seq::<Square>::empty());
        }
        s
    }

    /// The game being played.
    pub fn game(&self) -> (r: &Game)
        ensures
            r.current() == self.model().position,
            r.records() == self.model().records,
            r.repetitions() == self.repetitions(),
            self.wf() ==> r.wf(),
    {
        &self.game
    }

    /// The selected square, if any.
    pub fn selected_square(&self) -> (r: Option<Square>)
        ensures
            r == self.model().selected,
    {
        self.selected_square
    }

    /// The squares marked as destinations of the selected piece.
    pub fn legal_destinations(&self) -> (r: &Vec<Square>)
        ensures
            r@ == self.model().destinations,
    {
        &self.legal_destinations
    }

    /// The keyboard cursor square.
    pub fn keyboard_cursor(&self) -> (r: Square)
        ensures
            r == self.model().cursor,
    {
        self.keyboard_cursor
    }

    /// The player who ran out of time, if any.
    pub fn timed_out(&self) -> (r: Option<Color>)
        ensures
            r == self.model().timed_out,
    {
        self.timed_out
    }

    /// Whether the one-step undo is still available.
    pub fn undo_available(&self) -> (r: bool)
        ensures
            r == self.model().undo_available,
    {
        self.undo_available
    }

    /// Whether the board is drawn from Black's point of view.
    pub fn flipped(&self) -> (r: bool)
        ensures
            r == self.model().flipped,
    {
        self.flipped
    }

    /// Whether the previous move is highlighted.
    pub fn show_last_move(&self) -> (r: bool)
        ensures
            r == self.model().show_last_move,
    {
        self.show_last_move
    }

    /// The board colour theme.
    pub fn board_theme(&self) -> (r: BoardTheme)
        ensures
            r == self.model().board_theme,
    {
        self.board_theme
    }

    /// Whether keyboard move entry is on.
    pub fn keyboard_moves_enabled(&self) -> (r: bool)
        ensures
            r == self.model().keyboard_moves_enabled,
    {
        self.keyboard_moves_enabled
    }

    /// Whether the clocks count down.
    pub fn timed_game_enabled(&self) -> (r: bool)
        ensures
            r == self.model().timed_game_enabled,
    {
        self.timed_game_enabled
    }

    /// The selected clock preset.
    pub fn timer_preset(&self) -> (r: TimerPreset)
        ensures
            r == self.model().timer_preset,
    {
        self.timer_preset
    }

    /// The clock length in minutes for the custom preset.
    pub fn custom_timer_minutes(&self) -> (r: u32)
        ensures
            r == self.model().custom_timer_minutes,
    {
        self.custom_timer_minutes
    }

    /// Whether the new-game confirmation is open.
    pub fn new_game_confirmation_open(&self) -> (r: bool)
        ensures
            r == self.model().show_new_game_confirmation,
    {
        self.show_new_game_confirmation
    }

    /// The error text shown in the sidebar, if any.
    pub fn last_error(&self) -> (r: &Option<String>)
        ensures
            text_view(*r) == self.model().last_error,
    {
        &self.last_error
    }

    /// The information text shown in the sidebar, if any.
    pub fn last_message(&self) -> (r: &Option<String>)
        ensures
            text_view(*r) == self.model().last_message,
    {
        &self.last_message
    }

    /// Turns the board around.
    pub fn toggle_flipped(&mut self)
        requires
            old(self).wf(),
        ensures
            final(self).wf(),
            final(self).model() == (SessionModel { flipped: !old(self).model().flipped, ..old(self).model() }),
    {
        self.flipped = !self.flipped;
    }

    /// Switches the previous-move highlight on or off.
    pub fn toggle_show_last_move(&mut self)
        requires
            old(self).wf(),
        ensures
            final(self).wf(),
            final(self).model() == (SessionModel { show_last_move: !old(self).model().show_last_move, ..old(self).model() }),
    {
        self.show_last_move = !self.show_last_move;
    }

    /// Switches keyboard move entry on or off.
    pub fn toggle_keyboard_moves(&mut self)
        requires
            old(self).wf(),
        ensures
            final(self).wf(),
            final(self).model() == (SessionModel { keyboard_moves_enabled: !old(self).model().keyboard_moves_enabled, ..old(self).model() }),
    {
        self.keyboard_moves_enabled = !self.keyboard_moves_enabled;
    }

    /// Chooses the board colour theme.
    pub fn set_board_theme(&mut self, theme: BoardTheme)
        requires
            old(self).wf(),
        ensures
            final(self).wf(),
            final(self).model() == (SessionModel { board_theme: theme, ..old(self).model() }),
    {
        self.board_theme = theme;
    }

    /// Opens the new-game confirmation.
    pub fn ask_new_game(&mut self)
        requires
            old(self).wf(),
        ensures
            final(self).wf(),
            final(self).model() == (SessionModel {
                show_new_game_confirmation: true,
                ..old(self).model()
            }),
    {
        self.show_new_game_confirmation = true;
    }

    /// Closes the new-game confirmation; a confirmed new game starts over.
    pub fn answer_new_game(&mut self, confirmed: bool) -> (effect: ClockEffect)
        requires
            old(self).wf(),
        ensures
            final(self).wf(),
            confirmed ==> final(self).model() == game_reset(
                SessionModel { show_new_game_confirmation: false, ..old(self).model() },
            ) && effect == ClockEffect::ResetClocks,
            !confirmed ==> final(self).model() == (SessionModel {
                show_new_game_confirmation: false,
                ..old(self).model()
            }) && effect == ClockEffect::Unchanged,
    {
        self.show_new_game_confirmation = false;
        if confirmed {
            self.reset_game()
        } else {
            ClockEffect::Unchanged
        }
    }

    /// Switches timed play on or off, unless the game has started.
    pub fn toggle_timed_game(&mut self) -> (effect: ClockEffect)
        requires
            old(self).wf(),
        ensures
            final(self).wf(),
            (final(self).model(), effect) == timed_game_toggled(old(self).model()),
    {
        if self.game.can_undo() {
            return ClockEffect::Unchanged;
        }
        self.timed_game_enabled = !self.timed_game_enabled;
        self.timed_out = None;
        ClockEffect::ResetClocks
    }

    /// Chooses a clock preset, in a timed game that has not started.
    pub fn choose_timer_preset(&mut self, preset: TimerPreset) -> (effect: ClockEffect)
        requires
            old(self).wf(),
        ensures
            final(self).wf(),
            (final(self).model(), effect) == preset_chosen(old(self).model(), preset),
    {
        if self.game.can_undo() || !self.timed_game_enabled {
            return ClockEffect::Unchanged;
        }
        self.timer_preset = preset;
        self.timed_out = None;
        ClockEffect::ResetClocks
    }

    /// Sets the custom clock length, which selects the custom preset, in a
    /// timed game that has not started.
    pub fn set_custom_timer_minutes(&mut self, minutes: u32) -> (effect: ClockEffect)
        requires
            old(self).wf(),
        ensures
            final(self).wf(),
            (final(self).model(), effect) == custom_minutes_set(old(self).model(), minutes),
    {
        if self.game.can_undo() || !self.timed_game_enabled {
            return ClockEffect::Unchanged;
        }
        self.custom_timer_minutes = if minutes < 1 {
            1
        } else if minutes > 999 {
            999
        } else {
            minutes
        };
        self.timer_preset = TimerPreset::Custom;
        self.timed_out = None;
        ClockEffect::ResetClocks
    }

    /// Shows an error in the sidebar.
    pub fn report_error(&mut self, detail: &str)
        requires
            old(self).wf(),
        ensures
            final(self).wf(),
            final(self).model() == (SessionModel {
                last_error: Some(detail@),
                ..old(self).model()
            }),
    {
        self.last_error = Some(detail.to_owned());
    }

    /// Whether the Undo button is offered.
    pub fn undo_enabled(&self) -> (r: bool)
        ensures
            r == undo_offered(self.model()),
    {
        self.undo_available && self.game.can_undo()
    }

    /// Whether the Export CSV button is offered.
    pub fn export_enabled(&self) -> (r: bool)
        ensures
            r == export_offered(self.model()),
    {
        self.game.can_undo()
    }

    /// Whether a promotion choice is waiting.
    pub fn promotion_pending(&self) -> (r: bool)
        ensures
            r == self.model().pending is Some,
    {
        self.pending_promotion.is_some()
    }

    /// The number of moves played.
    pub fn move_count(&self) -> (r: usize)
        ensures
            r == self.model().records.len(),
    {
        let n = self.game.history_len();
        n
    }

    /// The clock length of the selected preset, in seconds.
    pub fn selected_timer_seconds(&self) -> (r: u64)
        ensures
            r == timer_seconds(self.model().timer_preset, self.model().custom_timer_minutes),
    {
        let minutes: u64 = match self.timer_preset {
            TimerPreset::OneMinute => 1,
            TimerPreset::ThreeMinutes => 3,
            TimerPreset::FiveMinutes => 5,
            TimerPreset::Custom => if self.custom_timer_minutes >= 1 {
                self.custom_timer_minutes as u64
            } else {
                1
            },
        };
        minutes * 60
    }

    /// The game counts as started once the first move is played.
    pub fn game_started(&self) -> (r: bool)
        ensures
            r == (self.model().records.len() > 0),
    {
        self.game.can_undo()
    }

    /// Whether the game is over, by the rules or on time.
    pub fn is_game_over(&self) -> (r: bool)
        requires
            self.wf(),
        ensures
            r == (outcome_of(self.model().position, self.repetitions()) is Some
                || self.model().timed_out is Some),
    {
        self.game.outcome().is_some() || self.timed_out.is_some()
    }

    /// Whether the side to move's clock should run: a timed game that has
    /// started and is not over.
    pub fn clock_running(&self) -> (r: bool)
        requires
            self.wf(),
        ensures
            r == (self.model().timed_game_enabled && self.model().records.len() > 0 && outcome_of(
                self.model().position,
                self.repetitions(),
            ) is None && self.model().timed_out is None),
    {
        self.timed_game_enabled && self.game_started() && self.game.outcome().is_none()
            && self.timed_out.is_none()
    }

    /// Selects `square` and marks where its piece can legally go.
    fn select_square(&mut self, square: Square)
        requires
            old(self).wf(),
        ensures
            final(self).wf(),
            final(self).model() == selected_at(old(self).model(), square),
    {
        let moves = self.game.legal_moves_from(square);
        let ghost ms = moves@.map_values(|m: Move| m@);
        let mut dests: Vec<Square> = Vec::new();
        proof {
            assert(ms.take(0) =~= Seq::<MoveData>::empty());
            assert(ms.take(0).filter_map(|m: MoveData| move_to_spec(m)) =~= Seq::<Square>::empty());
        }
        let mut i: usize = 0;
        while i < moves.len()
            invariant
                i <= moves@.len(),
                ms == moves@.map_values(|m: Move| m@),
                dests@ == ms.take(i as int).filter_map(|m: MoveData| move_to_spec(m)),
            decreases moves@.len() - i,
        {
            proof {
                lemma_filter_map_take_step(ms, i as int);
            }
            match move_to(&moves[i]) {
                Some(to) => {
                    dests.push(to);
                },
                None => {},
            }
            proof {
                assert(dests@ =~= ms.take(i + 1).filter_map(|m: MoveData| move_to_spec(m)));
            }
            i = i + 1;
        }
        proof {
            assert(ms.take(moves@.len() as int) =~= ms);
        }
        self.selected_square = Some(square);
        self.legal_destinations = dests;
        proof {
            assert(self.model() =~= selected_at(old(self).model(), square));
        }
    }

    /// Plays `mv` through the game model, which checks legality.
    fn play_move(&mut self, mv: Move) -> (effect: ClockEffect)
        requires
            old(self).wf(),
        ensures
            final(self).wf(),
            (final(self).model(), effect) == played(old(self).model(), mv@),
    {
        match self.game.play(mv) {
            Ok(()) => {
                self.selected_square = None;
                self.legal_destinations.clear();
                // A promotion choice from the old position no longer applies.
                self.pending_promotion = None;
                self.undo_available = true;
                self.last_error = None;
                self.last_message = None;
                proof {
                    assert(self.model() =~= played(old(self).model(), mv@).0);
                }
                ClockEffect::RestartTick
            },
            Err(error) => {
                self.last_error = Some(error.message().to_owned());
                self.last_message = None;
                proof {
                    assert(self.model() =~= played(old(self).model(), mv@).0);
                }
                ClockEffect::Unchanged
            },
        }
    }

    /// Handles a click (or keyboard selection) on `square`.
    pub fn handle_square_click(&mut self, square: Square) -> (effect: ClockEffect)
        requires
            old(self).wf(),
        ensures
            final(self).wf(),
            (final(self).model(), effect) == clicked(old(self).model(), old(self).repetitions(), square),
    {
        proof {
            reveal(clicked);
        }
        // Ignore board input while a modal choice is open or after the game
        // has ended.
        if self.pending_promotion.is_some() || self.game.outcome().is_some()
            || self.timed_out.is_some() {
            return ClockEffect::Unchanged;
        }
        let clicked_piece = self.game.piece_at(square);
        let selected_piece = match self.selected_square {
            Some(selected) => self.game.piece_at(selected),
            None => None,
        };
        // Clicking the selected square again cancels the selection.
        let reselected = match self.selected_square {
            Some(selected) => selected == square,
            None => false,
        };
        if reselected {
            self.clear_selection();
            return ClockEffect::Unchanged;
        }
        // Clicking one of your own pieces selects it.
        if let Some(piece) = clicked_piece {
            if piece.color == self.game.side_to_move() {
                self.select_square(square);
                return ClockEffect::Unchanged;
            }
        }
        let from = match self.selected_square {
            Some(from) => from,
            None => return ClockEffect::Unchanged,
        };
        if selected_piece.is_none() {
            // Defensive cleanup if the selection no longer holds a piece.
            self.clear_selection();
            return ClockEffect::Unchanged;
        }
        self.attempt_move(from, square)
    }

    /// Plays the move from `from` to `square`, or opens the promotion choice.
    fn attempt_move(&mut self, from: Square, square: Square) -> (effect: ClockEffect)
        requires
            old(self).wf(),
            old(self).model().pending is None,
        ensures
            final(self).wf(),
            (final(self).model(), effect) == move_attempted(old(self).model(), from, square),
    {
        let candidates = self.game.legal_moves_between(from, square);
        if candidates.len() == 0 {
            return ClockEffect::Unchanged;
        }
        // Several moves between the same squares are promotions: the player
        // must choose the new piece.
        if candidates.len() > 1 {
            proof {
                let c = moves_between(self.game.current(), from, square);
                assert(c == candidates@.map_values(|m: Move| m@));
                assert forall|i: int| 0 <= i < c.len() implies legal_in(
                    self.game.current(),
                    #[trigger] c[i],
                ) by {
                    crate::game::lemma_moves_between_legal(self.game.current(), from, square, i);
                }
            }
            self.pending_promotion = Some(PendingPromotion { candidates });
            proof {
                assert(self.model() =~= move_attempted(old(self).model(), from, square).0);
            }
            return ClockEffect::Unchanged;
        }
        let mv = candidates[0];
        proof {
            assert(candidates@.map_values(|m: Move| m@)[0] == mv@);
        }
        self.play_move(mv)
    }

    /// Undoes the last move.
    pub fn undo(&mut self) -> (effect: ClockEffect)
        requires
            old(self).wf(),
        ensures
            final(self).wf(),
            (final(self).model(), effect) == undone(old(self).model()),
    {
        if self.game.undo().is_some() {
            self.pending_promotion = None;
            self.selected_square = None;
            self.legal_destinations.clear();
            self.undo_available = false;
            self.timed_out = None;
            self.last_error = None;
            self.last_message = None;
            let effect = if self.game_started() {
                // Restart the clock delta from now, so a pause on the undo
                // click does not charge time to the next player.
                ClockEffect::RestartTick
            } else {
                ClockEffect::ResetClocks
            };
            proof {
                assert(self.model() =~= undone(old(self).model()).0);
            }
            effect
        } else {
            ClockEffect::Unchanged
        }
    }

    /// Starts a new game: fresh position, no selection, cursor back on e2,
    /// clocks reset, messages cleared. Settings stay as they are.
    pub fn reset_game(&mut self) -> (effect: ClockEffect)
        requires
            old(self).wf(),
        ensures
            final(self).wf(),
            effect == ClockEffect::ResetClocks,
            final(self).model() == game_reset(old(self).model()),
    {
        self.game.reset();
        self.selected_square = None;
        self.legal_destinations.clear();
        self.pending_promotion = None;
        self.keyboard_cursor = Square { index: 12 };
        self.undo_available = false;
        self.timed_out = None;
        self.last_error = None;
        self.last_message = None;
        proof {
            assert(self.model().destinations =~= Seq::<Square>::empty());
        }
        ClockEffect::ResetClocks
    }

    /// Clears a timeout; the caller sets both clocks to
    /// `selected_timer_seconds` and stops measuring.
    pub fn reset_clocks(&mut self)
        requires
            old(self).wf(),
        ensures
            final(self).wf(),
            final(self).model() == (SessionModel { timed_out: None, ..old(self).model() }),
    {
        self.timed_out = None;
    }

    /// Records that the side to move ran out of time.
    pub fn flag_timeout(&mut self)
        requires
            old(self).wf(),
        ensures
            final(self).wf(),
            final(self).model() == deselected(
                SessionModel { timed_out: Some(old(self).model().position.key.turn), ..old(self).model() },
            ),
    {
        self.timed_out = Some(self.game.side_to_move());
        self.clear_selection();
    }

    /// Moves the keyboard cursor by display offsets, staying on the board.
    pub fn move_keyboard_cursor(&mut self, display_file_delta: isize, display_rank_delta: isize)
        requires
            old(self).wf(),
            display_file_delta <= isize::MAX - 7,
            display_rank_delta <= isize::MAX - 7,
        ensures
            final(self).wf(),
            final(self).model() == cursor_moved(
                old(self).model(),
                display_file_delta as int,
                display_rank_delta as int,
            ),
    {
        self.keyboard_cursor = step_cursor(
            self.keyboard_cursor,
            self.flipped,
            display_file_delta,
            display_rank_delta,
        );
    }

    /// Applies the arrow keys of one frame to the keyboard cursor.
    fn move_cursor_by_keys(&mut self, left: bool, right: bool, up: bool, down: bool)
        requires
            old(self).wf(),
        ensures
            final(self).wf(),
            final(self).repetitions() == old(self).repetitions(),
            final(self).model() == arrows_moved(old(self).model(), left, right, up, down),
            final(self).model().position == old(self).model().position,
            final(self).model().records == old(self).model().records,
    {
        let flipped = self.flipped;
        let mut c = self.keyboard_cursor;
        if left {
            c = step_cursor(c, flipped, -1, 0);
        }
        if right {
            c = step_cursor(c, flipped, 1, 0);
        }
        if up {
            c = step_cursor(c, flipped, 0, -1);
        }
        if down {
            c = step_cursor(c, flipped, 0, 1);
        }
        self.keyboard_cursor = c;
    }

    /// Applies the arrow keys and the cancel key of one frame.
    fn steer_by_keys(&mut self, left: bool, right: bool, up: bool, down: bool, cancel: bool)
        requires
            old(self).wf(),
        ensures
            final(self).wf(),
            final(self).repetitions() == old(self).repetitions(),
            final(self).model().records == old(self).model().records,
            final(self).model() == if cancel {
                deselected(arrows_moved(old(self).model(), left, right, up, down))
            } else {
                arrows_moved(old(self).model(), left, right, up, down)
            },
    {
        self.move_cursor_by_keys(left, right, up, down);
        if cancel {
            self.clear_selection();
        }
    }

    /// Handles the navigation keys pressed in one frame.
    pub fn handle_keys(
        &mut self,
        left: bool,
        right: bool,
        up: bool,
        down: bool,
        select: bool,
        cancel: bool,
    ) -> (effect: ClockEffect)
        requires
            old(self).wf(),
        ensures
            final(self).wf(),
            (final(self).model(), effect) == keys_pressed(
                old(self).model(),
                old(self).repetitions(),
                left,
                right,
                up,
                down,
                select,
                cancel,
            ),
    {
        if !self.keyboard_moves_enabled {
            return ClockEffect::Unchanged;
        }
        self.steer_by_keys(left, right, up, down, cancel);
        if select {
            let cursor = self.keyboard_cursor;
            return self.handle_square_click(cursor);
        }
        ClockEffect::Unchanged
    }

    /// Plays the waiting promotion move that promotes to `role`.
    pub fn handle_promotion_choice(&mut self, role: Role) -> (effect: ClockEffect)
        requires
            old(self).wf(),
        ensures
            final(self).wf(),
            (final(self).model(), effect) == promotion_chosen(old(self).model(), role),
    {
        let ghost m = self.model();
        let found = match &self.pending_promotion {
            None => return ClockEffect::Unchanged,
            Some(pending) => find_promotion(&pending.candidates, role),
        };
        let i = match found {
            None => {
                proof {
                    let c = self.pending_promotion.unwrap().moves();
                    assert(m.pending == Some(c));
                    assert(!exists|k: int| first_promotion_to(c, role, k));
                    assert(promotion_chosen(m, role) == (m, ClockEffect::Unchanged));
                }
                return ClockEffect::Unchanged;
            },
            Some(i) => i,
        };
        let mv = match &self.pending_promotion {
            None => return ClockEffect::Unchanged,
            Some(pending) => pending.candidates[i],
        };
        proof {
            let c = self.pending_promotion.unwrap().moves();
            assert(m.pending == Some(c));
            assert(first_promotion_to(c, role, i as int));
            let k = choose|k: int| first_promotion_to(c, role, k);
            assert(k == i) by {
                if k < i {
                    assert(promotion_role_spec(c[k]) != Some(role));
                } else if k > i {
                    assert(promotion_role_spec(c[i as int]) != Some(role));
                }
            }
            assert(mv@ == c[i as int]);
        }
        self.pending_promotion = None;
        proof {
            assert(self.model() =~= SessionModel { pending: None, ..m });
        }
        let ghost before = self.model();
        let effect = self.play_move(mv);
        proof {
            let c = m.pending.unwrap();
            let k = choose|k: int| first_promotion_to(c, role, k);
            assert(first_promotion_to(c, role, i as int));
            assert(k == i);
            assert(mv@ == c[k]);
            assert(before == SessionModel { pending: None, ..m });
            assert(promotion_chosen(m, role) == played(SessionModel { pending: None, ..m }, c[k]));
            assert(self.model() == promotion_chosen(m, role).0);
            assert(effect == promotion_chosen(m, role).1);
        }
        effect
    }

    /// Records a successful move-list export.
    pub fn export_succeeded(&mut self)
        requires
            old(self).wf(),
        ensures
            final(self).wf(),
            final(self).model() == (SessionModel {
                last_error: None,
                last_message: Some("Exported "@ + MOVE_LIST_EXPORT_PATH@),
                ..old(self).model()
            }),
    {
        self.last_error = None;
        let mut message = "Exported ".to_owned();
        message.append(MOVE_LIST_EXPORT_PATH);
        self.last_message = Some(message);
    }

    /// Records a failed move-list export with the system's error text.
    pub fn export_failed(&mut self, detail: &str)
        requires
            old(self).wf(),
        ensures
            final(self).wf(),
            final(self).model() == (SessionModel {
                last_error: Some("Could not export CSV: "@ + detail@),
                last_message: None,
                ..old(self).model()
            }),
    {
        self.last_message = None;
        let mut error = "Could not export CSV: ".to_owned();
        error.append(detail);
        self.last_error = Some(error);
    }

    fn clear_selection(&mut self)
        requires
            old(self).wf(),
        ensures
            final(self).wf(),
            final(self).model() == (SessionModel {
                selected: None,
                destinations: Seq::empty(),
                ..old(self).model()
            }),
    {
        // No selected square means no legal-move markers either.
        self.selected_square = None;
        self.legal_destinations.clear();
        proof {
            assert(self.model().destinations =~= Seq::<Square>::empty());
            assert(self.model() =~= SessionModel {
                selected: None,
                destinations: Seq::empty(),
                ..old(self).model()
            });
        }
    }
}

} // verus!
