use chess_app::assets::BoardTheme;
use chess_app::game::GameOutcome;
use chess_app::session::{ChessSession, ClockEffect, TimerPreset, MOVE_LIST_EXPORT_PATH};
use chess_app::types::{Color, Role, Square};

fn sq(name: &str) -> Square {
    let b = name.as_bytes();
    Square { index: (b[0] - b'a') + 8 * (b[1] - b'1') }
}

fn click_move(session: &mut ChessSession, from: &str, to: &str) -> ClockEffect {
    session.handle_square_click(sq(from));
    session.handle_square_click(sq(to))
}

#[test]
fn new_session_defaults() {
    let s = ChessSession::new();
    assert!(!s.flipped());
    assert!(s.show_last_move());
    assert_eq!(s.board_theme(), BoardTheme::Purple);
    assert!(!s.keyboard_moves_enabled());
    assert_eq!(s.keyboard_cursor(), sq("e2"));
    assert!(!s.timed_game_enabled());
    assert_eq!(s.timer_preset(), TimerPreset::FiveMinutes);
    assert_eq!(s.custom_timer_minutes(), 5);
    assert_eq!(s.selected_timer_seconds(), 300);
    assert_eq!(s.timed_out(), None);
    assert!(!s.undo_available());
    assert!(!s.promotion_pending());
    assert!(!s.new_game_confirmation_open());
    assert_eq!(s.last_error(), &None);
    assert_eq!(s.last_message(), &None);
    assert_eq!(s.selected_square(), None);
    assert!(s.legal_destinations().is_empty());
    assert!(!s.game_started());
    assert!(!s.is_game_over());
    assert_eq!(s.move_count(), 0);
}

#[test]
fn clicking_own_piece_selects_it_with_markers() {
    let mut s = ChessSession::new();
    assert_eq!(s.handle_square_click(sq("e2")), ClockEffect::Unchanged);
    assert_eq!(s.selected_square(), Some(sq("e2")));
    let mut marks: Vec<u8> = s.legal_destinations().iter().map(|q| q.index).collect();
    marks.sort();
    assert_eq!(marks, vec![sq("e3").index, sq("e4").index]);
    // Clicking another own piece switches the selection.
    s.handle_square_click(sq("g1"));
    assert_eq!(s.selected_square(), Some(sq("g1")));
    assert_eq!(s.legal_destinations().len(), 2);
}

#[test]
fn clicking_selected_square_cancels() {
    let mut s = ChessSession::new();
    s.handle_square_click(sq("e2"));
    s.handle_square_click(sq("e2"));
    assert_eq!(s.selected_square(), None);
    assert!(s.legal_destinations().is_empty());
}

#[test]
fn clicks_without_selection_do_nothing() {
    let mut s = ChessSession::new();
    assert_eq!(s.handle_square_click(sq("e7")), ClockEffect::Unchanged);
    assert_eq!(s.handle_square_click(sq("e4")), ClockEffect::Unchanged);
    assert_eq!(s.selected_square(), None);
    assert_eq!(s.move_count(), 0);
}

#[test]
fn clicking_a_destination_plays_the_move() {
    let mut s = ChessSession::new();
    assert_eq!(click_move(&mut s, "e2", "e4"), ClockEffect::RestartTick);
    assert_eq!(s.move_count(), 1);
    assert_eq!(s.selected_square(), None);
    assert!(s.legal_destinations().is_empty());
    assert!(s.undo_available());
    assert!(s.game_started());
    assert_eq!(s.game().side_to_move(), Color::Black);
    assert_eq!(s.game().san_history(), vec!["e4"]);
}

#[test]
fn clicking_an_unreachable_square_keeps_selection() {
    let mut s = ChessSession::new();
    s.handle_square_click(sq("e2"));
    assert_eq!(s.handle_square_click(sq("e5")), ClockEffect::Unchanged);
    assert_eq!(s.selected_square(), Some(sq("e2")));
    assert_eq!(s.move_count(), 0);
}

#[test]
fn undo_uses_up_the_single_undo() {
    let mut s = ChessSession::new();
    click_move(&mut s, "e2", "e4");
    click_move(&mut s, "e7", "e5");
    assert_eq!(s.undo(), ClockEffect::RestartTick);
    assert_eq!(s.move_count(), 1);
    assert!(!s.undo_available());
    // The Undo button is no longer offered, though a move remains.
    assert!(!s.undo_enabled());
    assert!(s.export_enabled());
    // After the next move, one undo is offered again.
    click_move(&mut s, "e7", "e6");
    assert!(s.undo_enabled());
    assert_eq!(s.undo(), ClockEffect::RestartTick);
    assert_eq!(s.move_count(), 1);
    assert!(!s.undo_enabled());
    // Undoing directly still takes back the remaining move.
    assert_eq!(s.undo(), ClockEffect::ResetClocks);
    assert_eq!(s.move_count(), 0);
    assert!(!s.export_enabled());
}

#[test]
fn undoing_the_only_move_resets_the_clocks() {
    let mut s = ChessSession::new();
    assert_eq!(s.undo(), ClockEffect::Unchanged);
    click_move(&mut s, "e2", "e4");
    assert_eq!(s.undo(), ClockEffect::ResetClocks);
    assert_eq!(s.move_count(), 0);
    assert_eq!(s.undo(), ClockEffect::Unchanged);
}

#[test]
fn promotion_waits_for_a_choice() {
    let mut s = ChessSession::new();
    for (from, to) in [
        ("h2", "h4"), ("g7", "g5"), ("h4", "g5"), ("h7", "h6"), ("g5", "h6"), ("f8", "g7"),
        ("h6", "g7"), ("g8", "f6"),
    ] {
        assert_eq!(click_move(&mut s, from, to), ClockEffect::RestartTick);
    }
    assert_eq!(click_move(&mut s, "g7", "h8"), ClockEffect::Unchanged);
    assert!(s.promotion_pending());
    assert_eq!(s.move_count(), 8);
    // Board clicks are ignored while the choice is open.
    assert_eq!(s.handle_square_click(sq("a2")), ClockEffect::Unchanged);
    assert_eq!(s.selected_square(), Some(sq("g7")));
    assert_eq!(s.handle_promotion_choice(Role::Knight), ClockEffect::RestartTick);
    assert!(!s.promotion_pending());
    assert_eq!(s.move_count(), 9);
    assert_eq!(s.game().san_history().last(), Some(&"gxh8=N"));
    assert_eq!(s.handle_promotion_choice(Role::Queen), ClockEffect::Unchanged);
}

#[test]
fn finished_game_ignores_clicks() {
    let mut s = ChessSession::new();
    click_move(&mut s, "f2", "f3");
    click_move(&mut s, "e7", "e5");
    click_move(&mut s, "g2", "g4");
    click_move(&mut s, "d8", "h4");
    assert_eq!(s.game().outcome(), Some(GameOutcome::Checkmate { winner: Color::Black }));
    assert!(s.is_game_over());
    assert_eq!(s.handle_square_click(sq("e1")), ClockEffect::Unchanged);
    assert_eq!(s.selected_square(), None);
}

#[test]
fn timeout_ends_the_game() {
    let mut s = ChessSession::new();
    assert_eq!(s.toggle_timed_game(), ClockEffect::ResetClocks);
    assert!(!s.clock_running());
    click_move(&mut s, "e2", "e4");
    assert!(s.clock_running());
    s.handle_square_click(sq("e7"));
    s.flag_timeout();
    assert_eq!(s.timed_out(), Some(Color::Black));
    assert_eq!(s.selected_square(), None);
    assert!(s.is_game_over());
    assert!(!s.clock_running());
    assert_eq!(s.handle_square_click(sq("e7")), ClockEffect::Unchanged);
    s.reset_clocks();
    assert_eq!(s.timed_out(), None);
}

#[test]
fn timer_presets_give_seconds() {
    let mut s = ChessSession::new();
    // Presets only apply to a timed game.
    assert_eq!(s.choose_timer_preset(TimerPreset::OneMinute), ClockEffect::Unchanged);
    assert_eq!(s.timer_preset(), TimerPreset::FiveMinutes);
    assert_eq!(s.toggle_timed_game(), ClockEffect::ResetClocks);
    assert!(s.timed_game_enabled());
    assert_eq!(s.choose_timer_preset(TimerPreset::OneMinute), ClockEffect::ResetClocks);
    assert_eq!(s.selected_timer_seconds(), 60);
    assert_eq!(s.choose_timer_preset(TimerPreset::ThreeMinutes), ClockEffect::ResetClocks);
    assert_eq!(s.selected_timer_seconds(), 180);
    assert_eq!(s.set_custom_timer_minutes(12), ClockEffect::ResetClocks);
    assert_eq!(s.timer_preset(), TimerPreset::Custom);
    assert_eq!(s.custom_timer_minutes(), 12);
    assert_eq!(s.selected_timer_seconds(), 720);
    s.set_custom_timer_minutes(0);
    assert_eq!(s.custom_timer_minutes(), 1);
    assert_eq!(s.selected_timer_seconds(), 60);
    s.set_custom_timer_minutes(5000);
    assert_eq!(s.custom_timer_minutes(), 999);
    assert_eq!(s.selected_timer_seconds(), 999 * 60);
}

#[test]
fn timer_settings_lock_after_first_move() {
    let mut s = ChessSession::new();
    s.toggle_timed_game();
    s.choose_timer_preset(TimerPreset::ThreeMinutes);
    click_move(&mut s, "e2", "e4");
    assert_eq!(s.toggle_timed_game(), ClockEffect::Unchanged);
    assert!(s.timed_game_enabled());
    assert_eq!(s.choose_timer_preset(TimerPreset::OneMinute), ClockEffect::Unchanged);
    assert_eq!(s.set_custom_timer_minutes(9), ClockEffect::Unchanged);
    assert_eq!(s.timer_preset(), TimerPreset::ThreeMinutes);
    assert_eq!(s.custom_timer_minutes(), 5);
    // Undoing back to the start unlocks them.
    s.undo();
    assert_eq!(s.choose_timer_preset(TimerPreset::OneMinute), ClockEffect::ResetClocks);
    assert_eq!(s.selected_timer_seconds(), 60);
}

#[test]
fn display_settings_toggle() {
    let mut s = ChessSession::new();
    s.toggle_flipped();
    assert!(s.flipped());
    s.toggle_show_last_move();
    assert!(!s.show_last_move());
    s.toggle_keyboard_moves();
    assert!(s.keyboard_moves_enabled());
    s.set_board_theme(BoardTheme::Tropical);
    assert_eq!(s.board_theme(), BoardTheme::Tropical);
    s.report_error("bad svg");
    assert_eq!(s.last_error().as_deref(), Some("bad svg"));
}

#[test]
fn new_game_confirmation_flow() {
    let mut s = ChessSession::new();
    click_move(&mut s, "e2", "e4");
    s.ask_new_game();
    assert!(s.new_game_confirmation_open());
    assert_eq!(s.answer_new_game(false), ClockEffect::Unchanged);
    assert!(!s.new_game_confirmation_open());
    assert_eq!(s.move_count(), 1);
    s.ask_new_game();
    assert_eq!(s.answer_new_game(true), ClockEffect::ResetClocks);
    assert!(!s.new_game_confirmation_open());
    assert_eq!(s.move_count(), 0);
}

#[test]
fn keyboard_cursor_moves_and_clamps() {
    let mut s = ChessSession::new();
    // Keys do nothing while keyboard moves are off.
    assert_eq!(s.handle_keys(true, false, false, false, false, false), ClockEffect::Unchanged);
    assert_eq!(s.keyboard_cursor(), sq("e2"));
    s.toggle_keyboard_moves();
    s.handle_keys(true, false, false, false, false, false);
    assert_eq!(s.keyboard_cursor(), sq("d2"));
    s.handle_keys(false, false, true, false, false, false);
    assert_eq!(s.keyboard_cursor(), sq("d3"));
    s.handle_keys(false, false, false, true, false, false);
    s.handle_keys(false, false, false, true, false, false);
    s.handle_keys(false, false, false, true, false, false);
    assert_eq!(s.keyboard_cursor(), sq("d1"));
    for _ in 0..10 {
        s.handle_keys(false, true, false, false, false, false);
    }
    assert_eq!(s.keyboard_cursor(), sq("h1"));
    s.toggle_flipped();
    s.handle_keys(true, false, false, false, false, false);
    assert_eq!(s.keyboard_cursor(), sq("h1"));
    s.handle_keys(false, true, false, false, false, false);
    assert_eq!(s.keyboard_cursor(), sq("g1"));
}

#[test]
fn keyboard_select_plays_moves() {
    let mut s = ChessSession::new();
    s.toggle_keyboard_moves();
    assert_eq!(s.handle_keys(false, false, false, false, true, false), ClockEffect::Unchanged);
    assert_eq!(s.selected_square(), Some(sq("e2")));
    s.handle_keys(false, false, true, false, false, false);
    s.handle_keys(false, false, true, false, false, false);
    assert_eq!(s.keyboard_cursor(), sq("e4"));
    assert_eq!(s.handle_keys(false, false, false, false, true, false), ClockEffect::RestartTick);
    assert_eq!(s.move_count(), 1);
    s.handle_keys(false, false, false, false, true, false);
    s.handle_keys(false, false, false, false, false, true);
    assert_eq!(s.selected_square(), None);
}

#[test]
fn reset_game_clears_everything_but_settings() {
    let mut s = ChessSession::new();
    s.toggle_flipped();
    s.set_board_theme(BoardTheme::Gray);
    s.toggle_keyboard_moves();
    s.handle_keys(true, false, false, false, false, false);
    click_move(&mut s, "e2", "e4");
    s.handle_square_click(sq("e7"));
    s.report_error("x");
    assert_eq!(s.reset_game(), ClockEffect::ResetClocks);
    assert_eq!(s.move_count(), 0);
    assert_eq!(s.selected_square(), None);
    assert_eq!(s.keyboard_cursor(), sq("e2"));
    assert!(!s.undo_available());
    assert_eq!(s.last_error(), &None);
    assert!(s.flipped());
    assert_eq!(s.board_theme(), BoardTheme::Gray);
}

#[test]
fn export_messages() {
    let mut s = ChessSession::new();
    s.export_succeeded();
    assert_eq!(s.last_message().as_deref(), Some("Exported move_list.csv"));
    assert_eq!(s.last_error(), &None);
    assert_eq!(MOVE_LIST_EXPORT_PATH, "move_list.csv");
    s.export_failed("disk full");
    assert_eq!(s.last_error().as_deref(), Some("Could not export CSV: disk full"));
    assert_eq!(s.last_message(), &None);
}

#[test]
fn castling_by_clicks_uses_king_square() {
    let mut s = ChessSession::new();
    for (from, to) in [("e2", "e4"), ("e7", "e5"), ("g1", "f3"), ("b8", "c6"), ("f1", "c4"), ("f8", "c5")] {
        click_move(&mut s, from, to);
    }
    s.handle_square_click(sq("e1"));
    assert!(s.legal_destinations().contains(&sq("g1")));
    assert_eq!(s.handle_square_click(sq("g1")), ClockEffect::RestartTick);
    let game = s.game();
    assert_eq!(game.san_history().last(), Some(&"O-O"));
}
