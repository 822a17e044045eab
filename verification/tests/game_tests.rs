use chess_app::engine::{Move, MoveData};
use chess_app::game::{square_from_indices, status_text, Game, GameError, GameOutcome};
use chess_app::moves::{move_from, move_to, promotion_role};
use chess_app::types::{Color, Piece, Role, Square};

fn sq(name: &str) -> Square {
    let b = name.as_bytes();
    Square { index: (b[0] - b'a') + 8 * (b[1] - b'1') }
}

/// All legal moves of the current position.
fn all_moves(game: &Game) -> Vec<Move> {
    let mut out = Vec::new();
    for i in 0..64u8 {
        out.extend(game.legal_moves_from(Square { index: i }));
    }
    out
}

/// Finds the legal move with the given notation.
fn find_san(game: &mut Game, san: &str) -> Move {
    for m in all_moves(game) {
        assert_eq!(game.play(m), Ok(()));
        let found = game.san_history().last().copied() == Some(san);
        game.undo();
        if found {
            return m;
        }
    }
    panic!("no legal move {san}")
}

fn play_san(game: &mut Game, san: &str) {
    let mv = find_san(game, san);
    assert_eq!(game.play(mv), Ok(()));
}

fn play_line(game: &mut Game, line: &[&str]) {
    for san in line {
        play_san(game, san);
    }
}

#[test]
fn new_game_is_standard_start() {
    let game = Game::new();
    assert_eq!(game.side_to_move(), Color::White);
    assert_eq!(game.piece_at(sq("e1")), Some(Piece { color: Color::White, role: Role::King }));
    assert_eq!(game.piece_at(sq("d8")), Some(Piece { color: Color::Black, role: Role::Queen }));
    assert_eq!(game.piece_at(sq("b1")), Some(Piece { color: Color::White, role: Role::Knight }));
    assert_eq!(game.piece_at(sq("e7")), Some(Piece { color: Color::Black, role: Role::Pawn }));
    assert_eq!(game.piece_at(sq("e4")), None);
    assert_eq!(game.piece_at(Square { index: 64 }), None);
    assert!(!game.can_undo());
    assert!(!game.is_check());
    assert_eq!(game.outcome(), None);
    assert_eq!(game.repetition_count(), 1);
    assert!(game.san_history().is_empty());
    assert!(game.formatted_move_list().is_empty());
    assert_eq!(game.move_list_csv(), "move_number,side,from,to,san\n");
    assert_eq!(game.last_move_squares(), None);
    assert_eq!(status_text(&game), "White to move");
    let snap = game.position().snapshot();
    assert_eq!(snap.key.castling_rights, 0x8100_0000_0000_0081);
    assert_eq!(snap.key.ep_square, None);
    assert_eq!(snap.halfmoves, 0);
}

#[test]
fn legal_moves_from_a_square() {
    let game = Game::new();
    let mut to: Vec<u8> = game
        .legal_moves_from(sq("e2"))
        .iter()
        .map(|m| move_to(m).unwrap().index)
        .collect();
    to.sort();
    assert_eq!(to, vec![sq("e3").index, sq("e4").index]);
    assert_eq!(game.legal_moves_from(sq("g1")).len(), 2);
    assert!(game.legal_moves_from(sq("e1")).is_empty());
    assert!(game.legal_moves_from(sq("e7")).is_empty());
    assert!(game.legal_moves_from(sq("e4")).is_empty());
    assert_eq!(all_moves(&game).len(), 20);
    for m in game.legal_moves_from(sq("g1")) {
        assert_eq!(move_from(&m), Some(sq("g1")));
    }
}

#[test]
fn legal_moves_between_two_squares() {
    let game = Game::new();
    let moves = game.legal_moves_between(sq("e2"), sq("e4"));
    assert_eq!(moves.len(), 1);
    assert_eq!(
        moves[0].data(),
        MoveData::Normal { role: 1, from: sq("e2").index, capture: None, to: sq("e4").index, promotion: None }
    );
    assert!(game.legal_moves_between(sq("e2"), sq("e5")).is_empty());
}

#[test]
fn playing_records_notation_and_history() {
    let mut game = Game::new();
    let mv = game.legal_moves_between(sq("e2"), sq("e4"))[0];
    assert_eq!(game.play(mv), Ok(()));
    assert_eq!(game.side_to_move(), Color::Black);
    assert_eq!(game.san_history(), vec!["e4"]);
    assert_eq!(game.last_move_squares(), Some((sq("e2"), sq("e4"))));
    assert_eq!(game.piece_at(sq("e4")), Some(Piece { color: Color::White, role: Role::Pawn }));
    assert_eq!(game.piece_at(sq("e2")), None);
    assert!(game.can_undo());
    assert_eq!(status_text(&game), "Black to move");
    play_san(&mut game, "e5");
    play_san(&mut game, "Nf3");
    assert_eq!(game.san_history(), vec!["e4", "e5", "Nf3"]);
    assert_eq!(
        game.formatted_move_list(),
        vec!["1. White: e2 -> e4", "1... Black: e7 -> e5", "2. White: g1 -> f3"]
    );
    assert_eq!(
        game.move_list_csv(),
        "move_number,side,from,to,san\n1,White,e2,e4,e4\n1,Black,e7,e5,e5\n2,White,g1,f3,Nf3\n"
    );
}

#[test]
fn illegal_move_is_rejected_without_change() {
    let mut game = Game::new();
    play_san(&mut game, "e4");
    let black_move = find_san(&mut game, "e5");
    game.undo();
    let before = game.position().snapshot();
    assert_eq!(game.play(black_move), Err(GameError::IllegalMove));
    assert_eq!(GameError::IllegalMove.message(), "illegal move");
    assert_eq!(game.position().snapshot(), before);
    assert!(!game.can_undo());
}

#[test]
fn undo_restores_previous_position() {
    let mut game = Game::new();
    let start = game.position().snapshot();
    assert!(game.undo().is_none());
    let mv = game.legal_moves_between(sq("g1"), sq("f3"))[0];
    game.play(mv).unwrap();
    let after = game.position().snapshot();
    assert_ne!(after, start);
    let undone = game.undo().unwrap();
    assert_eq!(undone.data(), mv.data());
    assert_eq!(game.position().snapshot(), start);
    assert!(!game.can_undo());
    assert_eq!(game.repetition_count(), 1);
    assert!(game.san_history().is_empty());
}

#[test]
fn reset_returns_to_start() {
    let mut game = Game::new();
    play_line(&mut game, &["d4", "d5", "c4"]);
    game.reset();
    assert_eq!(game.position().snapshot(), Game::new().position().snapshot());
    assert!(!game.can_undo());
    assert_eq!(game.repetition_count(), 1);
}

#[test]
fn fools_mate_is_checkmate_for_black() {
    let mut game = Game::new();
    play_line(&mut game, &["f3", "e5", "g4", "Qh4"]);
    assert!(game.is_check());
    assert_eq!(game.outcome(), Some(GameOutcome::Checkmate { winner: Color::Black }));
    assert_eq!(status_text(&game), "Checkmate - Black wins");
    assert!(all_moves(&game).is_empty());
}

#[test]
fn scholars_mate_is_checkmate_for_white() {
    let mut game = Game::new();
    play_line(&mut game, &["e4", "e5", "Bc4", "Nc6", "Qh5", "Nf6", "Qxf7"]);
    assert_eq!(game.outcome(), Some(GameOutcome::Checkmate { winner: Color::White }));
    assert_eq!(status_text(&game), "Checkmate - White wins");
}

#[test]
fn check_is_reported_in_status() {
    let mut game = Game::new();
    play_line(&mut game, &["e4", "f6", "Qh5"]);
    assert!(game.is_check());
    assert_eq!(game.outcome(), None);
    assert_eq!(status_text(&game), "Check! Black to move");
}

#[test]
fn threefold_repetition_is_a_draw() {
    let mut game = Game::new();
    play_line(&mut game, &["Nf3", "Nf6", "Ng1", "Ng8"]);
    assert_eq!(game.repetition_count(), 2);
    assert_eq!(game.outcome(), None);
    play_line(&mut game, &["Nf3", "Nf6", "Ng1", "Ng8"]);
    assert_eq!(game.repetition_count(), 3);
    assert_eq!(game.outcome(), Some(GameOutcome::ThreefoldRepetition));
    assert_eq!(status_text(&game), "Draw - threefold repetition");
    game.undo();
    assert_eq!(game.repetition_count(), 2);
    game.undo();
    game.undo();
    game.undo();
    assert_eq!(game.repetition_count(), 2);
    assert_eq!(game.outcome(), None);
}

#[test]
fn fifty_move_rule_is_a_draw() {
    let mut game = Game::new();
    for _ in 0..25 {
        play_line(&mut game, &["Nf3", "Nf6", "Ng1", "Ng8"]);
    }
    assert_eq!(game.position().snapshot().halfmoves, 100);
    assert_eq!(game.outcome(), Some(GameOutcome::FiftyMoveRule));
    assert_eq!(status_text(&game), "Draw - 50-move rule");
}

#[test]
fn stalemate_is_a_draw() {
    let mut game = Game::new();
    play_line(
        &mut game,
        &[
            "e3", "a5", "Qh5", "Ra6", "Qxa5", "h5", "h4", "Rah6", "Qxc7", "f6", "Qxd7", "Kf7",
            "Qxb7", "Qd3", "Qxb8", "Qh7", "Qxc8", "Kg6", "Qe6",
        ],
    );
    assert!(!game.is_check());
    assert_eq!(game.outcome(), Some(GameOutcome::Stalemate));
    assert_eq!(status_text(&game), "Stalemate - draw");
}

#[test]
fn castling_targets_the_king_square() {
    let mut game = Game::new();
    play_line(&mut game, &["e4", "e5", "Nf3", "Nc6", "Bc4", "Bc5"]);
    let castles = game.legal_moves_between(sq("e1"), sq("g1"));
    assert_eq!(castles.len(), 1);
    assert_eq!(castles[0].data(), MoveData::Castle { king: sq("e1").index, rook: sq("h1").index });
    assert_eq!(move_to(&castles[0]), Some(sq("g1")));
    game.play(castles[0]).unwrap();
    assert_eq!(game.san_history().last(), Some(&"O-O"));
    assert_eq!(game.last_move_squares(), Some((sq("e1"), sq("g1"))));
    assert_eq!(game.formatted_move_list()[6], "4. White: e1 -> g1");
    assert_eq!(game.piece_at(sq("g1")), Some(Piece { color: Color::White, role: Role::King }));
    assert_eq!(game.piece_at(sq("f1")), Some(Piece { color: Color::White, role: Role::Rook }));
}

#[test]
fn promotion_offers_four_moves() {
    let mut game = Game::new();
    play_line(&mut game, &["h4", "g5", "hxg5", "h6", "gxh6", "Bg7", "hxg7", "Nf6"]);
    let promotions = game.legal_moves_between(sq("g7"), sq("h8"));
    assert_eq!(promotions.len(), 4);
    let mut roles: Vec<Role> = promotions.iter().map(|m| promotion_role(m).unwrap()).collect();
    roles.sort_by_key(|r| *r as u8);
    assert_eq!(roles, vec![Role::Knight, Role::Bishop, Role::Rook, Role::Queen]);
    let queen = promotions.iter().find(|m| promotion_role(m) == Some(Role::Queen)).unwrap();
    game.play(*queen).unwrap();
    assert_eq!(game.san_history().last(), Some(&"gxh8=Q"));
    assert_eq!(game.piece_at(sq("h8")), Some(Piece { color: Color::White, role: Role::Queen }));
    assert_eq!(
        game.move_list_csv().lines().last(),
        Some("5,White,g7,h8,gxh8=Q")
    );
}

#[test]
fn en_passant_move_has_squares() {
    let mut game = Game::new();
    play_line(&mut game, &["e4", "a6", "e5", "d5"]);
    assert!(game.position().snapshot().key.ep_square.is_some());
    let ep = game.legal_moves_between(sq("e5"), sq("d6"));
    assert_eq!(ep.len(), 1);
    assert_eq!(ep[0].data(), MoveData::EnPassant { from: sq("e5").index, to: sq("d6").index });
    game.play(ep[0]).unwrap();
    assert_eq!(game.san_history().last(), Some(&"exd6"));
    assert_eq!(game.piece_at(sq("d5")), None);
}

#[test]
fn square_from_indices_numbers_squares() {
    assert_eq!(square_from_indices(0, 0), sq("a1"));
    assert_eq!(square_from_indices(4, 1), sq("e2"));
    assert_eq!(square_from_indices(7, 7), sq("h8"));
    assert_eq!(sq("e2").file_index(), 4);
    assert_eq!(sq("e2").rank_index(), 1);
}

#[test]
fn csv_quotes_fields_and_numbers_moves() {
    let mut game = Game::new();
    play_line(&mut game, &["e4", "e5", "Nf3", "Nc6"]);
    let csv = game.move_list_csv();
    let lines: Vec<&str> = csv.lines().collect();
    assert_eq!(lines.len(), 5);
    assert_eq!(lines[3], "2,White,g1,f3,Nf3");
    assert_eq!(lines[4], "2,Black,b8,c6,Nc6");
}

#[test]
fn move_list_and_csv_agree_on_queenside_castling() {
    let mut game = Game::new();
    play_line(&mut game, &["d4", "d5", "Nc3", "Nc6", "Bf4", "Bf5", "Qd2", "Qd7", "O-O-O", "O-O-O"]);
    let lines = game.formatted_move_list();
    assert_eq!(lines[8], "5. White: e1 -> c1");
    assert_eq!(lines[9], "5... Black: e8 -> c8");
    let csv = game.move_list_csv();
    let rows: Vec<&str> = csv.lines().collect();
    assert_eq!(rows[9], "5,White,e1,c1,O-O-O");
    assert_eq!(rows[10], "5,Black,e8,c8,O-O-O");
    assert_eq!(game.piece_at(sq("d8")), Some(Piece { color: Color::Black, role: Role::Rook }));
}

#[test]
fn hand_built_moves_are_checked() {
    let mut game = Game::new();
    let bad = Move::new(MoveData::Normal { role: 1, from: sq("e2").index, capture: None, to: sq("e5").index, promotion: None }).unwrap();
    let before = game.position().snapshot();
    assert_eq!(game.play(bad), Err(GameError::IllegalMove));
    assert_eq!(game.position().snapshot(), before);
    assert!(!game.can_undo());
    let good = Move::new(MoveData::Normal { role: 1, from: sq("e2").index, capture: None, to: sq("e4").index, promotion: None }).unwrap();
    assert_eq!(game.play(good), Ok(()));
    assert_eq!(game.san_history(), vec!["e4"]);
    assert!(Move::new(MoveData::EnPassant { from: 64, to: 3 }).is_none());
    assert!(Move::new(MoveData::Put { role: 7, to: 3 }).is_none());
    assert!(Move::new(MoveData::Normal { role: 2, from: 1, capture: Some(0), to: 18, promotion: None }).is_none());
    let put = Move::new(MoveData::Put { role: 1, to: sq("e4").index }).unwrap();
    assert_eq!(game.play(put), Err(GameError::IllegalMove));
}

#[test]
fn play_then_undo_restores_counts_and_history() {
    let mut game = Game::new();
    play_line(&mut game, &["Nf3", "Nf6", "Ng1", "Ng8"]);
    assert_eq!(game.repetition_count(), 2);
    let history: Vec<String> = game.san_history().iter().map(|s| s.to_string()).collect();
    let snap = game.position().snapshot();
    let squares = game.last_move_squares();
    let mv = find_san(&mut game, "Nf3");
    assert_eq!(game.play(mv), Ok(()));
    assert_eq!(game.repetition_count(), 2);
    assert_eq!(game.undo().map(|m| m.data()), Some(mv.data()));
    assert_eq!(game.position().snapshot(), snap);
    assert_eq!(game.san_history(), history);
    assert_eq!(game.last_move_squares(), squares);
    assert_eq!(game.repetition_count(), 2);
    assert_eq!(game.outcome(), None);
}

#[test]
fn sides_alternate_and_halfmoves_count() {
    let mut game = Game::new();
    play_line(&mut game, &["Nf3", "Nf6", "e4"]);
    let lines = game.formatted_move_list();
    assert!(lines[0].contains("White"));
    assert!(lines[1].contains("Black"));
    assert!(lines[2].contains("White"));
    assert_eq!(game.side_to_move(), Color::Black);
    assert_eq!(game.position().snapshot().halfmoves, 0);
    play_line(&mut game, &["Ng8"]);
    assert_eq!(game.position().snapshot().halfmoves, 1);
}
