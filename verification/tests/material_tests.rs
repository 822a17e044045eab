use chess_app::engine::{Move, MoveData};
use chess_app::game::{status_text, Game, GameOutcome};
use chess_app::moves::move_to;
use chess_app::types::{Role, Square};

fn all_moves(game: &Game) -> Vec<Move> {
    let me = game.side_to_move();
    let mut out = Vec::new();
    for i in 0..64u8 {
        let sq = Square { index: i };
        if game.piece_at(sq).map(|p| p.color) == Some(me) {
            out.extend(game.legal_moves_from(sq));
        }
    }
    out
}

fn capture_value(m: &Move) -> u32 {
    match m.data() {
        MoveData::Normal { capture: Some(c), .. } => [0, 1, 3, 3, 5, 9, 0][c as usize],
        MoveData::EnPassant { .. } => 1,
        _ => 0,
    }
}

fn distance(a: u8, b: u8) -> u32 {
    let df = (a % 8).abs_diff(b % 8);
    let dr = (a / 8).abs_diff(b / 8);
    df.max(dr) as u32
}

/// How close a move brings the mover to the other side: a king heads for
/// the nearest enemy piece, any other piece for the enemy king.
fn approach(game: &Game, m: &Move) -> u32 {
    let me = game.side_to_move();
    let to = move_to(m).unwrap().index;
    let from = match m.data() {
        MoveData::Normal { from, .. } | MoveData::EnPassant { from, .. } => from,
        MoveData::Castle { king, .. } => king,
        MoveData::Put { to, .. } => to,
    };
    let is_king = game.piece_at(Square { index: from }).map(|p| p.role) == Some(Role::King);
    let mut best = 14;
    for i in 0..64u8 {
        if let Some(p) = game.piece_at(Square { index: i }) {
            if p.color != me && (is_king != (p.role == Role::King)) {
                best = best.min(distance(to, i));
            }
        }
    }
    14 - best
}

/// Both sides capture whatever they can, otherwise offer material or walk
/// towards the other side (ties broken by a fixed pseudo-random sequence), never ending the game by mate or stalemate,
/// until too little material is left to mate.
#[test]
fn trading_down_reaches_insufficient_material() {
    let mut game = Game::new();
    let mut seed: u64 = 0x2545_f491_4f6c_dd1d;
    for _ in 0..3000 {
        if game.outcome() == Some(GameOutcome::InsufficientMaterial) {
            break;
        }
        let moves = all_moves(&game);
        let mut best: Option<(u32, Move)> = None;
        for m in moves {
            let toward = approach(&game, &m);
            game.play(m).unwrap();
            let ends = matches!(
                game.outcome(),
                Some(GameOutcome::Checkmate { .. }) | Some(GameOutcome::Stalemate)
            );
            // Offer material: how much the reply can capture.
            let offered = all_moves(&game).iter().map(capture_value).max().unwrap_or(0);
            game.undo();
            if ends {
                continue;
            }
            seed = seed.wrapping_mul(6364136223846793005).wrapping_add(1442695040888963407);
            let noise = ((seed >> 33) % 16) as u32;
            let v = capture_value(&m) * 1000 + offered * 100 + toward + noise;
            if best.map_or(true, |(bv, _)| v > bv) {
                best = Some((v, m));
            }
        }
        let (_, m) = best.expect("a move that keeps the game going");
        game.play(m).unwrap();
    }
    assert_eq!(game.outcome(), Some(GameOutcome::InsufficientMaterial));
    assert_eq!(status_text(&game), "Draw - insufficient material");
}
