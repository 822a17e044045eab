use chess_app::assets::{asset_file, piece_asset_key, AssetKey, BoardTheme};
use chess_app::layout::{display_coords, displayed_square, is_light_cell};
use chess_app::text::{color_name, format_clock, square_text};
use chess_app::types::{opposite_color, Color, Piece, Role, Square};

#[test]
fn top_left_cell_depends_on_orientation() {
    assert_eq!(displayed_square(0, 0, false), Square { index: 56 });
    assert_eq!(displayed_square(0, 0, true), Square { index: 7 });
    assert_eq!(displayed_square(7, 7, false), Square { index: 7 });
    assert_eq!(displayed_square(7, 7, true), Square { index: 56 });
    assert_eq!(displayed_square(4, 6, false), Square { index: 12 });
}

#[test]
fn display_coords_round_trip() {
    for flipped in [false, true] {
        for index in 0..64u8 {
            let square = Square { index };
            let (f, r) = display_coords(square, flipped).unwrap();
            assert!(f <= 7 && r <= 7);
            assert_eq!(displayed_square(f, r, flipped), square);
        }
    }
    assert_eq!(display_coords(Square { index: 4 }, false), Some((4, 7)));
    assert_eq!(display_coords(Square { index: 4 }, true), Some((3, 0)));
    assert_eq!(display_coords(Square { index: 64 }, false), None);
}

#[test]
fn light_cells_alternate() {
    assert!(is_light_cell(0, 0));
    assert!(!is_light_cell(1, 0));
    assert!(is_light_cell(usize::MAX, 1));
    assert!(!is_light_cell(usize::MAX, 8));
    assert!(is_light_cell(7, 7));
}

#[test]
fn clock_text_is_padded() {
    assert_eq!(format_clock(0), "00:00");
    assert_eq!(format_clock(65), "01:05");
    assert_eq!(format_clock(300), "05:00");
    assert_eq!(format_clock(6000), "100:00");
    assert_eq!(format_clock(59999), "999:59");
}

#[test]
fn square_and_color_names() {
    assert_eq!(square_text(Square { index: 0 }), "a1");
    assert_eq!(square_text(Square { index: 28 }), "e4");
    assert_eq!(square_text(Square { index: 63 }), "h8");
    assert_eq!(color_name(Color::White), "White");
    assert_eq!(color_name(Color::Black), "Black");
    assert_eq!(opposite_color(Color::White), Color::Black);
    assert_eq!(opposite_color(opposite_color(Color::Black)), Color::Black);
}

#[test]
fn asset_keys_and_files() {
    let key = piece_asset_key(Piece { color: Color::Black, role: Role::Knight });
    assert_eq!(key, AssetKey::Piece { color: Color::Black, role: Role::Knight });
    assert_eq!(asset_file(key), "pieces/b_knight.svg");
    assert_eq!(
        asset_file(AssetKey::Square { theme: BoardTheme::Purple, light: true }),
        "squares/square_light_purple.svg"
    );
    assert_eq!(
        asset_file(AssetKey::Square { theme: BoardTheme::Tropical, light: false }),
        "squares/square_tropical_dark.svg"
    );
    assert_eq!(
        asset_file(AssetKey::Piece { color: Color::White, role: Role::King }),
        "pieces/w_king.svg"
    );
}

#[test]
fn asset_files_are_all_different() {
    let mut keys = Vec::new();
    for theme in [BoardTheme::Brown, BoardTheme::Gray, BoardTheme::Purple, BoardTheme::Tropical] {
        for light in [true, false] {
            keys.push(AssetKey::Square { theme, light });
        }
    }
    for color in [Color::White, Color::Black] {
        for role in [Role::Pawn, Role::Knight, Role::Bishop, Role::Rook, Role::Queen, Role::King] {
            keys.push(AssetKey::Piece { color, role });
        }
    }
    let mut files: Vec<&str> = keys.iter().map(|k| asset_file(*k)).collect();
    assert_eq!(files.len(), 20);
    files.sort();
    files.dedup();
    assert_eq!(files.len(), 20);
    assert_eq!(asset_file(AssetKey::Piece { color: Color::White, role: Role::Pawn }), "pieces/w_pawn.svg");
    assert_eq!(asset_file(AssetKey::Square { theme: BoardTheme::Gray, light: false }), "squares/square_gray_dark.svg");
}
