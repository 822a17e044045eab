//! Board themes and the logical keys of the image assets.

use vstd::prelude::*;
use crate::types::{Color, Piece, Role};

verus! {

/// The currently selected board square color theme.
#[derive(Clone, Copy, PartialEq, Eq, Structural, Debug, Hash)]
pub enum BoardTheme {
    /// Brown light and dark squares.
    Brown,
    /// Gray light and dark squares.
    Gray,
    /// Purple light and dark squares.
    Purple,
    /// Tropical light and dark squares.
    Tropical,
}

/// A logical asset identifier used by the raster cache.
#[derive(Clone, Copy, PartialEq, Eq, Structural, Debug, Hash)]
pub enum AssetKey {
    /// One of the eight board square images.
    Square {
        /// The board theme that chooses the asset family.
        theme: BoardTheme,
        /// Whether the square uses the light variant.
        light: bool,
    },
    /// One of the twelve chess piece images.
    Piece {
        /// The piece color.
        color: Color,
        /// The piece role.
        role: Role,
    },
}

/// Maps a piece to its asset key.
pub fn piece_asset_key(piece: Piece) -> (r: AssetKey)
    ensures
        r == (AssetKey::Piece { color: piece.color, role: piece.role }),
{
    AssetKey::Piece { color: piece.color, role: piece.role }
}

/// The file name of a piece image, such as "w_knight.svg".
pub open spec fn piece_file_of(color: Color, role: Role) -> Seq<char> {
    match (color, role) {
        (Color::White, Role::Pawn) => "pieces/w_pawn.svg"@,
        (Color::White, Role::Knight) => "pieces/w_knight.svg"@,
        (Color::White, Role::Bishop) => "pieces/w_bishop.svg"@,
        (Color::White, Role::Rook) => "pieces/w_rook.svg"@,
        (Color::White, Role::Queen) => "pieces/w_queen.svg"@,
        (Color::White, Role::King) => "pieces/w_king.svg"@,
        (Color::Black, Role::Pawn) => "pieces/b_pawn.svg"@,
        (Color::Black, Role::Knight) => "pieces/b_knight.svg"@,
        (Color::Black, Role::Bishop) => "pieces/b_bishop.svg"@,
        (Color::Black, Role::Rook) => "pieces/b_rook.svg"@,
        (Color::Black, Role::Queen) => "pieces/b_queen.svg"@,
        (Color::Black, Role::King) => "pieces/b_king.svg"@,
    }
}

/// The file name of a square image.
pub open spec fn square_file_of(theme: BoardTheme, light: bool) -> Seq<char> {
    match (theme, light) {
        (BoardTheme::Brown, true) => "squares/square_brown_light.svg"@,
        (BoardTheme::Brown, false) => "squares/square_brown_dark.svg"@,
        (BoardTheme::Gray, true) => "squares/square_gray_light.svg"@,
        (BoardTheme::Gray, false) => "squares/square_gray_dark.svg"@,
        (BoardTheme::Purple, true) => "squares/square_light_purple.svg"@,
        (BoardTheme::Purple, false) => "squares/square_dark_purple.svg"@,
        (BoardTheme::Tropical, true) => "squares/square_tropical_light.svg"@,
        (BoardTheme::Tropical, false) => "squares/square_tropical_dark.svg"@,
    }
}

/// The SVG file, relative to the asset directory, that an asset key names.
pub open spec fn asset_file_of(key: AssetKey) -> Seq<char> {
    match key {
        AssetKey::Square { theme, light } => square_file_of(theme, light),
        AssetKey::Piece { color, role } => piece_file_of(color, role),
    }
}

/// The asset key an asset file name stands for, read from a few of its
/// characters.
spec fn key_of_asset_file(f: Seq<char>) -> AssetKey {
    if f[0] == 'p' {
        let color = if f[7] == 'w' {
            Color::White
        } else {
            Color::Black
        };
        let role = if f[9] == 'p' {
            Role::Pawn
        } else if f[9] == 'b' {
            Role::Bishop
        } else if f[9] == 'r' {
            Role::Rook
        } else if f[9] == 'q' {
            Role::Queen
        } else if f[10] == 'n' {
            Role::Knight
        } else {
            Role::King
        };
        AssetKey::Piece { color, role }
    } else if f[15] == 'b' {
        AssetKey::Square { theme: BoardTheme::Brown, light: f[21] == 'l' }
    } else if f[15] == 'g' {
        AssetKey::Square { theme: BoardTheme::Gray, light: f[20] == 'l' }
    } else if f[15] == 't' {
        AssetKey::Square { theme: BoardTheme::Tropical, light: f[24] == 'l' }
    } else {
        AssetKey::Square { theme: BoardTheme::Purple, light: f[15] == 'l' }
    }
}

proof fn lemma_asset_file_names_key(k: AssetKey)
    ensures
        key_of_asset_file(asset_file_of(k)) == k,
{
    reveal_strlit("squares/square_brown_light.svg");
    reveal_strlit("squares/square_brown_dark.svg");
    reveal_strlit("squares/square_gray_light.svg");
    reveal_strlit("squares/square_gray_dark.svg");
    reveal_strlit("squares/square_light_purple.svg");
    reveal_strlit("squares/square_dark_purple.svg");
    reveal_strlit("squares/square_tropical_light.svg");
    reveal_strlit("squares/square_tropical_dark.svg");
    reveal_strlit("pieces/w_pawn.svg");
    reveal_strlit("pieces/w_knight.svg");
    reveal_strlit("pieces/w_bishop.svg");
    reveal_strlit("pieces/w_rook.svg");
    reveal_strlit("pieces/w_queen.svg");
    reveal_strlit("pieces/w_king.svg");
    reveal_strlit("pieces/b_pawn.svg");
    reveal_strlit("pieces/b_knight.svg");
    reveal_strlit("pieces/b_bishop.svg");
    reveal_strlit("pieces/b_rook.svg");
    reveal_strlit("pieces/b_queen.svg");
    reveal_strlit("pieces/b_king.svg");
}

/// The lower-case name of a role, as piece image files spell it.
pub open spec fn role_file_name(role: Role) -> Seq<char> {
    match role {
        Role::Pawn => "pawn"@,
        Role::Knight => "knight"@,
        Role::Bishop => "bishop"@,
        Role::Rook => "rook"@,
        Role::Queen => "queen"@,
        Role::King => "king"@,
    }
}

/// Different asset keys name different files.
pub proof fn lemma_asset_files_distinct(k1: AssetKey, k2: AssetKey)
    requires
        k1 != k2,
    ensures
        asset_file_of(k1) != asset_file_of(k2),
{
    lemma_asset_file_names_key(k1);
    lemma_asset_file_names_key(k2);
}

/// A piece image is "pieces/", then "w" for White or "b" for Black, an
/// underscore, the role's lower-case name and ".svg".
pub proof fn lemma_piece_file_scheme(color: Color, role: Role)
    ensures
        asset_file_of(AssetKey::Piece { color, role }) == "pieces/"@ + (if color == Color::White {
            "w"@
        } else {
            "b"@
        }) + "_"@ + role_file_name(role) + ".svg"@,
{
    reveal_strlit("squares/square_brown_light.svg");
    reveal_strlit("squares/square_brown_dark.svg");
    reveal_strlit("squares/square_gray_light.svg");
    reveal_strlit("squares/square_gray_dark.svg");
    reveal_strlit("squares/square_light_purple.svg");
    reveal_strlit("squares/square_dark_purple.svg");
    reveal_strlit("squares/square_tropical_light.svg");
    reveal_strlit("squares/square_tropical_dark.svg");
    reveal_strlit("pieces/w_pawn.svg");
    reveal_strlit("pieces/w_knight.svg");
    reveal_strlit("pieces/w_bishop.svg");
    reveal_strlit("pieces/w_rook.svg");
    reveal_strlit("pieces/w_queen.svg");
    reveal_strlit("pieces/w_king.svg");
    reveal_strlit("pieces/b_pawn.svg");
    reveal_strlit("pieces/b_knight.svg");
    reveal_strlit("pieces/b_bishop.svg");
    reveal_strlit("pieces/b_rook.svg");
    reveal_strlit("pieces/b_queen.svg");
    reveal_strlit("pieces/b_king.svg");
    reveal_strlit("pieces/");
    reveal_strlit("w");
    reveal_strlit("b");
    reveal_strlit("_");
    reveal_strlit(".svg");
    reveal_strlit("pawn");
    reveal_strlit("knight");
    reveal_strlit("bishop");
    reveal_strlit("rook");
    reveal_strlit("queen");
    reveal_strlit("king");
    let rhs = "pieces/"@ + (if color == Color::White {
        "w"@
    } else {
        "b"@
    }) + "_"@ + role_file_name(role) + ".svg"@;
    assert(asset_file_of(AssetKey::Piece { color, role }) =~= rhs);
}

/// Returns the SVG file, relative to the asset directory, for an asset key.
pub fn asset_file(key: AssetKey) -> (r: &'static str)
    ensures
        r@ == asset_file_of(key),
{
    match key {
        AssetKey::Square { theme: BoardTheme::Brown, light: true } => "squares/square_brown_light.svg",
        AssetKey::Square { theme: BoardTheme::Brown, light: false } => "squares/square_brown_dark.svg",
        AssetKey::Square { theme: BoardTheme::Gray, light: true } => "squares/square_gray_light.svg",
        AssetKey::Square { theme: BoardTheme::Gray, light: false } => "squares/square_gray_dark.svg",
        AssetKey::Square { theme: BoardTheme::Purple, light: true } => "squares/square_light_purple.svg",
        AssetKey::Square { theme: BoardTheme::Purple, light: false } => "squares/square_dark_purple.svg",
        AssetKey::Square { theme: BoardTheme::Tropical, light: true } => "squares/square_tropical_light.svg",
        AssetKey::Square { theme: BoardTheme::Tropical, light: false } => "squares/square_tropical_dark.svg",
        AssetKey::Piece { color: Color::White, role: Role::Pawn } => "pieces/w_pawn.svg",
        AssetKey::Piece { color: Color::White, role: Role::Knight } => "pieces/w_knight.svg",
        AssetKey::Piece { color: Color::White, role: Role::Bishop } => "pieces/w_bishop.svg",
        AssetKey::Piece { color: Color::White, role: Role::Rook } => "pieces/w_rook.svg",
        AssetKey::Piece { color: Color::White, role: Role::Queen } => "pieces/w_queen.svg",
        AssetKey::Piece { color: Color::White, role: Role::King } => "pieces/w_king.svg",
        AssetKey::Piece { color: Color::Black, role: Role::Pawn } => "pieces/b_pawn.svg",
        AssetKey::Piece { color: Color::Black, role: Role::Knight } => "pieces/b_knight.svg",
        AssetKey::Piece { color: Color::Black, role: Role::Bishop } => "pieces/b_bishop.svg",
        AssetKey::Piece { color: Color::Black, role: Role::Rook } => "pieces/b_rook.svg",
        AssetKey::Piece { color: Color::Black, role: Role::Queen } => "pieces/b_queen.svg",
        AssetKey::Piece { color: Color::Black, role: Role::King } => "pieces/b_king.svg",
    }
}

} // verus!
