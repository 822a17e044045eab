//! Chess game model: rules come from `shakmaty`, while move history, undo,
//! repetition tracking, outcome detection, move-list formatting, board
//! orientation and the interactive selection flow are verified here.

pub mod assets;
pub mod text;
pub mod types;
pub mod engine;
pub mod game;
pub mod layout;
pub mod moves;
pub mod notation;
pub mod session;
