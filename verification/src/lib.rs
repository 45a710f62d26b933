//! The veetee terminal model: character cells, the page grid, terminal
//! modes, character sets, keyboard codes, key programming, soft fonts,
//! colour, Set-Up features and session recordings, each with its contract.

pub mod cell;
pub mod charset;
pub mod text;
pub mod config;
pub mod setup;
pub mod modes;
pub mod grid;
pub mod keyboard;
pub mod udk;
pub mod keyprog;
pub mod terminal;
pub mod softfont;
pub mod color;
pub mod selection;
pub mod history;
pub mod emulator;
pub mod recording;
