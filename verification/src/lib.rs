//! The verified core of the echo music player: single-instance endpoint naming, tray icon
//! pixels, argv parsing, list scroll math, view navigation decisions, the terminal player's key
//! handling in each input mode, theme color tables, lyric timing and the small pieces of
//! backdrop and image plumbing that are pure integer logic.

pub mod instance;
pub mod tray;
pub mod library;
pub mod text;
pub mod cli;
pub mod backdrop;
pub mod theme;
pub mod views;
pub mod images;
pub mod assets;
pub mod palette;
pub mod browse;
pub mod navigation;
pub mod normal;
pub mod modes;
