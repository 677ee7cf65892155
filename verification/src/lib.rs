//! The verified core of the Wisplet launcher: configuration layout, text and
//! UTF-16 handling, icon pixel processing, window placement and hotkey state.
pub mod text;
pub mod utf16;
pub mod paths;
pub mod launcher;
pub mod window;
pub mod icon;
pub mod config;
pub mod crash;
