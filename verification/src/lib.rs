//! The verified core of a small multi-shell terminal: colour themes, settings,
//! shell selection, path handling and the command state machine that the
//! graphical front end drives.

pub mod text;
pub mod theme;
pub mod shell;
pub mod paths;
pub mod settings;
pub mod terminal;
pub mod render;
pub mod window;
