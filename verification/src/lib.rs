//! The Znicz terminal interface: the state, rules and text layout behind the
//! player's screens, kept apart from the terminal so they can be proved.

pub mod cover;
pub mod cursor;
pub mod text;
pub mod toast;
pub mod tui_config;
pub mod footer_hits;
pub mod format;
pub mod hit;
pub mod input;
pub mod keyed;
pub mod keys;
pub mod library;
pub mod library_pane;
pub mod layout;
pub mod line_edit;
pub mod meta;
pub mod transport;
pub mod rows;
pub mod signal;
pub mod app;
pub mod daemon;
