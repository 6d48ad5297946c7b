//! Interaction engine of a terminal hex editor: grid geometry, edit overlay,
//! byte search, key bindings and the mode state machine.

pub mod actions;
pub mod draw;
pub mod event;
pub mod geometry;
pub mod hex;
pub mod keyboard;
pub mod modes;
pub mod overlay;
pub mod pattern;
pub mod state;
pub mod text;
