//! The decisions of an autoclicker with key macros.
pub mod gui;
pub mod hotkey_laws;
pub mod icon;
pub mod input;
pub mod key_laws;
pub mod keys;
pub mod labels;
pub mod laws;
pub mod macro_laws;
pub mod macros;
pub mod model;
pub mod pace_laws;
pub mod pacing;
pub mod state;
pub mod tables;
pub mod text;
pub mod window_laws;
