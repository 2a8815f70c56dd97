//! Decision logic of a small Linux auto-clicker: the hotkey listener's
//! state machine, the clicker's pacing, the settings panel's edits, the
//! configuration defaults and location, and the device-permission report.

pub mod decimal;
pub mod codes;
pub mod mode;
pub mod event;
pub mod config;
pub mod state;
pub mod listener;
pub mod access;
pub mod laws;
