//! Core logic of a desktop dictation shell: the decisions behind text
//! injection, the global-shortcut dispatch table, and the tray language menu.
//!
//! All operating-system work (clipboard, synthetic keystrokes, the tray
//! itself) happens outside this crate; the functions here compute what to do
//! and are verified to do exactly that.
pub mod injection;
pub mod shortcuts;
pub mod text;
pub mod tray;

