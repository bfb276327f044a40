//! Decision logic of a Windows taskbar hider: which shortcut is configured,
//! when the taskbar must be shown, what the tray menu offers and how the
//! settings dialog is laid out. The Win32 side effects live outside this crate;
//! everything here works on plain values.

pub mod config;
pub mod dialog;
pub mod geometry;
pub mod hotkey;
pub mod hotkey_edit;
pub mod identity;
pub mod keys;
pub mod messages;
pub mod taskbar;
pub mod text;
pub mod tray;
pub mod wide;
pub mod words;
pub mod worker;
