//! Core of a clipboard translation utility: configuration handling, the
//! incremental stream decoders for the two provider wire dialects, bitmap
//! normalization for clipboard images, the clipboard retry policy, request
//! building, the display event queue, and the coordinator state machine that
//! arbitrates translations.

pub mod clipboard;
pub mod config;
pub mod coordinator;
pub mod dib;
pub mod hotkey;
pub mod session;
pub mod settings;
pub mod stream;
pub mod tray;
pub mod ui;
pub mod util;
pub mod wire;
