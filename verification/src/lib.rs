//! Clipboard history: classification of clipboard text, change detection,
//! the textual record format of the history table, and the store that
//! writes and reads it.

pub mod content;
pub mod db;
pub mod event;
pub mod record;
pub mod text;
pub mod ui;
pub mod watcher;
