//! Snippet buttons: the rules behind a small desktop panel that shows one
//! button per text snippet of a JSON file and copies a snippet to the
//! clipboard when its button is clicked.
//!
//! The crate holds the decisions only. Reading the file, drawing widgets,
//! talking to the clipboard and waiting for file events are left to the
//! program around it, which hands plain values in and acts on what comes back.

pub mod clipboard;
pub mod json;
pub mod laws;
pub mod loader;
pub mod panel;
pub mod report;
pub mod snippet;
pub mod watcher;
pub mod window;
