//! Core of an interactive file-eradication tool: a user composes a shell-glob
//! pattern, reviews the matched paths in a selectable list, unmarks the
//! entries that should survive, and commits the deletion of the rest.
//!
//! This crate holds the state machine and list logic with their contracts;
//! terminal rendering and the actual filesystem removals live with the caller.

pub mod app;
pub mod entry;
pub mod list;
pub mod search;

pub use app::App;
pub use app::AppMode;
pub use app::Input;
pub use entry::PathEntry;
pub use list::StatefulList;
pub use search::SearchError;
