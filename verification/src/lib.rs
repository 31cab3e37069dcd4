//! Core of a local note-taking application: search over the entries of a
//! notes directory, and the single-slot session that watches it for changes.

pub mod entry;
pub mod error;
pub mod laws;
pub mod rank;
pub mod search;
pub mod snippet;
pub mod source;
pub mod text;
pub mod watch;
