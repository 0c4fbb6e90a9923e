//! A content search engine for a text editor, with its proofs.
//!
//! The engine scans the files of a directory listing for a literal text or a
//! regular expression, line by line, and gathers the matches of each line in
//! one record. The host lists directories, reads files and shows progress;
//! the engine decides which files to scan, what to do at each file boundary,
//! and what the result is. Every function is verified against the contract
//! in its signature. Calls into the regex, glob and encoding crates stand
//! behind small functions whose contracts are believed, not proved; each
//! says so in its documentation.
//!
//! Beside the engine stand the other rules of the editor that need no
//! window: reading the command line, detecting text encodings, planning
//! dialogs and sorting file system events.

pub mod aggregate;
pub mod cancel;
pub mod dialog;
pub mod encoding;
pub mod enumerate;
pub mod error;
pub mod laws;
pub mod menu;
pub mod number;
pub mod pattern;
pub mod scanner;
pub mod search;
pub mod startup;
pub mod store;
pub mod text;
pub mod watcher;
