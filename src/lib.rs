use vstd::prelude::*;

/// Path expressions, lexical normalisation and resolution.
pub mod pathmanager;
/// Text on character sequences: splitting, joining, comparing.
pub mod text;
/// Settings, command history and bookmarks.
pub mod config;
/// The session: modes, commands, keys and what they do.
pub mod session;
/// Directory listings: entries, hidden files, display order.
pub mod filemanager;
/// Inline completion of the command being typed.
pub mod suggest;
/// The shell command line.
pub mod termin;
/// Screen layout and the scrolling list window.
pub mod ui;

verus! {

} // verus!
