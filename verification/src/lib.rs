//! The input state machine of a modal terminal search tool.
//!
//! A keystroke enters [`handler::handle_key_events`], which edits the
//! application state and names the one piece of outside work the keystroke
//! calls for: running the line-search tool, launching the editor, writing or
//! deleting the session. The caller performs that work and hands what came of
//! it back as plain values: the tool's output to
//! [`handler::helpers::get_results`], whether the session was stored to
//! [`handler::helpers::session_stored`], the lines of the selected file to
//! [`handler::helpers::get_preview`]. Nothing in this crate touches a
//! process, a file or a terminal.
//!
//! The rules themselves are written down once, as a function on
//! mathematical states, in [`transition`]; [`laws`] holds what follows from
//! them for every run.

pub mod app;
pub mod display;
pub mod editor;
pub mod handler;
pub mod key;
pub mod laws;
pub mod preview;
pub mod search;
pub mod session;
pub mod text;
pub mod transition;
