//! The logic of hal, a terminal agent that lets a user talk to a language
//! model and lets the model call tools on the user's machine: read, write and
//! edit files, list and search directories, and run shell commands in a
//! sandbox.
//!
//! Nothing in this library waits, reads a file or draws. The program around it
//! does that, and asks the library what each thing that happened means:
//!
//! - `app`, `controller`, `submit` and `keys` hold the application and the
//!   steps of a turn; every step says, as an `Effect`, what is to be done next.
//! - `tools`, `fileops`, `listing`, `grep` and `shell` say what a tool call
//!   asks of the machine and what the tool gives back.
//! - `sandbox` and `paths` decide which paths a shell command has to be
//!   allowed before it runs.
//! - `journal`, `refs`, `turn` and `session` hold the transcript, the wire log
//!   and what is stored of them.
//! - `editor` and `picker` are the input line.
//! - `styled`, `chatview`, `screen`, `layout` and `summary` lay the screen out.
//! - `text`, `lines` and `sorting` are the handling of strings below all this.
//!
//! Every function is verified against its contract. What comes from other
//! crates (JSON from `serde_json`, diffs from `similar`, patterns from `glob`
//! and `regex`, dates from `chrono`, widths from `ratatui`) is called through
//! a few functions whose contracts are taken on trust; each says so.

pub mod api;
pub mod app;
pub mod chatview;
pub mod cli;
pub mod command;
pub mod config;
pub mod controller;
pub mod diff;
pub mod editor;
pub mod fileops;
pub mod grep;
pub mod journal;
pub mod json;
pub mod keys;
pub mod labels;
pub mod layout;
pub mod lines;
pub mod listing;
pub mod paths;
pub mod picker;
pub mod refs;
pub mod sandbox;
pub mod screen;
pub mod session;
pub mod shell;
pub mod sorting;
pub mod styled;
pub mod submit;
pub mod summary;
pub mod text;
pub mod tools;
pub mod toolspec;
pub mod turn;
