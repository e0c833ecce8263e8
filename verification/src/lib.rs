//! A small journaling library: one markdown file per day, entries written in
//! the style of a commit message (title line, blank line, body).
//!
//! The library decides and computes; it touches no file and runs no program.
//! A caller reads what is on disk, hands it over as plain values, and carries
//! out what comes back.
//!
//! - [`entry`] parses and formats entries, names the day's file and decides
//!   what is written to it.
//! - [`summary`] reads titles out of a day's markdown and sums up the days of
//!   a window.
//! - [`display`] cuts markdown into styled spans for a terminal.
//! - [`git`] decides, step by step, how the log directory is synchronised.
//! - [`config`] holds the settings and their defaults.
//! - [`date`] and [`calendar`] hold dates and times of day; [`text`] holds
//!   the character-level groundwork.
//! - [`laws`] states what holds across these modules, with proofs;
//!   [`text_lemmas`] holds the facts about text that the proofs rest on.

pub mod calendar;
pub mod config;
pub mod date;
pub mod display;
pub mod entry;
pub mod git;
pub mod laws;
pub mod summary;
pub mod text;
pub mod text_lemmas;
