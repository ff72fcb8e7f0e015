//! Runtime core of a rhythm game.
//!
//! The crate holds the parts of the game that decide things: which page is
//! active and which lifecycle hooks run on a transition, how a key press is
//! judged against the notes that are visible, how chart events become audio
//! and visual messages, and how decoded background images are cached and
//! preprocessed. Clocks, channels, threads and the file system stay with the
//! caller, which hands plain values in and carries the resulting messages out.

pub mod chart;
pub mod config;
pub mod filesystem;
pub mod game_page;
pub mod judge;
pub mod loops;
pub mod media;
pub mod pages;
pub mod text;
pub mod title_page;
