//! Commands to the audio thread and what it reports back.

use vstd::prelude::*;

verus! {

/// Command to the audio thread.
#[derive(Clone, Debug, PartialEq, Eq)]
pub enum Msg {
    /// Decode every listed file before playback starts.
    PreloadAll {
        /// Audio files.
        files: Vec<String>,
    },
    /// Play one file.
    Play(String),
}

/// Report of the audio thread.
#[derive(Clone, Copy, Debug, PartialEq, Eq, Structural)]
pub enum Event {
    /// Every file of the last `PreloadAll` was tried.
    PreloadFinished,
}

} // verus!
