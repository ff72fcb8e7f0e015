//! Messages exchanged between the input, logic, audio and render threads.

use vstd::prelude::*;

pub mod audio;
pub mod key_map;
pub mod main_loop;
pub mod visual;

verus! {

/// Number of lanes on the play field.
pub const MAX_LANES: usize = 8;

/// Message that releases the game loop.
#[derive(Clone, Copy, Debug, PartialEq, Eq, Structural)]
pub enum ControlMsg {
    /// Start ticking.
    Start,
}

/// Key code as the windowing layer names it.
#[derive(Debug, Clone, PartialEq, Eq)]
pub struct RawKeyCode(pub String);

/// Whether a key went down or came up.
#[derive(Debug, Clone, Copy, PartialEq, Eq, Structural)]
pub enum KeyState {
    /// The key went down.
    Pressed,
    /// The key came up.
    Released,
}

/// Input as the windowing layer delivers it.
#[derive(Debug, Clone, PartialEq, Eq)]
pub enum RawInputMsg {
    /// A keyboard key changed state.
    Key {
        /// Which key.
        code: RawKeyCode,
        /// What happened to it.
        state: KeyState,
    },
}

/// Keys that act on the application rather than on a lane.
#[derive(Debug, Clone, Copy, PartialEq, Eq, Structural)]
pub enum SystemKey {
    /// Confirm.
    Enter,
    /// Leave.
    Escape,
}

/// Input after key mapping.
#[derive(Debug, Clone, Copy, PartialEq, Eq, Structural)]
pub enum InputMsg {
    /// The key of a lane went down.
    KeyDown(usize),
    /// The key of a lane came up.
    KeyUp(usize),
    /// A system key went down.
    SystemKey(SystemKey),
}

/// Layer of the background animation that an image or video is shown on.
#[derive(Clone, Copy, Debug, PartialEq, Eq, Structural, Hash)]
pub enum BgaLayer {
    /// Base layer.
    Bga,
    /// First overlay.
    Layer,
    /// Second overlay.
    Layer2,
    /// Layer shown for a short time after a miss.
    Poor,
}

/// One coloured rectangle of a frame.
///
/// Positions and sizes are in thousandths of a pixel, colour channels in
/// hundredths of full intensity, so that a frame is described without
/// rounding.
#[derive(Clone, Copy, Debug, PartialEq, Eq)]
pub struct Instance {
    /// Centre, x then y.
    pub pos: [i64; 2],
    /// Width, then height.
    pub size: [i64; 2],
    /// Red, green, blue, alpha.
    pub color: [u8; 4],
}

/// Message to the render thread.
#[derive(Clone, Debug, PartialEq, Eq)]
pub enum VisualMsg {
    /// The rectangles of the next frame.
    Instances(Vec<Instance>),
    /// Show an image on a layer.
    BgaChange {
        /// Target layer.
        layer: BgaLayer,
        /// Image file.
        path: String,
    },
    /// Show the miss layer for a short time.
    BgaPoorTrigger,
    /// Play a video on a layer.
    VideoPlay {
        /// Target layer.
        layer: BgaLayer,
        /// Video file.
        path: String,
        /// Whether the video starts over when it ends.
        loop_play: bool,
    },
    /// Ask the user for a chart file.
    RequestFileOpen,
}

/// A message together with the thread it is meant for.
#[derive(Clone, Debug, PartialEq, Eq)]
pub enum Effect {
    /// For the audio thread.
    Audio(audio::Msg),
    /// For the render thread.
    Visual(VisualMsg),
    /// Decode these background images ahead of playback.
    PreloadBga {
        /// Image files.
        files: Vec<String>,
    },
}

} // verus!
