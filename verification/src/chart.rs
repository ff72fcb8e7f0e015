//! Chart events as the game logic reads them.
//!
//! A chart processor produces timed events; these types hold the parts of an
//! event that the game decides on, as plain values.

use vstd::prelude::*;
use crate::filesystem::{has_stem, is_first, StemIndex};
use crate::text::{eq_ignore_ascii_case, same_ignoring_case};
use crate::loops::BgaLayer;

verus! {

/// One in this many is the unit in which a display ratio is counted.
pub const RATIO_ONE: i64 = 1_000_000;

/// Side of the play field a note belongs to.
#[derive(Debug, Clone, Copy, PartialEq, Eq, Structural, Hash)]
pub enum PlayerSide {
    /// The local player.
    Player1,
    /// The second player.
    Player2,
}

/// Key of a controller as the chart names it.
#[derive(Debug, Clone, Copy, PartialEq, Eq, Structural, Hash)]
pub enum Key {
    /// A numbered key.
    Key(u8),
    /// A turntable.
    Scratch(u8),
    /// The pedal.
    FootPedal,
    /// The free scratch zone.
    FreeZone,
}

/// Layer of the background animation as the chart names it.
#[derive(Debug, Clone, Copy, PartialEq, Eq, Structural, Hash)]
pub enum ChartBgaLayer {
    /// The lowest layer.
    Base,
    /// Shown after a miss.
    Poor,
    /// First overlay.
    Overlay,
    /// Second overlay.
    Overlay2,
}

/// What a chart event asks for.
#[derive(Debug, Clone, Copy, PartialEq, Eq, Structural)]
pub enum ChartEvent {
    /// A note reaches the judgment line.
    Note {
        /// Whose note it is.
        side: PlayerSide,
        /// The key it is played with.
        key: Key,
        /// Sound of the note, if it has one.
        wav_id: Option<usize>,
    },
    /// Background music starts.
    Bgm {
        /// Sound to play, if any.
        wav_id: Option<usize>,
    },
    /// A layer of the background animation changes.
    BgaChange {
        /// The layer.
        layer: ChartBgaLayer,
        /// Image or video to show, if any.
        bmp_id: Option<usize>,
    },
    /// An event that the game does not act on.
    Other,
}

/// A chart event with its identity.
#[derive(Debug, Clone, Copy, PartialEq, Eq, Structural)]
pub struct PlayheadEvent {
    /// Identity of the event within its chart.
    pub id: usize,
    /// What it asks for.
    pub event: ChartEvent,
}

/// A note inside the visible window, with how far it still has to go.
#[derive(Debug, Clone, Copy, PartialEq, Eq, Structural)]
pub struct VisibleNote {
    /// The event shown.
    pub event: PlayheadEvent,
    /// Distance from the judgment line as a share of the visible window, in
    /// units of `1 / RATIO_ONE`: 0 at the judgment line, `RATIO_ONE` where
    /// the note comes into view.
    pub ratio: i64,
}

/// Kind of file behind a background animation id.
#[derive(Clone, Copy, Debug, PartialEq, Eq, Structural)]
pub enum BgaFileType {
    /// A still image.
    Image,
    /// A video.
    Video,
}

/// Lane that a key plays, if it plays one.
pub open spec fn lane_of(key: Key) -> Option<usize> {
    match key {
        Key::Scratch(_) => Some(0usize),
        Key::Key(n) => if 1 <= n <= 7 {
            Some(n as usize)
        } else {
            None
        },
        _ => None,
    }
}

/// Maps a key to its lane: the turntable to lane 0, keys 1 to 7 to the lane
/// of the same number, every other key to none.
pub fn key_to_lane(key: Key) -> (lane: Option<usize>)
    ensures
        lane == lane_of(key),
        lane matches Some(l) ==> l < 8,
{
    match key {
        Key::Scratch(_) => Some(0),
        Key::Key(n) => if 1 <= n && n <= 7 {
            Some(n as usize)
        } else {
            None
        },
        _ => None,
    }
}

/// Render layer that a chart layer is drawn on.
pub open spec fn render_layer(layer: ChartBgaLayer) -> BgaLayer {
    match layer {
        ChartBgaLayer::Overlay => BgaLayer::Layer,
        ChartBgaLayer::Overlay2 => BgaLayer::Layer2,
        ChartBgaLayer::Poor => BgaLayer::Poor,
        ChartBgaLayer::Base => BgaLayer::Bga,
    }
}

/// Maps the chart's layer to the renderer's.
pub fn map_layer(layer: ChartBgaLayer) -> (mapped: BgaLayer)
    ensures
        mapped == render_layer(layer),
{
    match layer {
        ChartBgaLayer::Overlay => BgaLayer::Layer,
        ChartBgaLayer::Overlay2 => BgaLayer::Layer2,
        ChartBgaLayer::Poor => BgaLayer::Poor,
        ChartBgaLayer::Base => BgaLayer::Bga,
    }
}

/// The chart processor as the game uses it: a playhead over a chart that is
/// advanced to a time and asked for what has come due and what is in view.
pub trait ChartSource {
    /// Starts playback at `now`, in nanoseconds on the caller's clock.
    fn start_play(&mut self, now: u64);

    /// Advances the playhead to `now` and gives the events that came due.
    fn update(&mut self, now: u64) -> Vec<PlayheadEvent>;

    /// The notes inside the visible window.
    fn visible_events(&mut self) -> Vec<VisibleNote>;

    /// When playback started, if it has.
    fn started_at(&self) -> Option<u64>;
}

/// A call made on a chart in play, with what the chart gave.
pub enum ChartCall {
    /// `start_play` at a time.
    Start {
        /// The time handed in.
        now: u64,
    },
    /// `update` to a time.
    Update {
        /// The time handed in.
        now: u64,
        /// The events that came due.
        events: Seq<PlayheadEvent>,
    },
    /// `visible_events`.
    Visible {
        /// The notes in view.
        notes: Seq<VisibleNote>,
    },
    /// `started_at`.
    StartedAt {
        /// When playback started, if it has.
        at: Option<u64>,
    },
}

/// Whether `after` is `before` with `n` more calls at its end.
pub open spec fn grew_by(before: Seq<ChartCall>, after: Seq<ChartCall>, n: nat) -> bool {
    &&& after.len() == before.len() + n
    &&& after.take(before.len() as int) == before
}

/// A chart in play together with the record of every call made on it.
pub struct PlayedChart {
    /// The chart.
    source: Box<dyn ChartSource>,
    /// Every call made, in order.
    calls: Ghost<Seq<ChartCall>>,
}

impl PlayedChart {
    /// Every call made on the chart, in order, with what it gave.
    pub closed spec fn calls(&self) -> Seq<ChartCall> {
        self.calls@
    }

    /// A chart on which no call was made yet.
    pub fn new(source: Box<dyn ChartSource>) -> (chart: Self)
        ensures
            chart.calls() == Seq::<ChartCall>::empty(),
    {
        PlayedChart { source, calls: Ghost(Seq::empty()) }
    }

    /// Starts playback at `now`.
    pub fn start_play(&mut self, now: u64)
        ensures
            final(self).calls() == old(self).calls().push(ChartCall::Start { now }),
    {
        self.source.start_play(now);
        proof {
            self.calls@ = self.calls@.push(ChartCall::Start { now });
        }
    }

    /// Advances the playhead to `now` and gives the events that came due.
    pub fn update(&mut self, now: u64) -> (events: Vec<PlayheadEvent>)
        ensures
            final(self).calls() == old(self).calls().push(
                ChartCall::Update { now, events: events@ },
            ),
    {
        let events = self.source.update(now);
        proof {
            self.calls@ = self.calls@.push(ChartCall::Update { now, events: events@ });
        }
        events
    }

    /// The notes inside the visible window.
    pub fn visible_events(&mut self) -> (notes: Vec<VisibleNote>)
        ensures
            final(self).calls() == old(self).calls().push(ChartCall::Visible { notes: notes@ }),
    {
        let notes = self.source.visible_events();
        proof {
            self.calls@ = self.calls@.push(ChartCall::Visible { notes: notes@ });
        }
        notes
    }

    /// When playback started, if it has.
    pub fn started_at(&mut self) -> (at: Option<u64>)
        ensures
            final(self).calls() == old(self).calls().push(ChartCall::StartedAt { at }),
    {
        let at = self.source.started_at();
        proof {
            self.calls@ = self.calls@.push(ChartCall::StartedAt { at });
        }
        at
    }
}

/// Whether an extension is that of a video file, ignoring ASCII case.
pub open spec fn is_video_ext(ext: Seq<char>) -> bool {
    ||| same_ignoring_case(ext, "mp4"@)
    ||| same_ignoring_case(ext, "avi"@)
    ||| same_ignoring_case(ext, "mpeg"@)
    ||| same_ignoring_case(ext, "webm"@)
    ||| same_ignoring_case(ext, "mkv"@)
    ||| same_ignoring_case(ext, "wmv"@)
}

/// Kind of a file with the given extension; a file without one is an image.
pub open spec fn file_type_of(ext: Option<Seq<char>>) -> BgaFileType {
    match ext {
        Some(e) => if is_video_ext(e) {
            BgaFileType::Video
        } else {
            BgaFileType::Image
        },
        None => BgaFileType::Image,
    }
}

/// Tells an image from a video by the extension of the file.
pub fn bga_file_type(ext: Option<&str>) -> (kind: BgaFileType)
    ensures
        kind == file_type_of(
            match ext {
                Some(e) => Some(e@),
                None => None,
            },
        ),
{
    match ext {
        Some(e) => {
            if eq_ignore_ascii_case(e, "mp4") || eq_ignore_ascii_case(e, "avi")
                || eq_ignore_ascii_case(e, "mpeg") || eq_ignore_ascii_case(e, "webm")
                || eq_ignore_ascii_case(e, "mkv") || eq_ignore_ascii_case(e, "wmv") {
                BgaFileType::Video
            } else {
                BgaFileType::Image
            }
        },
        None => BgaFileType::Image,
    }
}

/// Picks the file of an asset: the file that the directory holds for the
/// asset's stem where there is one, and the path as the chart names it
/// otherwise.
pub fn resolve_asset(index: &StemIndex, stem: Option<&String>, named: String) -> (path: String)
    ensures
        match stem {
            Some(s) => if has_stem(index@, s@) {
                exists|i: int| #[trigger] is_first(index@, s@, i) && index@[i].1 == path
            } else {
                path == named
            },
            None => path == named,
        },
{
    match stem {
        Some(s) => match index.get(s) {
            Some(found) => found,
            None => named,
        },
        None => named,
    }
}

} // verus!
