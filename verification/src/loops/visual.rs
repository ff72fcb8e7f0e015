//! The rectangles of a frame of the play field.
//!
//! Lengths are in thousandths of a pixel, the origin is the centre of the
//! window.

use vstd::prelude::*;
use crate::chart::{
    grew_by, key_to_lane, lane_of, ChartCall, ChartEvent, PlayedChart, PlayerSide, VisibleNote,
    RATIO_ONE,
};
use crate::loops::Instance;

verus! {

/// Height of the visible window.
pub const VISIBLE_HEIGHT: i64 = 600_000;

/// Gap between the lanes and the panel to their right.
pub const RIGHT_PANEL_GAP: i64 = 16_000;

/// Number of lanes.
pub const LANE_COUNT: usize = 8;

/// Width of a lane.
pub const LANE_WIDTH: i64 = 60_000;

/// Gap between two lanes.
pub const LANE_GAP: i64 = 8_000;

/// Height of a note.
pub const NOTE_HEIGHT: i64 = 12_000;

/// Width of all lanes with the gaps between them.
pub const TOTAL_WIDTH: i64 = 536_000;

/// Horizontal centre of the lanes.
pub const FIELD_CENTRE: i64 = -308_000;

/// Horizontal centre of a lane.
pub open spec fn lane_centre(lane: int) -> int {
    -(TOTAL_WIDTH as int) / 2 + LANE_WIDTH / 2 + lane * (LANE_WIDTH + LANE_GAP) + FIELD_CENTRE
}

/// The rectangle with the given centre, size and colour.
pub open spec fn rectangle(x: int, y: int, width: int, height: int, color: Seq<u8>) -> Instance {
    Instance {
        pos: [x as i64, y as i64],
        size: [width as i64, height as i64],
        color: [color[0], color[1], color[2], color[3]],
    }
}

/// Colour of the notes of a lane: red on the turntable, then white and blue
/// in turn.
pub open spec fn lane_colour(lane: int) -> Seq<u8> {
    if lane % 8 == 0 {
        seq![100u8, 0u8, 0u8, 100u8]
    } else if lane % 2 == 0 {
        seq![20u8, 60u8, 100u8, 100u8]
    } else {
        seq![100u8, 100u8, 100u8, 100u8]
    }
}

/// Background of a lane.
pub open spec fn lane_background(lane: int) -> Instance {
    rectangle(
        lane_centre(lane),
        0,
        LANE_WIDTH as int,
        VISIBLE_HEIGHT as int,
        seq![15u8, 15u8, 18u8, 100u8],
    )
}

/// The judgment line at the lower edge of the visible window.
pub open spec fn judgment_line() -> Instance {
    rectangle(
        FIELD_CENTRE as int,
        -(VISIBLE_HEIGHT as int) / 2 + 2_000,
        TOTAL_WIDTH as int,
        4_000,
        seq![90u8, 90u8, 90u8, 100u8],
    )
}

/// The bare play field: the eight lanes, then the judgment line.
pub open spec fn base_frame() -> Seq<Instance> {
    Seq::new(LANE_COUNT as nat, |lane: int| lane_background(lane)).push(judgment_line())
}

/// A ratio held to the range from 0 to 1.
pub open spec fn clamped_ratio(ratio: int) -> int {
    if ratio < 0 {
        0
    } else if ratio > RATIO_ONE {
        RATIO_ONE as int
    } else {
        ratio
    }
}

/// The rectangle of a note on `lane` at `ratio`: the judgment line is at
/// ratio 0, the upper edge of the window at ratio 1.
pub open spec fn note_rectangle(lane: int, ratio: int) -> Instance {
    rectangle(
        lane_centre(lane),
        -(VISIBLE_HEIGHT as int) / 2 + (clamped_ratio(ratio) * VISIBLE_HEIGHT) / (RATIO_ONE as int),
        LANE_WIDTH - 4_000,
        NOTE_HEIGHT as int,
        lane_colour(lane),
    )
}

/// The rectangle of a visible note, if it is drawn: a note of the local
/// player on a key that plays a lane.
pub open spec fn shown_note(note: VisibleNote) -> Option<Instance> {
    match note.event.event {
        ChartEvent::Note { side: PlayerSide::Player1, key, .. } => match lane_of(key) {
            Some(lane) => Some(note_rectangle(lane as int, note.ratio as int)),
            None => None,
        },
        _ => None,
    }
}

/// The rectangles of the visible notes, in the order of the notes.
pub open spec fn note_frame(notes: Seq<VisibleNote>) -> Seq<Instance>
    decreases notes.len(),
{
    if notes.len() == 0 {
        Seq::empty()
    } else {
        match shown_note(notes.last()) {
            Some(instance) => note_frame(notes.drop_last()).push(instance),
            None => note_frame(notes.drop_last()),
        }
    }
}

/// The highlight of a held key.
pub open spec fn press_highlight(lane: int) -> Instance {
    rectangle(
        lane_centre(lane),
        -(VISIBLE_HEIGHT as int) / 2 + 24_000,
        LANE_WIDTH - 8_000,
        24_000,
        seq![100u8, 100u8, 100u8, 25u8],
    )
}

/// The highlights of the held keys among the first `lanes` lanes, by lane.
pub open spec fn press_frame(pressed: Seq<bool>, lanes: int) -> Seq<Instance>
    decreases lanes,
{
    if lanes <= 0 {
        Seq::empty()
    } else if pressed[lanes - 1] {
        press_frame(pressed, lanes - 1).push(press_highlight(lanes - 1))
    } else {
        press_frame(pressed, lanes - 1)
    }
}

/// Height at which the gauge is drawn.
pub open spec fn gauge_height() -> int {
    VISIBLE_HEIGHT / 2 - 20_000
}

/// The bar behind the gauge.
pub open spec fn gauge_bar() -> Instance {
    rectangle(
        FIELD_CENTRE as int,
        gauge_height(),
        TOTAL_WIDTH as int,
        8_000,
        seq![30u8, 30u8, 35u8, 100u8],
    )
}

/// The filled part of the gauge, for a gauge in thousandths: as wide as the
/// gauge's share of the bar, and flush with the bar's left end.
pub open spec fn gauge_fill(gauge: int) -> Instance {
    rectangle(
        FIELD_CENTRE - TOTAL_WIDTH / 2 + (TOTAL_WIDTH / 1000 * gauge) / 2,
        gauge_height(),
        TOTAL_WIDTH / 1000 * gauge,
        8_000,
        seq![20u8, 80u8, 40u8, 100u8],
    )
}

/// A frame of the play field: the bare field, the visible notes once
/// playback has started, the highlights of the held keys, the gauge's bar
/// and its fill.
pub open spec fn frame(notes: Seq<VisibleNote>, started: bool, pressed: Seq<bool>, gauge: int)
    -> Seq<Instance> {
    base_frame() + (if started {
        note_frame(notes)
    } else {
        Seq::empty()
    }) + press_frame(pressed, LANE_COUNT as int) + seq![gauge_bar(), gauge_fill(gauge)]
}

/// Width of all lanes with the gaps between them.
pub fn total_width() -> (width: i64)
    ensures
        width == TOTAL_WIDTH,
        width == LANE_COUNT * LANE_WIDTH + (LANE_COUNT - 1) * LANE_GAP,
{
    TOTAL_WIDTH
}

/// Horizontal centre of a lane.
pub fn lane_x(lane: usize) -> (x: i64)
    requires
        lane < LANE_COUNT,
    ensures
        x == lane_centre(lane as int),
{
    -TOTAL_WIDTH / 2 + LANE_WIDTH / 2 + (lane as i64) * (LANE_WIDTH + LANE_GAP) + FIELD_CENTRE
}

/// Colour of the notes of a lane.
pub fn lane_color(lane: usize) -> (color: [u8; 4])
    ensures
        color@ == lane_colour(lane as int),
{
    let color: [u8; 4] = if lane % 8 == 0 {
        [100, 0, 0, 100]
    } else if lane % 2 == 0 {
        [20, 60, 100, 100]
    } else {
        [100, 100, 100, 100]
    };
    assert(color@ =~= lane_colour(lane as int));
    color
}

/// Makes a rectangle.
fn make_rectangle(x: i64, y: i64, width: i64, height: i64, color: [u8; 4]) -> (instance: Instance)
    ensures
        instance == rectangle(x as int, y as int, width as int, height as int, color@),
{
    Instance { pos: [x, y], size: [width, height], color: [color[0], color[1], color[2], color[3]] }
}

/// The bare play field: the eight lanes, then the judgment line.
pub fn base_instances() -> (instances: Vec<Instance>)
    ensures
        instances@ == base_frame(),
{
    let mut instances: Vec<Instance> = Vec::new();
    let mut lane: usize = 0;
    while lane < LANE_COUNT
        invariant
            lane <= LANE_COUNT,
            instances@.len() == lane,
            forall|i: int| 0 <= i < lane ==> instances@[i] == lane_background(i),
        decreases LANE_COUNT - lane,
    {
        instances.push(make_rectangle(lane_x(lane), 0, LANE_WIDTH, VISIBLE_HEIGHT, [15, 15, 18, 100]));
        lane += 1;
    }
    instances.push(
        make_rectangle(FIELD_CENTRE, -VISIBLE_HEIGHT / 2 + 2_000, TOTAL_WIDTH, 4_000, [90, 90, 90, 100]),
    );
    assert(instances@ =~= base_frame());
    instances
}

/// The rectangle of a visible note, if it is drawn.
pub fn note_instance(note: &VisibleNote) -> (instance: Option<Instance>)
    ensures
        instance == shown_note(*note),
{
    match note.event.event {
        ChartEvent::Note { side: PlayerSide::Player1, key, .. } => {
            match key_to_lane(key) {
                Some(lane) => {
                    let ratio: i64 = if note.ratio < 0 {
                        0
                    } else if note.ratio > RATIO_ONE {
                        RATIO_ONE
                    } else {
                        note.ratio
                    };
                    let y: i64 = -VISIBLE_HEIGHT / 2 + (ratio * VISIBLE_HEIGHT) / RATIO_ONE;
                    Some(
                        make_rectangle(
                            lane_x(lane),
                            y,
                            LANE_WIDTH - 4_000,
                            NOTE_HEIGHT,
                            lane_color(lane),
                        ),
                    )
                },
                None => None,
            }
        },
        _ => None,
    }
}

/// Builds a frame of the play field from the visible notes, whether
/// playback has started, the held keys and the gauge in thousandths.
pub fn frame_instances(notes: &Vec<VisibleNote>, started: bool, pressed: [bool; 8], gauge: u32) -> (instances:
    Vec<Instance>)
    ensures
        instances@ == frame(notes@, started, pressed@, gauge as int),
{
    let mut instances = base_instances();
    let ghost base = instances@;
    if started {
        let mut i: usize = 0;
        while i < notes.len()
            invariant
                i <= notes.len(),
                instances@ == base + note_frame(notes@.take(i as int)),
            decreases notes.len() - i,
        {
            assert(notes@.take(i + 1).drop_last() =~= notes@.take(i as int));
            assert(notes@.take(i + 1).last() == notes@[i as int]);
            match note_instance(&notes[i]) {
                Some(instance) => {
                    instances.push(instance);
                },
                None => {},
            }
            assert(instances@ =~= base + note_frame(notes@.take(i + 1)));
            i += 1;
        }
        assert(notes@.take(i as int) =~= notes@);
    } else {
        assert(instances@ =~= base + Seq::<Instance>::empty());
    }
    let ghost with_notes = instances@;
    let mut lane: usize = 0;
    while lane < LANE_COUNT
        invariant
            lane <= LANE_COUNT,
            instances@ == with_notes + press_frame(pressed@, lane as int),
        decreases LANE_COUNT - lane,
    {
        if pressed[lane] {
            instances.push(
                make_rectangle(
                    lane_x(lane),
                    -VISIBLE_HEIGHT / 2 + 24_000,
                    LANE_WIDTH - 8_000,
                    24_000,
                    [100, 100, 100, 25],
                ),
            );
        }
        assert(instances@ =~= with_notes + press_frame(pressed@, lane + 1));
        lane += 1;
    }
    let gauge_y: i64 = VISIBLE_HEIGHT / 2 - 20_000;
    let fill: i64 = TOTAL_WIDTH / 1000 * (gauge as i64);
    instances.push(make_rectangle(FIELD_CENTRE, gauge_y, TOTAL_WIDTH, 8_000, [30, 30, 35, 100]));
    instances.push(
        make_rectangle(
            FIELD_CENTRE - TOTAL_WIDTH / 2 + fill / 2,
            gauge_y,
            fill,
            8_000,
            [20, 80, 40, 100],
        ),
    );
    assert(instances@ =~= frame(notes@, started, pressed@, gauge as int));
    instances
}

/// Builds a frame of the play field from what the chart in play shows and
/// the state of the game: the chart is asked whether playback has started,
/// then for the notes in view, and the frame shows those notes.
pub fn build_instances_for_processor_with_state(
    p: &mut PlayedChart,
    pressed: [bool; 8],
    gauge: u32,
) -> (instances: Vec<Instance>)
    ensures
        grew_by(old(p).calls(), final(p).calls(), 2),
        match (
            final(p).calls()[old(p).calls().len() as int],
            final(p).calls()[old(p).calls().len() as int + 1],
        ) {
            (ChartCall::StartedAt { at }, ChartCall::Visible { notes }) => instances@ == frame(
                notes,
                at is Some,
                pressed@,
                gauge as int,
            ),
            _ => false,
        },
{
    let started = p.started_at().is_some();
    let notes = p.visible_events();
    assert(p.calls().take(old(p).calls().len() as int) =~= old(p).calls());
    frame_instances(&notes, started, pressed, gauge)
}

/// Time for which the miss layer stays visible after a miss, in
/// nanoseconds.
pub const POOR_VISIBLE_FOR: u64 = 200_000_000;

/// Whether the miss layer is shown, and until when.
#[derive(Clone, Copy, Debug, PartialEq, Eq, Structural)]
pub struct PoorOverlay {
    /// Whether the layer is shown.
    pub visible: bool,
    /// When the layer is to be hidden again, if that is known.
    pub until: Option<u64>,
}

/// The overlay after a miss at `now`: shown, until `POOR_VISIBLE_FOR` later.
pub open spec fn triggered(now: u64) -> PoorOverlay {
    PoorOverlay {
        visible: true,
        until: if now + POOR_VISIBLE_FOR <= u64::MAX {
            Some((now + POOR_VISIBLE_FOR) as u64)
        } else {
            None
        },
    }
}

/// The overlay as a frame at `now` finds it: hidden once its time is up.
pub open spec fn refreshed(overlay: PoorOverlay, now: u64) -> PoorOverlay {
    match overlay.until {
        Some(until) => if now >= until {
            PoorOverlay { visible: false, until: None }
        } else {
            overlay
        },
        None => overlay,
    }
}

/// After a miss the layer is shown on every frame before `POOR_VISIBLE_FOR`
/// has passed and hidden on every frame from then on.
pub proof fn overlay_is_short_lived(miss: u64, frame: u64)
    requires
        miss + POOR_VISIBLE_FOR <= u64::MAX,
        miss <= frame,
    ensures
        refreshed(triggered(miss), frame).visible == (frame < miss + POOR_VISIBLE_FOR),
{
}

impl PoorOverlay {
    /// A hidden overlay.
    pub fn new() -> (overlay: Self)
        ensures
            overlay == (PoorOverlay { visible: false, until: None }),
    {
        PoorOverlay { visible: false, until: None }
    }

    /// Shows the layer after a miss at `now`.
    pub fn trigger(&mut self, now: u64)
        ensures
            *final(self) == triggered(now),
    {
        self.visible = true;
        self.until = now.checked_add(POOR_VISIBLE_FOR);
    }

    /// Hides the layer if its time is up at `now`, and tells whether the
    /// layer is shown.
    pub fn refresh(&mut self, now: u64) -> (visible: bool)
        ensures
            *final(self) == refreshed(*old(self), now),
            visible == final(self).visible,
    {
        match self.until {
            Some(until) => {
                if now >= until {
                    self.visible = false;
                    self.until = None;
                }
            },
            None => {},
        }
        self.visible
    }
}

} // verus!
