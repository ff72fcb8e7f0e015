//! The game page: judges input against the chart in play and turns chart
//! events into messages for the audio and render threads.

use vstd::prelude::*;
use vstd::std_specs::hash::*;
use vstd::std_specs::iter::IteratorSpec;
use std::collections::HashMap;
use crate::chart::{
    grew_by, map_layer, render_layer, BgaFileType, ChartCall, ChartEvent, ChartSource, PlayedChart,
    PlayheadEvent, VisibleNote,
};
use crate::judge::{
    after_key_down, judge_key_down, key_down_effect, key_up, with_key, GameState, JudgeParams,
    GAUGE_START,
};
use crate::loops::audio::Msg;
use crate::loops::visual::{
    base_frame, base_instances, build_instances_for_processor_with_state, frame,
};
use crate::loops::{Effect, InputMsg, Instance, VisualMsg};
use crate::pages::{Page, PageBuilder, PageContext, PageError, PageId, PageTransition};

verus! {

/// The message that a chart event calls for, if it calls for one.
///
/// Background music plays its sound where the sound has a known file. A
/// change of the background animation shows the image, or plays the video
/// once, on the render layer that stands for the chart's layer, where the
/// image has a known file. Every other event calls for nothing.
pub open spec fn event_effect(
    event: PlayheadEvent,
    audio_paths: Map<usize, String>,
    bmp_paths: Map<usize, String>,
    bmp_types: Map<usize, BgaFileType>,
) -> Option<Effect> {
    match event.event {
        ChartEvent::BgaChange { layer, bmp_id: Some(id) } => if bmp_paths.contains_key(id) {
            if bmp_types.contains_key(id) && bmp_types[id] == BgaFileType::Video {
                Some(
                    Effect::Visual(
                        VisualMsg::VideoPlay {
                            layer: render_layer(layer),
                            path: bmp_paths[id],
                            loop_play: false,
                        },
                    ),
                )
            } else {
                Some(
                    Effect::Visual(
                        VisualMsg::BgaChange { layer: render_layer(layer), path: bmp_paths[id] },
                    ),
                )
            }
        } else {
            None
        },
        ChartEvent::Bgm { wav_id: Some(id) } => if audio_paths.contains_key(id) {
            Some(Effect::Audio(Msg::Play(audio_paths[id])))
        } else {
            None
        },
        _ => None,
    }
}

/// The messages that a batch of chart events calls for, in the order of the
/// events.
pub open spec fn routed(
    events: Seq<PlayheadEvent>,
    audio_paths: Map<usize, String>,
    bmp_paths: Map<usize, String>,
    bmp_types: Map<usize, BgaFileType>,
) -> Seq<Effect>
    decreases events.len(),
{
    if events.len() == 0 {
        Seq::empty()
    } else {
        let before = routed(events.drop_last(), audio_paths, bmp_paths, bmp_types);
        match event_effect(events.last(), audio_paths, bmp_paths, bmp_types) {
            Some(effect) => before.push(effect),
            None => before,
        }
    }
}

/// Finds the message that a chart event calls for.
pub fn route_event(
    event: &PlayheadEvent,
    audio_paths: &HashMap<usize, String>,
    bmp_paths: &HashMap<usize, String>,
    bmp_types: &HashMap<usize, BgaFileType>,
) -> (effect: Option<Effect>)
    ensures
        effect == event_effect(*event, audio_paths@, bmp_paths@, bmp_types@),
{
    match event.event {
        ChartEvent::BgaChange { layer, bmp_id: Some(id) } => {
            match bmp_paths.get(&id) {
                Some(path) => {
                    let mapped = map_layer(layer);
                    let is_video = match bmp_types.get(&id) {
                        Some(kind) => match kind {
                            BgaFileType::Video => true,
                            BgaFileType::Image => false,
                        },
                        None => false,
                    };
                    if is_video {
                        Some(
                            Effect::Visual(
                                VisualMsg::VideoPlay {
                                    layer: mapped,
                                    path: path.clone(),
                                    loop_play: false,
                                },
                            ),
                        )
                    } else {
                        Some(
                            Effect::Visual(VisualMsg::BgaChange { layer: mapped, path: path.clone() }),
                        )
                    }
                },
                None => None,
            }
        },
        ChartEvent::Bgm { wav_id: Some(id) } => {
            match audio_paths.get(&id) {
                Some(path) => Some(Effect::Audio(Msg::Play(path.clone()))),
                None => None,
            }
        },
        _ => None,
    }
}

/// Turns the chart events of one tick into messages, in event order, and
/// appends them to `out`.
pub fn route_events(
    events: &Vec<PlayheadEvent>,
    audio_paths: &HashMap<usize, String>,
    bmp_paths: &HashMap<usize, String>,
    bmp_types: &HashMap<usize, BgaFileType>,
    out: &mut Vec<Effect>,
)
    ensures
        final(out)@ == old(out)@ + routed(events@, audio_paths@, bmp_paths@, bmp_types@),
{
    let mut i: usize = 0;
    while i < events.len()
        invariant
            i <= events.len(),
            out@ == old(out)@ + routed(events@.take(i as int), audio_paths@, bmp_paths@, bmp_types@),
        decreases events.len() - i,
    {
        assert(events@.take(i + 1).drop_last() =~= events@.take(i as int));
        assert(events@.take(i + 1).last() == events@[i as int]);
        match route_event(&events[i], audio_paths, bmp_paths, bmp_types) {
            Some(effect) => {
                out.push(effect);
            },
            None => {},
        }
        assert(out@ =~= old(out)@ + routed(
            events@.take(i + 1),
            audio_paths@,
            bmp_paths@,
            bmp_types@,
        ));
        i += 1;
    }
    assert(events@.take(i as int) =~= events@);
}

/// Lists the files of an asset table. The order is that in which the table
/// hands them out.
pub fn asset_files(paths: &HashMap<usize, String>) -> (files: Vec<String>)
    ensures
        files@.len() == paths@.dom().len(),
        files@.to_set() == paths@.values(),
{
    let mut files: Vec<String> = Vec::new();
    let ghost all = spec_values_iter(paths).remaining().unref();
    proof {
        axiom_spec_values_iter(paths);
    }
    for path in it: paths.values()
        invariant
            files@.len() == it.index(),
            it.seq().unref() == all,
            forall|j: int| 0 <= j < files@.len() ==> files@[j] == *it.seq()[j],
    {
        files.push(path.clone());
    }
    assert(files@ =~= all);
    files
}

/// The page on which a chart is played.
pub struct GamePage {
    /// The chart in play, if one is loaded.
    processor: Option<PlayedChart>,
    /// File of each sound.
    audio_paths: HashMap<usize, String>,
    /// File of each image or video.
    bmp_paths: HashMap<usize, String>,
    /// Kind of each image or video file.
    bmp_types: HashMap<usize, BgaFileType>,
    /// Timing configuration.
    judge: JudgeParams,
    /// Held keys, gauge and combo.
    state: GameState,
}

impl GamePage {
    /// A game page for a chart, with a fresh game state.
    pub fn new(
        processor: Box<dyn ChartSource>,
        audio_paths: HashMap<usize, String>,
        bmp_paths: HashMap<usize, String>,
        bmp_types: HashMap<usize, BgaFileType>,
        judge: JudgeParams,
    ) -> (page: Self)
        ensures
            page.has_chart(),
            page.chart_calls() == Seq::<ChartCall>::empty(),
            page.audio_paths() == audio_paths@,
            page.bmp_paths() == bmp_paths@,
            page.bmp_types() == bmp_types@,
            page.state().gauge == GAUGE_START,
            page.state().combo == 0,
            forall|i: int| 0 <= i < 8 ==> !page.state().pressed[i],
            page.judge() == judge,
    {
        GamePage {
            processor: Some(PlayedChart::new(processor)),
            audio_paths,
            bmp_paths,
            bmp_types,
            judge,
            state: GameState::new(),
        }
    }

    /// Held keys, gauge and combo.
    pub closed spec fn state(&self) -> GameState {
        self.state
    }

    /// Timing configuration.
    pub closed spec fn judge(&self) -> JudgeParams {
        self.judge
    }

    /// Whether a chart is loaded.
    pub closed spec fn has_chart(&self) -> bool {
        self.processor is Some
    }

    /// File of each sound.
    pub closed spec fn audio_paths(&self) -> Map<usize, String> {
        self.audio_paths@
    }

    /// File of each image or video.
    pub closed spec fn bmp_paths(&self) -> Map<usize, String> {
        self.bmp_paths@
    }

    /// Kind of each image or video file.
    pub closed spec fn bmp_types(&self) -> Map<usize, BgaFileType> {
        self.bmp_types@
    }

    /// Every call that the page has made on its chart, in order, with what
    /// the chart gave; none where no chart is loaded.
    pub closed spec fn chart_calls(&self) -> Seq<ChartCall> {
        match self.processor {
            Some(chart) => chart.calls(),
            None => Seq::empty(),
        }
    }

    /// Whether `other` is this page with nothing changed but the state of
    /// the game and the chart's playhead.
    pub open spec fn same_setup(&self, other: &GamePage) -> bool {
        &&& other.has_chart() == self.has_chart()
        &&& other.judge() == self.judge()
        &&& other.audio_paths() == self.audio_paths()
        &&& other.bmp_paths() == self.bmp_paths()
        &&& other.bmp_types() == self.bmp_types()
    }

    /// Held keys, gauge and combo.
    pub fn game_state(&self) -> (state: GameState)
        ensures
            state == self.state(),
    {
        self.state
    }
}

impl Page for GamePage {
    open spec fn identity(&self) -> PageId {
        PageId::Game
    }

    fn id(&self) -> (id: PageId)
        ensures
            id == PageId::Game,
    {
        PageId::Game
    }

    /// Asks for every image and every sound of the chart to be decoded ahead
    /// of playback.
    fn on_init(&mut self, ctx: &mut PageContext) -> (r: Result<(), PageError>)
        ensures
            r is Ok,
            old(self).same_setup(final(self)),
            final(self).state() == old(self).state(),
            final(ctx).outbox@.len() == old(ctx).outbox@.len() + 2,
            final(ctx).outbox@.take(old(ctx).outbox@.len() as int) == old(ctx).outbox@,
            final(ctx).outbox@[old(ctx).outbox@.len() as int] matches Effect::PreloadBga { files }
                && files@.to_set() == old(self).bmp_paths().values() && files@.len() == old(self).bmp_paths().dom().len(),
            final(ctx).outbox@[old(ctx).outbox@.len() as int + 1] matches Effect::Audio(
                Msg::PreloadAll { files },
            ) && files@.to_set() == old(self).audio_paths().values() && files@.len() == old(self).audio_paths().dom().len(),
            final(self).chart_calls() == old(self).chart_calls(),
            final(ctx).now == old(ctx).now,
            final(ctx).window_size == old(ctx).window_size,
    {
        ctx.outbox.push(Effect::PreloadBga { files: asset_files(&self.bmp_paths) });
        ctx.outbox.push(Effect::Audio(Msg::PreloadAll { files: asset_files(&self.audio_paths) }));
        Ok(())
    }

    /// Starts playback of the chart at the time of the call.
    fn on_enter(&mut self, ctx: &mut PageContext) -> (r: Result<(), PageError>)
        ensures
            r is Ok,
            old(self).same_setup(final(self)),
            final(self).state() == old(self).state(),
            *final(ctx) == *old(ctx),
            final(self).chart_calls() == if old(self).has_chart() {
                old(self).chart_calls().push(ChartCall::Start { now: old(ctx).now })
            } else {
                old(self).chart_calls()
            },
    {
        match self.processor.take() {
            Some(mut chart) => {
                chart.start_play(ctx.now);
                self.processor = Some(chart);
            },
            None => {},
        }
        Ok(())
    }

    /// Judges a key press against the visible notes, and records a release.
    /// Lane input is handled as long as a chart is loaded.
    fn on_input(&mut self, msg: &InputMsg, ctx: &mut PageContext) -> (r: Result<bool, PageError>)
        ensures
            old(self).same_setup(final(self)),
            final(ctx).now == old(ctx).now,
            final(ctx).window_size == old(ctx).window_size,
            !old(self).has_chart() ==> {
                &&& r == Ok::<bool, PageError>(false)
                &&& final(self).state() == old(self).state()
                &&& final(self).chart_calls() == old(self).chart_calls()
                &&& final(ctx).outbox@ == old(ctx).outbox@
            },
            old(self).has_chart() ==> match *msg {
                InputMsg::KeyDown(lane) => {
                    &&& r == Ok::<bool, PageError>(true)
                    &&& grew_by(old(self).chart_calls(), final(self).chart_calls(), 1)
                    &&& match final(self).chart_calls().last() {
                        ChartCall::Visible { notes } => {
                            &&& final(self).state()@ == after_key_down(
                                old(self).state()@,
                                old(self).judge(),
                                notes,
                                lane,
                            )
                            &&& final(ctx).outbox@ == match key_down_effect(
                                old(self).judge(),
                                notes,
                                old(self).audio_paths(),
                                lane,
                            ) {
                                Some(effect) => old(ctx).outbox@.push(effect),
                                None => old(ctx).outbox@,
                            }
                        },
                        _ => false,
                    }
                },
                InputMsg::KeyUp(lane) => {
                    &&& r == Ok::<bool, PageError>(true)
                    &&& final(self).state()@ == with_key(old(self).state()@, lane, false)
                    &&& final(self).chart_calls() == old(self).chart_calls()
                    &&& final(ctx).outbox@ == old(ctx).outbox@
                },
                InputMsg::SystemKey(_) => {
                    &&& r == Ok::<bool, PageError>(false)
                    &&& final(self).state() == old(self).state()
                    &&& final(self).chart_calls() == old(self).chart_calls()
                    &&& final(ctx).outbox@ == old(ctx).outbox@
                },
            },
    {
        let mut chart = match self.processor.take() {
            Some(chart) => chart,
            None => {
                return Ok(false);
            },
        };
        let handled = match msg {
            InputMsg::KeyDown(lane) => {
                let notes = chart.visible_events();
                let outcome = judge_key_down(
                    &mut self.state,
                    &self.judge,
                    &notes,
                    &self.audio_paths,
                    *lane,
                );
                match outcome.effect {
                    Some(effect) => {
                        ctx.outbox.push(effect);
                    },
                    None => {},
                }
                assert(self.state@ == after_key_down(old(self).state()@, self.judge, notes@, *lane));
                assert(chart.calls().take(old(self).chart_calls().len() as int) =~= old(self).chart_calls());
                true
            },
            InputMsg::KeyUp(lane) => {
                key_up(&mut self.state, *lane);
                true
            },
            InputMsg::SystemKey(_) => false,
        };
        self.processor = Some(chart);
        Ok(handled)
    }

    /// Advances the chart to now and sends what its events call for.
    fn on_update(&mut self, dt: u64, ctx: &mut PageContext) -> (r: Result<
        PageTransition,
        PageError,
    >)
        ensures
            r == Ok::<PageTransition, PageError>(PageTransition::Stay),
            old(self).same_setup(final(self)),
            final(self).state() == old(self).state(),
            final(ctx).now == old(ctx).now,
            final(ctx).window_size == old(ctx).window_size,
            !old(self).has_chart() ==> final(self).chart_calls() == old(self).chart_calls() && final(ctx).outbox@ == old(ctx).outbox@,
            old(self).has_chart() ==> {
                &&& grew_by(old(self).chart_calls(), final(self).chart_calls(), 1)
                &&& match final(self).chart_calls().last() {
                    ChartCall::Update { now, events } => {
                        &&& now == old(ctx).now
                        &&& final(ctx).outbox@ == old(ctx).outbox@ + routed(
                            events,
                            old(self).audio_paths(),
                            old(self).bmp_paths(),
                            old(self).bmp_types(),
                        )
                    },
                    _ => false,
                }
            },
    {
        match self.processor.take() {
            Some(mut chart) => {
                let events = chart.update(ctx.now);
                self.processor = Some(chart);
                assert(self.chart_calls().take(old(self).chart_calls().len() as int) =~= old(self).chart_calls());
                route_events(
                    &events,
                    &self.audio_paths,
                    &self.bmp_paths,
                    &self.bmp_types,
                    &mut ctx.outbox,
                );
            },
            None => {},
        }
        Ok(PageTransition::Stay)
    }

    /// The play field with the visible notes, the held keys and the gauge;
    /// the bare play field where no chart is loaded.
    fn on_render(&mut self, ctx: &mut PageContext) -> (instances: Vec<Instance>)
        ensures
            old(self).same_setup(final(self)),
            final(self).state() == old(self).state(),
            *final(ctx) == *old(ctx),
            !old(self).has_chart() ==> instances@ == base_frame() && final(self).chart_calls()
                == old(self).chart_calls(),
            old(self).has_chart() ==> {
                let asked = old(self).chart_calls().len() as int;
                &&& grew_by(old(self).chart_calls(), final(self).chart_calls(), 2)
                &&& match (final(self).chart_calls()[asked], final(self).chart_calls()[asked + 1]) {
                    (ChartCall::StartedAt { at }, ChartCall::Visible { notes }) => instances@
                        == frame(
                        notes,
                        at is Some,
                        old(self).state().pressed@,
                        old(self).state().gauge as int,
                    ),
                    _ => false,
                }
            },
    {
        match self.processor.take() {
            Some(mut chart) => {
                let instances = build_instances_for_processor_with_state(
                    &mut chart,
                    self.state.pressed,
                    self.state.gauge,
                );
                self.processor = Some(chart);
                assert(self.chart_calls().take(old(self).chart_calls().len() as int) =~= old(self).chart_calls());
                instances
            },
            None => base_instances(),
        }
    }
}

/// Holds what a game page is made of until the page is built. A chart in
/// play cannot be copied, so the builder builds one page and no more.
pub struct GamePageBuilder {
    /// The chart to play.
    processor: Box<dyn ChartSource>,
    /// File of each sound.
    audio_paths: HashMap<usize, String>,
    /// File of each image or video.
    bmp_paths: HashMap<usize, String>,
    /// Kind of each image or video file.
    bmp_types: HashMap<usize, BgaFileType>,
    /// Timing configuration.
    judge: JudgeParams,
}

impl GamePageBuilder {
    /// Timing configuration of the page to build.
    pub closed spec fn judge(&self) -> JudgeParams {
        self.judge
    }

    /// File of each sound of the page to build.
    pub closed spec fn audio_paths(&self) -> Map<usize, String> {
        self.audio_paths@
    }

    /// File of each image or video of the page to build.
    pub closed spec fn bmp_paths(&self) -> Map<usize, String> {
        self.bmp_paths@
    }

    /// Kind of each image or video file of the page to build.
    pub closed spec fn bmp_types(&self) -> Map<usize, BgaFileType> {
        self.bmp_types@
    }

    /// A builder for the game page of a chart: it holds the chart, the
    /// asset tables and the timing configuration as they are handed in.
    pub fn new(
        processor: Box<dyn ChartSource>,
        audio_paths: HashMap<usize, String>,
        bmp_paths: HashMap<usize, String>,
        bmp_types: HashMap<usize, BgaFileType>,
        judge: JudgeParams,
    ) -> (builder: Self)
        ensures
            builder.judge() == judge,
            builder.audio_paths() == audio_paths@,
            builder.bmp_paths() == bmp_paths@,
            builder.bmp_types() == bmp_types@,
    {
        GamePageBuilder { processor, audio_paths, bmp_paths, bmp_types, judge }
    }

    /// Builds the one page that the builder is for: a game page.
    pub fn build_once(self) -> (page: Box<dyn Page>)
        ensures
            page.identity() == PageId::Game,
    {
        return Box::new(
            GamePage::new(
                self.processor,
                self.audio_paths,
                self.bmp_paths,
                self.bmp_types,
                self.judge,
            ),
        );
    }
}

impl PageBuilder for GamePageBuilder {
    open spec fn builds(&self) -> PageId {
        PageId::Game
    }

    /// Always fails: the chart cannot be handed to more than one page. Use
    /// `build_once`.
    fn build(&self) -> (built: Result<Box<dyn Page>, PageError>)
        ensures
            match built {
                Err(PageError::Failed(_)) => true,
                _ => false,
            },
    {
        Err(PageError::Failed("a game page is built once, with build_once".to_string()))
    }

    fn page_id(&self) -> (id: PageId)
        ensures
            id == PageId::Game,
    {
        PageId::Game
    }
}

} // verus!
