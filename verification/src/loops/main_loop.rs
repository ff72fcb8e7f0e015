//! The game loop's tick: input is drained and judged, then the chart is
//! advanced and its events are routed, then the frame is built.

use vstd::prelude::*;
use std::collections::HashMap;
use crate::chart::{
    grew_by, BgaFileType, ChartCall, ChartSource, PlayedChart, PlayheadEvent, VisibleNote,
};
use crate::game_page::{asset_files, route_events, routed};
use crate::judge::{
    after_key_down, judge_key_down, key_down_effect, key_up, with_key, GameState, JudgeParams,
    StateView, GAUGE_START,
};
use crate::loops::audio::Msg;
use crate::loops::key_map::{converted, KeyMap};
use crate::loops::visual::{base_frame, base_instances, frame, frame_instances};
use crate::loops::{Effect, InputMsg, RawInputMsg, VisualMsg};

verus! {

/// State and message after one raw input.
///
/// A press of a mapped key is judged against the visible notes; a release
/// of a mapped key is recorded; any other input changes nothing.
pub open spec fn input_step(
    state: StateView,
    judge: JudgeParams,
    codes: Seq<Seq<char>>,
    notes: Seq<VisibleNote>,
    audio_paths: Map<usize, String>,
    raw: RawInputMsg,
) -> (StateView, Option<Effect>) {
    match converted(codes, raw) {
        Some(InputMsg::KeyDown(lane)) => (
            after_key_down(state, judge, notes, lane),
            key_down_effect(judge, notes, audio_paths, lane),
        ),
        Some(InputMsg::KeyUp(lane)) => (with_key(state, lane, false), None),
        _ => (state, None),
    }
}

/// State and messages after a queue of raw inputs, taken in order.
pub open spec fn inputs_applied(
    state: StateView,
    judge: JudgeParams,
    codes: Seq<Seq<char>>,
    notes: Seq<VisibleNote>,
    audio_paths: Map<usize, String>,
    inputs: Seq<RawInputMsg>,
) -> (StateView, Seq<Effect>)
    decreases inputs.len(),
{
    if inputs.len() == 0 {
        (state, Seq::empty())
    } else {
        let before = inputs_applied(state, judge, codes, notes, audio_paths, inputs.drop_last());
        let step = input_step(before.0, judge, codes, notes, audio_paths, inputs.last());
        (
            step.0,
            match step.1 {
                Some(effect) => before.1.push(effect),
                None => before.1,
            },
        )
    }
}

/// The messages of a tick with a chart in play: those of the inputs, then
/// those of the chart events that came due, then the frame, built from the
/// state after the inputs.
pub open spec fn tick_effects(
    state: StateView,
    judge: JudgeParams,
    codes: Seq<Seq<char>>,
    audio_paths: Map<usize, String>,
    bmp_paths: Map<usize, String>,
    bmp_types: Map<usize, BgaFileType>,
    inputs: Seq<RawInputMsg>,
    visible: Seq<VisibleNote>,
    events: Seq<PlayheadEvent>,
    instances: Vec<crate::loops::Instance>,
) -> Seq<Effect> {
    let applied = inputs_applied(state, judge, codes, visible, audio_paths, inputs);
    applied.1 + routed(events, audio_paths, bmp_paths, bmp_types) + seq![
        Effect::Visual(VisualMsg::Instances(instances)),
    ]
}

/// Handles one raw input.
pub fn handle_input(
    state: &mut GameState,
    judge: &JudgeParams,
    key_map: &KeyMap,
    notes: &Vec<VisibleNote>,
    audio_paths: &HashMap<usize, String>,
    raw: &RawInputMsg,
) -> (effect: Option<Effect>)
    ensures
        (final(state)@, effect) == input_step(
            old(state)@,
            *judge,
            key_map@,
            notes@,
            audio_paths@,
            *raw,
        ),
{
    match key_map.convert_ref(raw) {
        Some(InputMsg::KeyDown(lane)) => {
            let outcome = judge_key_down(state, judge, notes, audio_paths, lane);
            outcome.effect
        },
        Some(InputMsg::KeyUp(lane)) => {
            key_up(state, lane);
            None
        },
        _ => None,
    }
}

/// Drains a queue of raw inputs in order and appends the messages that the
/// judgments call for to `out`.
pub fn handle_inputs(
    state: &mut GameState,
    judge: &JudgeParams,
    key_map: &KeyMap,
    notes: &Vec<VisibleNote>,
    audio_paths: &HashMap<usize, String>,
    inputs: &Vec<RawInputMsg>,
    out: &mut Vec<Effect>,
)
    ensures
        final(state)@ == inputs_applied(
            old(state)@,
            *judge,
            key_map@,
            notes@,
            audio_paths@,
            inputs@,
        ).0,
        final(out)@ == old(out)@ + inputs_applied(
            old(state)@,
            *judge,
            key_map@,
            notes@,
            audio_paths@,
            inputs@,
        ).1,
{
    let mut i: usize = 0;
    assert(out@ =~= old(out)@ + Seq::<Effect>::empty());
    while i < inputs.len()
        invariant
            i <= inputs.len(),
            state@ == inputs_applied(
                old(state)@,
                *judge,
                key_map@,
                notes@,
                audio_paths@,
                inputs@.take(i as int),
            ).0,
            out@ == old(out)@ + inputs_applied(
                old(state)@,
                *judge,
                key_map@,
                notes@,
                audio_paths@,
                inputs@.take(i as int),
            ).1,
        decreases inputs.len() - i,
    {
        assert(inputs@.take(i + 1).drop_last() =~= inputs@.take(i as int));
        assert(inputs@.take(i + 1).last() == inputs@[i as int]);
        match handle_input(state, judge, key_map, notes, audio_paths, &inputs[i]) {
            Some(effect) => {
                out.push(effect);
            },
            None => {},
        }
        assert(out@ =~= old(out)@ + inputs_applied(
            old(state)@,
            *judge,
            key_map@,
            notes@,
            audio_paths@,
            inputs@.take(i + 1),
        ).1);
        i += 1;
    }
    assert(inputs@.take(i as int) =~= inputs@);
}

/// The game loop between two ticks: the chart in play, the key mapping, the
/// asset tables, the timing configuration and the state of the game.
pub struct GameLoop {
    /// The chart in play, if one is loaded.
    processor: Option<PlayedChart>,
    /// Lanes of the configured keys.
    key_map: KeyMap,
    /// File of each sound.
    audio_paths: HashMap<usize, String>,
    /// File of each image or video.
    bmp_paths: HashMap<usize, String>,
    /// Kind of each image or video file.
    bmp_types: HashMap<usize, BgaFileType>,
    /// Timing configuration.
    judge: JudgeParams,
    /// Held keys, gauge and combo.
    state: GameState,
}

impl GameLoop {
    /// Held keys, gauge and combo.
    pub closed spec fn state(&self) -> StateView {
        self.state@
    }

    /// Whether a chart is loaded.
    pub closed spec fn has_chart(&self) -> bool {
        self.processor is Some
    }

    /// Every call that the loop has made on its chart, in order, with what
    /// the chart gave; none where no chart is loaded.
    pub closed spec fn chart_calls(&self) -> Seq<ChartCall> {
        match self.processor {
            Some(chart) => chart.calls(),
            None => Seq::empty(),
        }
    }

    /// Timing configuration.
    pub closed spec fn judge(&self) -> JudgeParams {
        self.judge
    }

    /// The code of each mapped lane.
    pub closed spec fn codes(&self) -> Seq<Seq<char>> {
        self.key_map@
    }

    /// File of each sound.
    pub closed spec fn audio_paths(&self) -> Map<usize, String> {
        self.audio_paths@
    }

    /// File of each image or video.
    pub closed spec fn bmp_paths(&self) -> Map<usize, String> {
        self.bmp_paths@
    }

    /// Kind of each image or video file.
    pub closed spec fn bmp_types(&self) -> Map<usize, BgaFileType> {
        self.bmp_types@
    }

    /// Whether `other` is this loop with nothing changed but the state of
    /// the game and the chart's playhead.
    pub open spec fn same_setup(&self, other: &GameLoop) -> bool {
        &&& other.has_chart() == self.has_chart()
        &&& other.judge() == self.judge()
        &&& other.codes() == self.codes()
        &&& other.audio_paths() == self.audio_paths()
        &&& other.bmp_paths() == self.bmp_paths()
        &&& other.bmp_types() == self.bmp_types()
    }

    /// A game loop before its first tick: no key held, half a gauge, no
    /// combo.
    pub fn new(
        processor: Option<Box<dyn ChartSource>>,
        audio_paths: HashMap<usize, String>,
        bmp_paths: HashMap<usize, String>,
        bmp_types: HashMap<usize, BgaFileType>,
        key_codes: Vec<String>,
        judge: JudgeParams,
    ) -> (game: Self)
        ensures
            game.has_chart() == processor is Some,
            game.chart_calls() == Seq::<ChartCall>::empty(),
            game.judge() == judge,
            game.codes() == crate::loops::key_map::mapped_codes(key_codes@),
            game.audio_paths() == audio_paths@,
            game.bmp_paths() == bmp_paths@,
            game.bmp_types() == bmp_types@,
            game.state().gauge == GAUGE_START,
            game.state().combo == 0,
            forall|i: int| 0 <= i < 8 ==> !game.state().pressed[i],
    {
        let processor = match processor {
            Some(source) => Some(PlayedChart::new(source)),
            None => None,
        };
        GameLoop {
            processor,
            key_map: KeyMap::new(key_codes),
            audio_paths,
            bmp_paths,
            bmp_types,
            judge,
            state: GameState::new(),
        }
    }

    /// Held keys, gauge and combo.
    pub fn game_state(&self) -> (state: GameState)
        ensures
            state@ == self.state(),
    {
        self.state
    }

    /// The requests to make before the first tick: every sound of the chart
    /// to the audio thread, every image to the decode cache.
    pub fn preload_requests(&self) -> (requests: Vec<Effect>)
        ensures
            requests@.len() == 2,
            requests@[0] matches Effect::Audio(Msg::PreloadAll { files }) && files@.to_set()
                == self.audio_paths().values() && files@.len() == self.audio_paths().dom().len(),
            requests@[1] matches Effect::PreloadBga { files } && files@.to_set()
                == self.bmp_paths().values() && files@.len() == self.bmp_paths().dom().len(),
    {
        let mut requests: Vec<Effect> = Vec::new();
        requests.push(Effect::Audio(Msg::PreloadAll { files: asset_files(&self.audio_paths) }));
        requests.push(Effect::PreloadBga { files: asset_files(&self.bmp_paths) });
        requests
    }

    /// Starts playback of the chart at `now`; does nothing where no chart
    /// is loaded.
    pub fn start(&mut self, now: u64)
        ensures
            old(self).same_setup(final(self)),
            final(self).state() == old(self).state(),
            final(self).chart_calls() == if old(self).has_chart() {
                old(self).chart_calls().push(ChartCall::Start { now })
            } else {
                old(self).chart_calls()
            },
    {
        match self.processor.take() {
            Some(mut chart) => {
                chart.start_play(now);
                self.processor = Some(chart);
            },
            None => {},
        }
    }

    /// Runs one tick at `now` on the inputs that have queued up, and gives
    /// the messages to send, in order.
    ///
    /// Without a chart the inputs are dropped and the only message is the
    /// bare play field. With a chart four calls are made on it, in this
    /// order: the visible notes are asked for and the inputs are judged
    /// against them; the chart is advanced to `now` and its events are
    /// routed; whether playback has started and the visible notes are asked
    /// for, and the frame, which comes last, shows them with the state after
    /// the inputs.
    pub fn tick(&mut self, inputs: Vec<RawInputMsg>, now: u64) -> (effects: Vec<Effect>)
        ensures
            old(self).same_setup(final(self)),
            !old(self).has_chart() ==> {
                &&& final(self).state() == old(self).state()
                &&& final(self).chart_calls() == old(self).chart_calls()
                &&& effects@.len() == 1
                &&& effects@[0] matches Effect::Visual(VisualMsg::Instances(instances))
                &&& instances@ == base_frame()
            },
            old(self).has_chart() ==> {
                let asked = old(self).chart_calls().len() as int;
                let calls = final(self).chart_calls();
                &&& grew_by(old(self).chart_calls(), calls, 4)
                &&& effects@.len() > 0
                &&& match (calls[asked], calls[asked + 1], calls[asked + 2], calls[asked + 3], effects@.last()) {
                    (
                        ChartCall::Visible { notes: visible },
                        ChartCall::Update { now: at, events },
                        ChartCall::StartedAt { at: started },
                        ChartCall::Visible { notes: shown },
                        Effect::Visual(VisualMsg::Instances(instances)),
                    ) => {
                        &&& at == now
                        &&& final(self).state() == inputs_applied(
                            old(self).state(),
                            old(self).judge(),
                            old(self).codes(),
                            visible,
                            old(self).audio_paths(),
                            inputs@,
                        ).0
                        &&& instances@ == frame(
                            shown,
                            started is Some,
                            final(self).state().pressed,
                            final(self).state().gauge,
                        )
                        &&& effects@ == tick_effects(
                            old(self).state(),
                            old(self).judge(),
                            old(self).codes(),
                            old(self).audio_paths(),
                            old(self).bmp_paths(),
                            old(self).bmp_types(),
                            inputs@,
                            visible,
                            events,
                            instances,
                        )
                    },
                    _ => false,
                }
            },
    {
        let mut effects: Vec<Effect> = Vec::new();
        let mut chart = match self.processor.take() {
            Some(chart) => chart,
            None => {
                effects.push(Effect::Visual(VisualMsg::Instances(base_instances())));
                return effects;
            },
        };
        let visible = chart.visible_events();
        handle_inputs(
            &mut self.state,
            &self.judge,
            &self.key_map,
            &visible,
            &self.audio_paths,
            &inputs,
            &mut effects,
        );
        let ghost after_inputs = effects@;
        let events = chart.update(now);
        route_events(&events, &self.audio_paths, &self.bmp_paths, &self.bmp_types, &mut effects);
        let started = chart.started_at().is_some();
        let shown = chart.visible_events();
        let instances = frame_instances(&shown, started, self.state.pressed, self.state.gauge);
        effects.push(Effect::Visual(VisualMsg::Instances(instances)));
        self.processor = Some(chart);
        proof {
            assert(self.chart_calls().take(old(self).chart_calls().len() as int) =~= old(self).chart_calls());
            assert(after_inputs =~= inputs_applied(
                old(self).state(),
                old(self).judge(),
                old(self).codes(),
                visible@,
                old(self).audio_paths(),
                inputs@,
            ).1);
            assert(effects@ =~= tick_effects(
                old(self).state(),
                old(self).judge(),
                old(self).codes(),
                old(self).audio_paths(),
                old(self).bmp_paths(),
                old(self).bmp_types(),
                inputs@,
                visible@,
                events@,
                instances,
            ));
            assert(instances@ == frame(
                shown@,
                started,
                self.state().pressed,
                self.state().gauge,
            ));
        }
        effects
    }
}

} // verus!
