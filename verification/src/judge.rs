//! The judgment engine: which note a key press hits, how far off it was,
//! and what that does to combo and gauge.

use vstd::prelude::*;
use std::collections::HashMap;
use crate::chart::{key_to_lane, lane_of, ChartEvent, PlayerSide, VisibleNote, RATIO_ONE};
use crate::loops::audio::Msg;
use crate::loops::{Effect, VisualMsg};

verus! {

/// Value of a full gauge. The gauge is counted in thousandths.
pub const GAUGE_FULL: u32 = 1000;

/// Gauge at the start of a game.
pub const GAUGE_START: u32 = 500;

/// What the gauge gains on the two best grades.
pub const GAIN_STRONG: u32 = 20;

/// What the gauge gains on the middle grade.
pub const GAIN_WEAK: u32 = 10;

/// What the gauge loses on the second worst grade.
pub const LOSS_BAD: u32 = 30;

/// What the gauge loses on the worst grade.
pub const LOSS_MISS: u32 = 50;

/// Timing configuration of a game.
#[derive(Clone, Copy, Debug, PartialEq, Eq)]
pub struct JudgeParams {
    /// Time a note takes through the visible window, in nanoseconds.
    pub travel: u64,
    /// Largest timing error of grades 4, 3, 2 and 1, in nanoseconds.
    pub windows: [u64; 4],
}

/// What the player sees of the game: held keys, gauge and combo.
#[derive(Clone, Copy, Debug, PartialEq, Eq)]
pub struct GameState {
    /// Whether the key of each lane is held.
    pub pressed: [bool; 8],
    /// Health in thousandths, `GAUGE_FULL` at most after any judgment.
    pub gauge: u32,
    /// Number of hits in a row.
    pub combo: u32,
}

/// What a game state holds.
pub struct StateView {
    /// Whether the key of each lane is held.
    pub pressed: Seq<bool>,
    /// Health in thousandths.
    pub gauge: int,
    /// Number of hits in a row.
    pub combo: int,
}

impl View for GameState {
    type V = StateView;

    open spec fn view(&self) -> StateView {
        StateView { pressed: self.pressed@, gauge: self.gauge as int, combo: self.combo as int }
    }
}

/// The result of judging one key press.
#[derive(Clone, Copy, Debug, PartialEq, Eq, Structural)]
pub struct Judgment {
    /// Index of the judged note among the visible notes.
    pub note: usize,
    /// Timing error in nanoseconds.
    pub error: u64,
    /// Grade, 4 the best and 0 the worst.
    pub grade: u8,
}

/// What a key press did.
#[derive(Clone, Debug, PartialEq, Eq)]
pub struct KeyDownOutcome {
    /// The judgment, or none where no visible note was played.
    pub judgment: Option<Judgment>,
    /// The message that the judgment calls for, if any.
    pub effect: Option<Effect>,
}

/// Grade of a timing error: 4 inside the first window, one less for each
/// window that the error exceeds.
pub open spec fn grade_of(error: int, windows: Seq<u64>) -> int {
    if error <= windows[0] {
        4
    } else if error <= windows[1] {
        3
    } else if error <= windows[2] {
        2
    } else if error <= windows[3] {
        1
    } else {
        0
    }
}

/// Timing error of a note: the visible span times the note's ratio, rounded
/// down to whole nanoseconds.
pub open spec fn error_of(travel: int, ratio: int) -> int {
    (travel * ratio) / (RATIO_ONE as int)
}

/// Whether a visible note can be hit by the key of `lane`: it is a note of
/// the local player, its key plays that lane, and its ratio lies between 0
/// and 1.
pub open spec fn is_candidate(note: VisibleNote, lane: usize) -> bool {
    &&& note.event.event matches ChartEvent::Note { side, key, .. }
    &&& side == PlayerSide::Player1
    &&& lane_of(key) == Some(lane)
    &&& 0 <= note.ratio <= RATIO_ONE
}

/// Whether `i` is the note that a press on `lane` hits: a candidate whose
/// ratio no other candidate undercuts, and the first of those.
pub open spec fn is_best(notes: Seq<VisibleNote>, lane: usize, i: int) -> bool {
    &&& 0 <= i < notes.len()
    &&& is_candidate(notes[i], lane)
    &&& forall|j: int|
        0 <= j < notes.len() && is_candidate(#[trigger] notes[j], lane) ==> notes[i].ratio
            <= notes[j].ratio
    &&& forall|j: int|
        0 <= j < i && is_candidate(#[trigger] notes[j], lane) ==> notes[i].ratio < notes[j].ratio
}

/// Whether no visible note can be hit by the key of `lane`.
pub open spec fn no_candidate(notes: Seq<VisibleNote>, lane: usize) -> bool {
    forall|j: int| 0 <= j < notes.len() ==> !is_candidate(#[trigger] notes[j], lane)
}

/// Gauge after a judgment of the given grade.
pub open spec fn gauge_after(gauge: int, grade: int) -> int {
    let held = if gauge > GAUGE_FULL {
        GAUGE_FULL as int
    } else {
        gauge
    };
    if grade == 4 || grade == 3 {
        if held + GAIN_STRONG > GAUGE_FULL {
            GAUGE_FULL as int
        } else {
            held + GAIN_STRONG
        }
    } else if grade == 2 {
        if held + GAIN_WEAK > GAUGE_FULL {
            GAUGE_FULL as int
        } else {
            held + GAIN_WEAK
        }
    } else if grade == 1 {
        if held < LOSS_BAD {
            0
        } else {
            held - LOSS_BAD
        }
    } else {
        if held < LOSS_MISS {
            0
        } else {
            held - LOSS_MISS
        }
    }
}

/// Combo after a judgment of the given grade. The counter stops at the
/// largest value it can hold.
pub open spec fn combo_after(combo: int, grade: int) -> int {
    if grade == 4 || grade == 3 || grade == 2 {
        if combo < u32::MAX {
            combo + 1
        } else {
            combo
        }
    } else {
        0
    }
}

/// Gauge after a run of judgments, the first grade of `grades` applied first.
pub open spec fn gauge_after_all(gauge: int, grades: Seq<u8>) -> int
    decreases grades.len(),
{
    if grades.len() == 0 {
        gauge
    } else {
        gauge_after(gauge_after_all(gauge, grades.drop_last()), grades.last() as int)
    }
}

/// The message that a judgment of `grade` on `note` calls for: the note's
/// sound on grades 2 to 4, where it has one with a known file, and the miss
/// overlay on grades 0 and 1.
pub open spec fn effect_for(grade: int, note: VisibleNote, audio_paths: Map<usize, String>)
    -> Option<Effect> {
    if grade == 4 || grade == 3 || grade == 2 {
        match note.event.event {
            ChartEvent::Note { wav_id: Some(w), .. } => if audio_paths.contains_key(w) {
                Some(Effect::Audio(Msg::Play(audio_paths[w])))
            } else {
                None
            },
            _ => None,
        }
    } else {
        Some(Effect::Visual(VisualMsg::BgaPoorTrigger))
    }
}

/// The note that a press on `lane` hits, if it hits one.
pub open spec fn hit_note(notes: Seq<VisibleNote>, lane: usize) -> Option<int> {
    if exists|i: int| is_best(notes, lane, i) {
        Some(choose|i: int| is_best(notes, lane, i))
    } else {
        None
    }
}

/// The judgment of a press on `lane`, if a note is hit.
pub open spec fn judgment_of(judge: JudgeParams, notes: Seq<VisibleNote>, lane: usize) -> Option<
    Judgment,
> {
    match hit_note(notes, lane) {
        Some(i) => {
            let error = error_of(judge.travel as int, notes[i].ratio as int);
            Some(
                Judgment {
                    note: i as usize,
                    error: error as u64,
                    grade: grade_of(error, judge.windows@) as u8,
                },
            )
        },
        None => None,
    }
}

/// The state with the key of `lane` recorded as held or not; a lane that
/// does not exist changes nothing.
pub open spec fn with_key(state: StateView, lane: usize, held: bool) -> StateView {
    if lane < 8 {
        StateView { pressed: state.pressed.update(lane as int, held), ..state }
    } else {
        state
    }
}

/// The state after a judgment, or after none.
pub open spec fn with_judgment(state: StateView, judgment: Option<Judgment>) -> StateView {
    match judgment {
        Some(j) => StateView {
            gauge: gauge_after(state.gauge, j.grade as int),
            combo: combo_after(state.combo, j.grade as int),
            ..state
        },
        None => state,
    }
}

/// The state after a press on `lane`: the key is held, and combo and gauge
/// follow the judgment where a note is hit.
pub open spec fn after_key_down(
    state: StateView,
    judge: JudgeParams,
    notes: Seq<VisibleNote>,
    lane: usize,
) -> StateView {
    with_judgment(with_key(state, lane, true), judgment_of(judge, notes, lane))
}

/// The message that a press on `lane` calls for.
pub open spec fn key_down_effect(
    judge: JudgeParams,
    notes: Seq<VisibleNote>,
    audio_paths: Map<usize, String>,
    lane: usize,
) -> Option<Effect> {
    match judgment_of(judge, notes, lane) {
        Some(j) => effect_for(j.grade as int, notes[j.note as int], audio_paths),
        None => None,
    }
}

/// The note that a press hits is a candidate of the smallest ratio, the
/// first of those; a press hits none exactly where there is no candidate.
pub proof fn hit_note_is_best(notes: Seq<VisibleNote>, lane: usize)
    ensures
        match hit_note(notes, lane) {
            Some(i) => is_best(notes, lane, i),
            None => no_candidate(notes, lane),
        },
{
    if hit_note(notes, lane) is None {
        if !no_candidate(notes, lane) {
            let j = choose|j: int| 0 <= j < notes.len() && is_candidate(#[trigger] notes[j], lane);
            assert(0 <= j < notes.len() && is_candidate(notes[j], lane));
            first_best_exists(notes, lane, notes.len() as int);
            assert(notes.take(notes.len() as int) =~= notes);
            let i = choose|i: int| is_best(notes.take(notes.len() as int), lane, i);
            assert(is_best(notes, lane, i));
        }
    }
}

/// Among the first `n` notes there is a best one as soon as there is a
/// candidate.
proof fn first_best_exists(notes: Seq<VisibleNote>, lane: usize, n: int)
    requires
        0 <= n <= notes.len(),
    ensures
        (exists|j: int| 0 <= j < n && is_candidate(#[trigger] notes[j], lane)) ==> exists|i: int|
            is_best(notes.take(n), lane, i),
    decreases n,
{
    if n > 0 {
        first_best_exists(notes, lane, n - 1);
        let seen = notes.take(n - 1);
        let next = notes.take(n);
        assert(forall|j: int| 0 <= j < n - 1 ==> next[j] == seen[j]);
        assert(next[n - 1] == notes[n - 1]);
        if exists|j: int| 0 <= j < n && is_candidate(#[trigger] notes[j], lane) {
            if exists|j: int| 0 <= j < n - 1 && is_candidate(#[trigger] notes[j], lane) {
                let i = choose|i: int| is_best(seen, lane, i);
                if is_candidate(notes[n - 1], lane) && notes[n - 1].ratio < notes[i].ratio {
                    assert(is_best(next, lane, n - 1));
                } else {
                    assert(is_best(next, lane, i));
                }
            } else {
                assert(is_candidate(notes[n - 1], lane));
                assert(is_best(next, lane, n - 1));
            }
        }
    }
    if n == notes.len() {
        assert(notes.take(n) =~= notes);
    }
}

/// A later press never earns a better grade than an earlier one, and the
/// best grade is earned exactly inside the first window.
pub proof fn grade_is_monotone(early: int, late: int, windows: Seq<u64>)
    requires
        early <= late,
    ensures
        grade_of(early, windows) >= grade_of(late, windows),
        0 <= grade_of(early, windows) <= 4,
        grade_of(early, windows) == 4 <==> early <= windows[0],
{
}

/// Whatever the gauge was and whatever is judged, the gauge lies between
/// empty and full after a judgment.
pub proof fn gauge_is_clamped(gauge: int, grade: int)
    requires
        0 <= gauge,
    ensures
        0 <= gauge_after(gauge, grade) <= GAUGE_FULL,
{
}

/// After any run of at least one judgment the gauge lies between empty and
/// full; a gauge in that range stays there over any run.
pub proof fn gauge_stays_in_range(gauge: int, grades: Seq<u8>)
    requires
        0 <= gauge,
        grades.len() > 0 || gauge <= GAUGE_FULL,
    ensures
        0 <= gauge_after_all(gauge, grades) <= GAUGE_FULL,
    decreases grades.len(),
{
    if grades.len() > 0 {
        let before = grades.drop_last();
        if before.len() > 0 {
            gauge_stays_in_range(gauge, before);
        }
        gauge_is_clamped(gauge_after_all(gauge, before), grades.last() as int);
    }
}

/// Grades 0 and 1 set the combo to 0; grades 2, 3 and 4 raise it by one as
/// long as the counter can still grow.
pub proof fn combo_follows_grade(combo: int, grade: int)
    requires
        0 <= grade <= 4,
    ensures
        grade == 0 || grade == 1 ==> combo_after(combo, grade) == 0,
        grade >= 2 && combo < u32::MAX ==> combo_after(combo, grade) == combo + 1,
{
}

/// Of two notes that a press could hit, the one that is hit has the smaller
/// ratio, and at most one note is hit.
pub proof fn best_note_is_unique(notes: Seq<VisibleNote>, lane: usize, i: int, j: int)
    requires
        is_best(notes, lane, i),
        is_best(notes, lane, j),
    ensures
        i == j,
{
    if i < j {
        assert(is_candidate(notes[i], lane));
    } else if j < i {
        assert(is_candidate(notes[j], lane));
    }
}

/// Grades a timing error against the four windows.
pub fn grade(error: u64, windows: &[u64; 4]) -> (g: u8)
    ensures
        g == grade_of(error as int, windows@),
        g <= 4,
{
    if error <= windows[0] {
        4
    } else if error <= windows[1] {
        3
    } else if error <= windows[2] {
        2
    } else if error <= windows[3] {
        1
    } else {
        0
    }
}

/// Converts a ratio into the time that the note is away from the judgment
/// line.
pub fn timing_error(travel: u64, ratio: i64) -> (error: u64)
    requires
        0 <= ratio <= RATIO_ONE,
    ensures
        error == error_of(travel as int, ratio as int),
        error <= travel,
{
    assert(0 <= travel as int * ratio as int <= travel as int * 1_000_000) by (nonlinear_arith)
        requires
            0 <= ratio <= 1_000_000,
            0 <= travel,
    ;
    let product: u128 = (travel as u128) * (ratio as u128);
    let error: u128 = product / 1_000_000u128;
    error as u64
}

/// Tells whether the key of `lane` can hit `note`.
pub fn note_is_candidate(note: &VisibleNote, lane: usize) -> (hit: bool)
    ensures
        hit == is_candidate(*note, lane),
{
    match note.event.event {
        ChartEvent::Note { side, key, .. } => {
            match side {
                PlayerSide::Player1 => {
                    match key_to_lane(key) {
                        Some(l) => l == lane && 0 <= note.ratio && note.ratio <= RATIO_ONE,
                        None => false,
                    }
                },
                PlayerSide::Player2 => false,
            }
        },
        _ => false,
    }
}

/// Picks the note that a press on `lane` hits: among the candidates the one
/// with the smallest ratio, the first of them where several share it.
pub fn select_note(notes: &Vec<VisibleNote>, lane: usize) -> (best: Option<usize>)
    ensures
        match best {
            Some(i) => is_best(notes@, lane, i as int),
            None => no_candidate(notes@, lane),
        },
{
    let mut best: Option<usize> = None;
    let mut k: usize = 0;
    while k < notes.len()
        invariant
            k <= notes.len(),
            match best {
                Some(i) => is_best(notes@.take(k as int), lane, i as int),
                None => no_candidate(notes@.take(k as int), lane),
            },
        decreases notes.len() - k,
    {
        let ghost seen = notes@.take(k as int);
        let ghost next = notes@.take(k as int + 1);
        assert(forall|j: int| 0 <= j < k ==> next[j] == seen[j]);
        assert(next[k as int] == notes@[k as int]);
        if note_is_candidate(&notes[k], lane) {
            match best {
                Some(i) => {
                    if notes[k].ratio < notes[i].ratio {
                        best = Some(k);
                    }
                },
                None => {
                    best = Some(k);
                },
            }
        }
        k += 1;
    }
    assert(notes@.take(k as int) =~= notes@);
    best
}

impl GameState {
    /// The state at the start of a game: no key held, half a gauge, no combo.
    pub fn new() -> (state: Self)
        ensures
            state.gauge == GAUGE_START,
            state.combo == 0,
            forall|i: int| 0 <= i < 8 ==> !state.pressed[i],
    {
        GameState { pressed: [false; 8], gauge: GAUGE_START, combo: 0 }
    }

    /// Records that the key of `lane` is held or not; a lane that does not
    /// exist is ignored.
    pub fn set_pressed(&mut self, lane: usize, held: bool)
        ensures
            final(self)@ == with_key(old(self)@, lane, held),
    {
        if lane < 8 {
            self.pressed[lane] = held;
        }
    }

    /// Applies the outcome of one judgment to combo and gauge.
    pub fn apply_grade(&mut self, grade: u8)
        ensures
            final(self).pressed == old(self).pressed,
            final(self).gauge == gauge_after(old(self).gauge as int, grade as int),
            final(self).combo == combo_after(old(self).combo as int, grade as int),
            final(self).gauge <= GAUGE_FULL,
    {
        let held: u32 = if self.gauge > GAUGE_FULL {
            GAUGE_FULL
        } else {
            self.gauge
        };
        if grade == 4 || grade == 3 {
            self.combo = self.combo.saturating_add(1);
            self.gauge = if held + GAIN_STRONG > GAUGE_FULL {
                GAUGE_FULL
            } else {
                held + GAIN_STRONG
            };
        } else if grade == 2 {
            self.combo = self.combo.saturating_add(1);
            self.gauge = if held + GAIN_WEAK > GAUGE_FULL {
                GAUGE_FULL
            } else {
                held + GAIN_WEAK
            };
        } else if grade == 1 {
            self.combo = 0;
            self.gauge = held.saturating_sub(LOSS_BAD);
        } else {
            self.combo = 0;
            self.gauge = held.saturating_sub(LOSS_MISS);
        }
    }
}

/// Finds the message that a judgment calls for.
pub fn judgment_effect(grade: u8, note: &VisibleNote, audio_paths: &HashMap<usize, String>) -> (effect:
    Option<Effect>)
    ensures
        effect == effect_for(grade as int, *note, audio_paths@),
{
    if grade == 4 || grade == 3 || grade == 2 {
        match note.event.event {
            ChartEvent::Note { wav_id: Some(w), .. } => {
                match audio_paths.get(&w) {
                    Some(path) => Some(Effect::Audio(Msg::Play(path.clone()))),
                    None => None,
                }
            },
            _ => None,
        }
    } else {
        Some(Effect::Visual(VisualMsg::BgaPoorTrigger))
    }
}

/// Judges a key press on `lane` against the visible notes.
///
/// The key is recorded as held. Where a note is hit, its timing error is
/// graded, combo and gauge follow the grade, and the outcome names the
/// message to send. Where none is hit, combo and gauge stay as they are and
/// the outcome holds no judgment.
pub fn judge_key_down(
    state: &mut GameState,
    judge: &JudgeParams,
    notes: &Vec<VisibleNote>,
    audio_paths: &HashMap<usize, String>,
    lane: usize,
) -> (out: KeyDownOutcome)
    ensures
        final(state)@ == after_key_down(old(state)@, *judge, notes@, lane),
        out.judgment == judgment_of(*judge, notes@, lane),
        out.effect == key_down_effect(*judge, notes@, audio_paths@, lane),
        no_candidate(notes@, lane) ==> {
            &&& out.judgment is None
            &&& out.effect is None
            &&& final(state).gauge == old(state).gauge
            &&& final(state).combo == old(state).combo
        },
        final(state).gauge <= GAUGE_FULL || final(state).gauge == old(state).gauge,
{
    state.set_pressed(lane, true);
    proof {
        hit_note_is_best(notes@, lane);
    }
    match select_note(notes, lane) {
        None => {
            assert(hit_note(notes@, lane) is None) by {
                if hit_note(notes@, lane) is Some {
                    let i = hit_note(notes@, lane)->Some_0;
                    assert(is_candidate(notes@[i], lane));
                }
            }
            KeyDownOutcome { judgment: None, effect: None }
        },
        Some(i) => {
            assert(is_candidate(notes@[i as int], lane));
            assert(hit_note(notes@, lane) == Some(i as int)) by {
                best_note_is_unique(notes@, lane, i as int, hit_note(notes@, lane)->Some_0);
            }
            let error = timing_error(judge.travel, notes[i].ratio);
            let g = grade(error, &judge.windows);
            state.apply_grade(g);
            let effect = judgment_effect(g, &notes[i], audio_paths);
            KeyDownOutcome { judgment: Some(Judgment { note: i, error, grade: g }), effect }
        },
    }
}

/// Records that the key of `lane` came up.
pub fn key_up(state: &mut GameState, lane: usize)
    ensures
        final(state)@ == with_key(old(state)@, lane, false),
{
    state.set_pressed(lane, false);
}

} // verus!
