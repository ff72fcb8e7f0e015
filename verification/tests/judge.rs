use std::collections::HashMap;

use nebula_tunes::chart::{ChartEvent, Key, PlayerSide, PlayheadEvent, VisibleNote, RATIO_ONE};
use nebula_tunes::judge::{
    grade, judge_key_down, key_up, select_note, timing_error, GameState, JudgeParams, GAUGE_FULL,
    GAUGE_START,
};
use nebula_tunes::loops::audio::Msg;
use nebula_tunes::loops::{Effect, VisualMsg};

const MS: u64 = 1_000_000;

fn params() -> JudgeParams {
    JudgeParams {
        travel: 600 * MS,
        windows: [16 * MS, 36 * MS, 80 * MS, 120 * MS],
    }
}

fn note(id: usize, side: PlayerSide, key: Key, wav_id: Option<usize>, ratio: i64) -> VisibleNote {
    VisibleNote {
        event: PlayheadEvent {
            id,
            event: ChartEvent::Note { side, key, wav_id },
        },
        ratio,
    }
}

fn sounds() -> HashMap<usize, String> {
    let mut audio = HashMap::new();
    audio.insert(7usize, "kick.wav".to_string());
    audio
}

#[test]
fn near_note_earns_the_best_grade() {
    let judge = params();
    let error = timing_error(judge.travel, 20_000);
    assert_eq!(error, 12 * MS);
    assert_eq!(grade(error, &judge.windows), 4);
}

#[test]
fn note_at_fifteen_hundredths_is_ninety_milliseconds_off() {
    let judge = params();
    let error = timing_error(judge.travel, 150_000);
    assert_eq!(error, 90 * MS);
    assert_eq!(grade(error, &judge.windows), 1);
}

#[test]
fn grade_boundaries_are_inclusive() {
    let windows = params().windows;
    assert_eq!(grade(0, &windows), 4);
    assert_eq!(grade(16 * MS, &windows), 4);
    assert_eq!(grade(16 * MS + 1, &windows), 3);
    assert_eq!(grade(36 * MS, &windows), 3);
    assert_eq!(grade(36 * MS + 1, &windows), 2);
    assert_eq!(grade(80 * MS, &windows), 2);
    assert_eq!(grade(80 * MS + 1, &windows), 1);
    assert_eq!(grade(120 * MS, &windows), 1);
    assert_eq!(grade(120 * MS + 1, &windows), 0);
    assert_eq!(grade(u64::MAX, &windows), 0);
}

#[test]
fn grade_never_rises_with_the_error() {
    let windows = params().windows;
    let mut last = 4u8;
    let mut error = 0u64;
    while error <= 130 * MS {
        let g = grade(error, &windows);
        assert!(g <= last);
        last = g;
        error += MS / 2;
    }
    assert_eq!(last, 0);
}

#[test]
fn timing_error_rounds_down_and_spans_the_window() {
    assert_eq!(timing_error(600 * MS, 0), 0);
    assert_eq!(timing_error(600 * MS, RATIO_ONE), 600 * MS);
    assert_eq!(timing_error(1, 999_999), 0);
    assert_eq!(timing_error(3, 500_000), 1);
    assert_eq!(timing_error(u64::MAX, RATIO_ONE), u64::MAX);
}

#[test]
fn smallest_ratio_wins_and_first_wins_a_tie() {
    let notes = vec![
        note(0, PlayerSide::Player1, Key::Key(3), None, 400_000),
        note(1, PlayerSide::Player1, Key::Key(3), None, 100_000),
        note(2, PlayerSide::Player1, Key::Key(3), None, 100_000),
        note(3, PlayerSide::Player1, Key::Key(3), None, 700_000),
    ];
    assert_eq!(select_note(&notes, 3), Some(1));
}

#[test]
fn notes_of_other_lanes_sides_and_ratios_are_no_candidates() {
    let notes = vec![
        note(0, PlayerSide::Player2, Key::Key(3), None, 10_000),
        note(1, PlayerSide::Player1, Key::Key(4), None, 10_000),
        note(2, PlayerSide::Player1, Key::Key(3), None, -1),
        note(3, PlayerSide::Player1, Key::Key(3), None, RATIO_ONE + 1),
        note(4, PlayerSide::Player1, Key::FootPedal, None, 10_000),
        VisibleNote {
            event: PlayheadEvent { id: 5, event: ChartEvent::Bgm { wav_id: None } },
            ratio: 10_000,
        },
    ];
    assert_eq!(select_note(&notes, 3), None);
    assert_eq!(select_note(&Vec::new(), 3), None);
}

#[test]
fn boundary_ratios_are_candidates() {
    let notes = vec![
        note(0, PlayerSide::Player1, Key::Scratch(1), None, RATIO_ONE),
        note(1, PlayerSide::Player1, Key::Scratch(1), None, 0),
    ];
    assert_eq!(select_note(&notes, 0), Some(1));
}

#[test]
fn key_down_without_a_note_changes_only_the_key() {
    let mut state = GameState::new();
    let notes = vec![note(0, PlayerSide::Player1, Key::Key(5), Some(7), 20_000)];
    let out = judge_key_down(&mut state, &params(), &notes, &sounds(), 3);
    assert_eq!(out.judgment, None);
    assert_eq!(out.effect, None);
    assert_eq!(state.combo, 0);
    assert_eq!(state.gauge, GAUGE_START);
    assert_eq!(
        state.pressed,
        [false, false, false, true, false, false, false, false]
    );
}

#[test]
fn good_hit_raises_combo_and_gauge_and_plays_the_sound() {
    let mut state = GameState::new();
    let notes = vec![
        note(0, PlayerSide::Player1, Key::Key(3), Some(9), 500_000),
        note(1, PlayerSide::Player1, Key::Key(3), Some(7), 20_000),
    ];
    let out = judge_key_down(&mut state, &params(), &notes, &sounds(), 3);
    let judgment = out.judgment.unwrap();
    assert_eq!(judgment.note, 1);
    assert_eq!(judgment.error, 12 * MS);
    assert_eq!(judgment.grade, 4);
    assert_eq!(out.effect, Some(Effect::Audio(Msg::Play("kick.wav".to_string()))));
    assert_eq!(state.combo, 1);
    assert_eq!(state.gauge, GAUGE_START + 20);
}

#[test]
fn hit_without_a_known_sound_sends_nothing() {
    let mut state = GameState::new();
    let notes = vec![note(0, PlayerSide::Player1, Key::Key(3), Some(9), 20_000)];
    let out = judge_key_down(&mut state, &params(), &notes, &sounds(), 3);
    assert_eq!(out.judgment.unwrap().grade, 4);
    assert_eq!(out.effect, None);
    let notes = vec![note(0, PlayerSide::Player1, Key::Key(3), None, 20_000)];
    let out = judge_key_down(&mut state, &params(), &notes, &sounds(), 3);
    assert_eq!(out.effect, None);
    assert_eq!(state.combo, 2);
}

#[test]
fn each_grade_moves_the_gauge_by_its_amount() {
    let mut state = GameState::new();
    state.apply_grade(4);
    assert_eq!((state.gauge, state.combo), (520, 1));
    state.apply_grade(3);
    assert_eq!((state.gauge, state.combo), (540, 2));
    state.apply_grade(2);
    assert_eq!((state.gauge, state.combo), (550, 3));
    state.apply_grade(1);
    assert_eq!((state.gauge, state.combo), (520, 0));
    state.apply_grade(2);
    assert_eq!((state.gauge, state.combo), (530, 1));
    state.apply_grade(0);
    assert_eq!((state.gauge, state.combo), (480, 0));
}

#[test]
fn gauge_stays_between_empty_and_full() {
    let mut state = GameState::new();
    for _ in 0..40 {
        state.apply_grade(4);
        assert!(state.gauge <= GAUGE_FULL);
    }
    assert_eq!(state.gauge, GAUGE_FULL);
    for _ in 0..40 {
        state.apply_grade(0);
        assert!(state.gauge <= GAUGE_FULL);
    }
    assert_eq!(state.gauge, 0);
    state.apply_grade(1);
    assert_eq!(state.gauge, 0);
    state.gauge = 990;
    state.apply_grade(2);
    assert_eq!(state.gauge, GAUGE_FULL);
}

#[test]
fn combo_stops_at_the_largest_count() {
    let mut state = GameState::new();
    state.combo = u32::MAX - 1;
    state.apply_grade(3);
    assert_eq!(state.combo, u32::MAX);
    state.apply_grade(3);
    assert_eq!(state.combo, u32::MAX);
    state.apply_grade(1);
    assert_eq!(state.combo, 0);
}

#[test]
fn late_hit_resets_the_combo_and_shows_the_miss_layer() {
    let mut state = GameState::new();
    state.combo = 12;
    let notes = vec![note(0, PlayerSide::Player1, Key::Key(1), Some(7), 150_000)];
    let out = judge_key_down(&mut state, &params(), &notes, &sounds(), 1);
    assert_eq!(out.judgment.unwrap().grade, 1);
    assert_eq!(out.effect, Some(Effect::Visual(VisualMsg::BgaPoorTrigger)));
    assert_eq!(state.combo, 0);
    assert_eq!(state.gauge, GAUGE_START - 30);

    let notes = vec![note(0, PlayerSide::Player1, Key::Key(1), Some(7), 900_000)];
    let out = judge_key_down(&mut state, &params(), &notes, &sounds(), 1);
    assert_eq!(out.judgment.unwrap().grade, 0);
    assert_eq!(out.effect, Some(Effect::Visual(VisualMsg::BgaPoorTrigger)));
    assert_eq!(state.gauge, GAUGE_START - 80);
}

#[test]
fn key_up_releases_the_lane_and_ignores_unknown_lanes() {
    let mut state = GameState::new();
    state.set_pressed(2, true);
    state.set_pressed(8, true);
    assert_eq!(
        state.pressed,
        [false, false, true, false, false, false, false, false]
    );
    key_up(&mut state, 2);
    key_up(&mut state, 100);
    assert_eq!(state.pressed, [false; 8]);
}
