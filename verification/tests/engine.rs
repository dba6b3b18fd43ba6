use eggplant_game::animation::{AnimationData, LoadError, TileSize};
use eggplant_game::driver::{animate_sprite, AnimationTimer, PlayerStateComponent};
use eggplant_game::interpolator::interpolate;
use eggplant_game::motion::{Motion, Pos};
use eggplant_game::resolver::Frame;
use eggplant_game::selector::{Intent, PlayerState};

fn successive_2_5() -> Frame {
    Frame::Successive { start: 2, end: 5, root_motion: vec![] }
}

fn sequence_5_7_9() -> Frame {
    Frame::Sequence {
        vec: vec![5, 7, 9],
        root_motion: vec![
            Motion { x: 10, y: 0 },
            Motion { x: 20, y: 1 },
            Motion { x: 30, y: 2 },
        ],
    }
}

fn tile() -> TileSize {
    TileSize { width: 80, height: 80 }
}

fn sample_data() -> AnimationData {
    AnimationData::new(
        String::from("player"),
        String::from("textures/01xx.png"),
        tile(),
        8,
        36,
        vec![
            (String::from("idle-right"), successive_2_5()),
            (String::from("walk-right"), sequence_5_7_9()),
        ],
    )
    .unwrap()
}

#[test]
fn successive_restarts_from_start_when_outside_range() {
    let f = successive_2_5();
    let mut index: usize = 0;
    let (sprite, motion) = f.next(0, &mut index);
    assert_eq!(sprite, 2);
    assert_eq!(motion, Motion { x: 0, y: 0 });
    assert_eq!(index, 0);
}

#[test]
fn successive_steps_forward_inside_range() {
    let f = successive_2_5();
    let mut index: usize = 7;
    let (sprite, motion) = f.next(2, &mut index);
    assert_eq!(sprite, 3);
    assert_eq!(motion, Motion { x: 0, y: 0 });
    assert_eq!(index, 7);
}

#[test]
fn successive_wraps_at_end_of_range() {
    let f = successive_2_5();
    let mut index: usize = 0;
    let (sprite, motion) = f.next(4, &mut index);
    assert_eq!(sprite, 2);
    assert_eq!(motion, Motion { x: 0, y: 0 });
}

#[test]
fn sequence_advances_cursor_and_reports_entry() {
    let f = sequence_5_7_9();
    let mut index: usize = 0;
    let (sprite, motion) = f.next(0, &mut index);
    assert_eq!(index, 1);
    assert_eq!(sprite, 7);
    assert_eq!(motion, Motion { x: 20, y: 1 });
}

#[test]
fn sequence_wraps_cursor_to_first_entry() {
    let f = sequence_5_7_9();
    let mut index: usize = 2;
    let (sprite, motion) = f.next(0, &mut index);
    assert_eq!(index, 0);
    assert_eq!(sprite, 5);
    assert_eq!(motion, Motion { x: 10, y: 0 });
}

#[test]
fn sequence_of_length_one_repeats_itself() {
    let f = Frame::Sequence { vec: vec![6], root_motion: vec![Motion { x: 4, y: 5 }] };
    let mut index: usize = 0;
    for _ in 0..5 {
        let (sprite, motion) = f.next(6, &mut index);
        assert_eq!(sprite, 6);
        assert_eq!(motion, Motion { x: 4, y: 5 });
        assert_eq!(index, 0);
    }
}

#[test]
fn selector_follows_intent_then_decays_to_idle() {
    let s = PlayerState::IdleRight;
    let s = s.select(Some(Intent { x: -1, y: 3 }));
    assert_eq!(s, PlayerState::WalkLeft);
    let s = s.select(None);
    assert_eq!(s, PlayerState::IdleLeft);
}

#[test]
fn selector_keeps_idle_without_intent() {
    assert_eq!(PlayerState::IdleRight.select(None), PlayerState::IdleRight);
    assert_eq!(PlayerState::IdleLeft.select(None), PlayerState::IdleLeft);
}

#[test]
fn selector_zero_horizontal_intent_changes_nothing() {
    let s = PlayerState::IdleRight;
    assert_eq!(s.select(Some(Intent { x: 0, y: 9 })), PlayerState::IdleRight);
    let w = PlayerState::WalkLeft;
    assert_eq!(w.select(Some(Intent { x: 0, y: -9 })), PlayerState::WalkLeft);
}

#[test]
fn selector_positive_intent_walks_right() {
    assert_eq!(
        PlayerState::WalkLeft.select(Some(Intent { x: 2, y: 0 })),
        PlayerState::WalkRight
    );
}

#[test]
fn state_keys_match_animation_names() {
    assert_eq!(PlayerState::IdleLeft.to_string(), "idle-left");
    assert_eq!(PlayerState::IdleRight.to_string(), "idle-right");
    assert_eq!(PlayerState::WalkLeft.to_string(), "walk-left");
    assert_eq!(PlayerState::WalkRight.to_string(), "walk-right");
}

#[test]
fn load_accepts_consistent_data() {
    let data = sample_data();
    assert_eq!(data.frames.len(), 2);
    assert!(data.get(&String::from("walk-right")).is_some());
    assert!(data.get(&String::from("walk-left")).is_none());
}

#[test]
fn load_rejects_mismatched_sequence_lengths() {
    let r = AnimationData::new(
        String::from("player"),
        String::from("t.png"),
        tile(),
        1,
        1,
        vec![(
            String::from("walk-right"),
            Frame::Sequence { vec: vec![5, 7], root_motion: vec![Motion { x: 0, y: 0 }] },
        )],
    );
    assert_eq!(r.unwrap_err(), LoadError::InvalidDescriptor);
}

#[test]
fn load_rejects_empty_sequence() {
    let r = AnimationData::new(
        String::from("player"),
        String::from("t.png"),
        tile(),
        1,
        1,
        vec![(String::from("walk-right"), Frame::Sequence { vec: vec![], root_motion: vec![] })],
    );
    assert_eq!(r.unwrap_err(), LoadError::InvalidDescriptor);
}

#[test]
fn load_rejects_duplicate_state_names() {
    let r = AnimationData::new(
        String::from("player"),
        String::from("t.png"),
        tile(),
        1,
        1,
        vec![
            (String::from("idle-right"), successive_2_5()),
            (String::from("idle-right"), successive_2_5()),
        ],
    );
    assert_eq!(r.unwrap_err(), LoadError::DuplicateState);
}

#[test]
fn driver_resolves_frame_and_aims_target_on_timer_completion() {
    let data = sample_data();
    let mut timer = AnimationTimer::new(100);
    let mut cursor = PlayerStateComponent { state: PlayerState::WalkRight, index: 0 };
    let mut sprite_index: usize = 0;
    let mut target = Pos { x: 0, y: 0 };
    let position = Pos { x: 500, y: 600 };
    animate_sprite(&data, &mut timer, &mut cursor, &mut sprite_index, &mut target, position, 100);
    assert_eq!(sprite_index, 7);
    assert_eq!(cursor.index, 1);
    assert_eq!(target, Pos { x: 520, y: 601 });
}

#[test]
fn driver_does_nothing_before_timer_completion() {
    let data = sample_data();
    let mut timer = AnimationTimer::new(100);
    let mut cursor = PlayerStateComponent { state: PlayerState::WalkRight, index: 0 };
    let mut sprite_index: usize = 3;
    let mut target = Pos { x: 7, y: 8 };
    animate_sprite(
        &data,
        &mut timer,
        &mut cursor,
        &mut sprite_index,
        &mut target,
        Pos { x: 500, y: 600 },
        40,
    );
    assert_eq!(sprite_index, 3);
    assert_eq!(cursor.index, 0);
    assert_eq!(target, Pos { x: 7, y: 8 });
    assert_eq!(timer.elapsed_ms, 40);
}

#[test]
fn driver_lookup_miss_changes_nothing_over_repeated_ticks() {
    let data = sample_data();
    let mut timer = AnimationTimer::new(100);
    // The sample set has no "walk-left" entry.
    let mut cursor = PlayerStateComponent { state: PlayerState::WalkLeft, index: 2 };
    let mut sprite_index: usize = 9;
    let mut target = Pos { x: 7, y: 8 };
    for _ in 0..4 {
        animate_sprite(
            &data,
            &mut timer,
            &mut cursor,
            &mut sprite_index,
            &mut target,
            Pos { x: 500, y: 600 },
            100,
        );
        assert_eq!(sprite_index, 9);
        assert_eq!(cursor.index, 2);
        assert_eq!(cursor.state, PlayerState::WalkLeft);
        assert_eq!(target, Pos { x: 7, y: 8 });
    }
}

#[test]
fn timer_keeps_remainder_on_completion() {
    let mut timer = AnimationTimer::new(100);
    assert!(!timer.tick(60));
    assert_eq!(timer.elapsed_ms, 60);
    assert!(timer.tick(70));
    assert_eq!(timer.elapsed_ms, 30);
}

#[test]
fn cursor_defaults_to_idle_right() {
    let c = PlayerStateComponent::default();
    assert_eq!(c.state, PlayerState::IdleRight);
    assert_eq!(c.index, 0);
}

#[test]
fn interpolation_moves_strictly_closer_without_reaching_target() {
    // One tick of 99 ms at smoothing factor 10: the fraction 990/1000 is
    // strictly below one, so from 0 toward 10 pixels (10000 milli-pixels)
    // the position lands strictly between the two.
    let position: i64 = 0;
    let target: i64 = 10_000;
    let r = interpolate(position, target, 990, 1000);
    assert_eq!(r, 9_900);
    assert!(position < r && r < target);
}

#[test]
fn interpolation_with_full_fraction_reaches_target_exactly() {
    // 100 ms at smoothing factor 10 make the fraction exactly one, the
    // boundary case where one step covers the whole remaining distance.
    let r = interpolate(0, 10_000, 1000, 1000);
    assert_eq!(r, 10_000);
}

#[test]
fn interpolation_never_overshoots_from_either_side() {
    assert_eq!(interpolate(10_000, 0, 990, 1000), 100);
    let r = interpolate(-400, -1000, 500, 1000);
    assert_eq!(r, -700);
    assert!(-1000 < r && r < -400);
}
