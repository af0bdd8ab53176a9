use lyric_sync::clients::PlaybackInfo;
use lyric_sync::clock::{Accumulator, ClockConfig, EngineState};

const MS: u64 = 1_000_000;

fn config() -> ClockConfig {
    ClockConfig { step_duration: MS, resync_interval: 5000 * MS, max_frame_delta: 250 * MS }
}

#[test]
fn standard_config_has_the_usual_durations() {
    assert_eq!(ClockConfig::standard(), config());
}

#[test]
fn config_needs_a_step() {
    assert_eq!(ClockConfig::new(0, 5, 7), None);
    assert_eq!(
        ClockConfig::new(1, 5, 7),
        Some(ClockConfig { step_duration: 1, resync_interval: 5, max_frame_delta: 7 })
    );
}

#[test]
fn accumulator_hands_out_whole_steps_and_keeps_the_rest() {
    let mut acc = Accumulator::new();
    assert_eq!(acc.absorb(&config(), 2 * MS + 500_000), 2);
    assert_eq!(acc.carry, 500_000);
    assert_eq!(acc.absorb(&config(), 499_999), 0);
    assert_eq!(acc.carry, 999_999);
    assert_eq!(acc.absorb(&config(), 1), 1);
    assert_eq!(acc.carry, 0);
}

#[test]
fn accumulator_clamps_long_frames() {
    let mut acc = Accumulator::new();
    assert_eq!(acc.absorb(&config(), 10_000 * MS), 250);
    assert_eq!(acc.carry, 0);
    assert_eq!(acc.absorb(&config(), u64::MAX), 250);
    assert_eq!(acc.absorb(&config(), 250 * MS), 250);
    assert_eq!(acc.absorb(&config(), 250 * MS + 1), 250);
    assert_eq!(acc.carry, 0);
}

#[test]
fn accumulator_conserves_time_over_many_frames() {
    let deltas: [u64; 8] = [16_700_000, 33_400_000, 1, 999_999, 250 * MS, 123_456_789, 0, 7];
    let mut acc = Accumulator::new();
    let mut steps: u64 = 0;
    let mut total: u64 = 0;
    for d in deltas {
        steps += acc.absorb(&config(), d);
        total += d;
        assert_eq!(steps, total / MS);
        assert_eq!(acc.carry, total % MS);
    }
}

#[test]
fn accumulator_survives_extreme_configurations() {
    let wide = ClockConfig { step_duration: u64::MAX, resync_interval: 0, max_frame_delta: u64::MAX };
    let mut acc = Accumulator { carry: u64::MAX - 1 };
    assert_eq!(acc.absorb(&wide, u64::MAX), 1);
    assert_eq!(acc.carry, u64::MAX - 1);
    let fine = ClockConfig { step_duration: 1, resync_interval: 0, max_frame_delta: u64::MAX };
    let mut acc = Accumulator::new();
    assert_eq!(acc.absorb(&fine, u64::MAX), u64::MAX);
    assert_eq!(acc.carry, 0);
}

#[test]
fn tick_moves_the_estimate_forward_and_reports_the_crossing() {
    let state = EngineState { estimated_time: 1998 * MS, next_resync_at: 2000 * MS, paused: false };
    let state = state.tick(MS);
    assert_eq!(state.estimated_time, 1999 * MS);
    assert!(!state.due());
    let state = state.tick(MS);
    assert_eq!(state.estimated_time, 2000 * MS);
    assert!(!state.due());
    let state = state.tick(MS);
    assert_eq!(state, EngineState { estimated_time: 2001 * MS, next_resync_at: 2000 * MS, paused: false });
    assert!(state.due());
}

#[test]
fn tick_stops_at_the_end_of_time() {
    let state = EngineState { estimated_time: u64::MAX - 3, next_resync_at: u64::MAX, paused: false };
    let state = state.tick(10);
    assert_eq!(state.estimated_time, u64::MAX);
    assert!(!state.due());
    assert_eq!(state.tick(10).estimated_time, u64::MAX);
}

#[test]
fn new_state_asks_for_a_resync_at_once() {
    let state = EngineState::new(42 * MS);
    assert_eq!(state, EngineState { estimated_time: 42 * MS, next_resync_at: 0, paused: false });
    assert!(state.tick(MS).due());
    assert!(!EngineState::new(0).due());
}

#[test]
fn reconcile_while_playing_adopts_the_position_and_moves_the_resync_point() {
    let state = EngineState { estimated_time: 5001 * MS, next_resync_at: 5000 * MS, paused: true };
    assert_eq!(
        state.reconcile(&PlaybackInfo { position: Some(4900 * MS), playing: true }, 5000 * MS),
        EngineState { estimated_time: 4900 * MS, next_resync_at: 10_000 * MS, paused: false }
    );
}

#[test]
fn reconcile_without_a_position_keeps_the_estimate() {
    let state = EngineState { estimated_time: 5001 * MS, next_resync_at: 5000 * MS, paused: false };
    assert_eq!(
        state.reconcile(&PlaybackInfo { position: None, playing: true }, 5000 * MS),
        EngineState { estimated_time: 5001 * MS, next_resync_at: 10_000 * MS, paused: false }
    );
}

#[test]
fn reconcile_while_paused_rolls_back_and_keeps_the_resync_point() {
    let state = EngineState { estimated_time: 2200 * MS, next_resync_at: 2000 * MS, paused: false };
    assert_eq!(
        state.reconcile(&PlaybackInfo { position: Some(1800 * MS), playing: false }, 5000 * MS),
        EngineState { estimated_time: 1800 * MS, next_resync_at: 2000 * MS, paused: true }
    );
}

#[test]
fn reconcile_while_paused_takes_an_estimate_beyond_the_resync_point_back_to_it() {
    let state = EngineState { estimated_time: 2001 * MS, next_resync_at: 2000 * MS, paused: false };
    let held = EngineState { estimated_time: 2000 * MS, next_resync_at: 2000 * MS, paused: true };
    assert_eq!(state.reconcile(&PlaybackInfo { position: None, playing: false }, 5000 * MS), held);
    assert_eq!(
        state.reconcile(&PlaybackInfo { position: Some(2700 * MS), playing: false }, 5000 * MS),
        held
    );
}

#[test]
fn resync_point_stops_at_the_end_of_time() {
    let state = EngineState { estimated_time: 7, next_resync_at: u64::MAX - 1, paused: false };
    let state = state.reconcile(&PlaybackInfo { position: None, playing: true }, 5000 * MS);
    assert_eq!(state.next_resync_at, u64::MAX);
}

#[test]
fn ticks_between_resyncs_never_take_the_estimate_back() {
    let mut state = EngineState::new(0).reconcile(&PlaybackInfo { position: Some(3 * MS), playing: true }, 50 * MS);
    let mut last = state.estimated_time;
    let mut steps = 0;
    while !state.due() {
        state = state.tick(MS);
        assert!(state.estimated_time > last);
        last = state.estimated_time;
        steps += 1;
    }
    assert_eq!(steps, 48);
    assert_eq!(state.estimated_time, 51 * MS);
}
