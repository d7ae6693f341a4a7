use eye_rest::cycle::{resolve_rest_type, BreakCycle, Mode, RestType, TickOutcome};
use eye_rest::overlay::{MonitorDescriptor, OverlayManager};
use eye_rest::state::AppState;

const WORK_MS: u64 = 20 * 60_000;
const REST_MS: u64 = 20_000;

#[test]
fn escalation_walk_takes_priority() {
    assert_eq!(resolve_rest_type(6, 2, 3), RestType::Walk);
}

#[test]
fn escalation_water() {
    assert_eq!(resolve_rest_type(4, 2, 3), RestType::Water);
}

#[test]
fn escalation_first_rest_is_plain() {
    for water in 2..8u32 {
        for walk in 2..8u32 {
            assert_eq!(resolve_rest_type(1, water, walk), RestType::EyeRest);
        }
    }
}

#[test]
fn defaults_at_startup() {
    let c = BreakCycle::new(7);
    assert_eq!(c.mode(), Mode::Work);
    assert!(!c.is_paused());
    assert_eq!(c.work_minutes(), 20);
    assert_eq!(c.rest_seconds(), 20);
    assert_eq!(c.water_interval(), 2);
    assert_eq!(c.walk_interval(), 3);
    assert_eq!(c.eye_rest_count(), 0);
    assert_eq!(c.start_ms(), 7);
    assert_eq!(c.last_tick_ms(), 7);
}

#[test]
fn work_ends_exactly_at_work_duration() {
    let mut c = BreakCycle::new(1_000);
    let o = c.tick(1_000 + WORK_MS - 1);
    assert_eq!(o, TickOutcome::Countdown { mode: Mode::Work, remaining_ms: 1, limit_ms: WORK_MS });
    assert_eq!(c.mode(), Mode::Work);
    let o = c.tick(1_000 + WORK_MS);
    assert_eq!(o, TickOutcome::RestBegins { rest_type: RestType::EyeRest, rest_ms: REST_MS });
    assert_eq!(c.mode(), Mode::Rest);
    assert_eq!(c.eye_rest_count(), 1);
    assert_eq!(c.start_ms(), 1_000 + WORK_MS);
}

#[test]
fn repeated_ticks_by_work_duration_alternate_modes() {
    let mut c = BreakCycle::new(0);
    let mut now = 0u64;
    for round in 1..=6u32 {
        now += WORK_MS;
        let o = c.tick(now);
        let expected = resolve_rest_type(round, 2, 3);
        assert_eq!(o, TickOutcome::RestBegins { rest_type: expected, rest_ms: REST_MS });
        assert_eq!(c.eye_rest_count(), round);
        assert_eq!(c.current_rest_type(), expected);
        now += REST_MS;
        assert_eq!(c.tick(now), TickOutcome::WorkBegins { work_ms: WORK_MS });
        assert_eq!(c.mode(), Mode::Work);
    }
}

#[test]
fn progress_strictly_decreases_within_a_mode() {
    let mut c = BreakCycle::new(0);
    let mut last_remaining = WORK_MS + 1;
    for t in [0u64, 1, 100, 60_000, 600_000, WORK_MS - 1] {
        match c.tick(t) {
            TickOutcome::Countdown { remaining_ms, limit_ms, mode } => {
                assert_eq!(mode, Mode::Work);
                assert_eq!(limit_ms, WORK_MS);
                assert_eq!(remaining_ms, WORK_MS - t);
                assert!(remaining_ms < last_remaining);
                assert!(remaining_ms > 0);
                last_remaining = remaining_ms;
            }
            other => panic!("unexpected {:?}", other),
        }
    }
}

#[test]
fn pause_freezes_elapsed_time() {
    let mut c = BreakCycle::new(0);
    c.tick(1_000);
    let before = c.last_tick_ms() - c.start_ms();
    assert_eq!(before, 1_000);
    assert!(c.toggle_pause());
    assert_eq!(c.tick(5_000), TickOutcome::Paused);
    assert_eq!(c.tick(3_600_000), TickOutcome::Paused);
    assert!(!c.toggle_pause());
    assert_eq!(c.last_tick_ms() - c.start_ms(), before);
    assert_eq!(c.mode(), Mode::Work);
    let o = c.tick(3_600_100);
    assert_eq!(o, TickOutcome::Countdown { mode: Mode::Work, remaining_ms: WORK_MS - 1_100, limit_ms: WORK_MS });
}

#[test]
fn pause_longer_than_work_does_not_start_rest() {
    let mut c = BreakCycle::new(0);
    c.toggle_pause();
    assert_eq!(c.tick(WORK_MS * 3), TickOutcome::Paused);
    c.toggle_pause();
    assert!(matches!(c.tick(WORK_MS * 3), TickOutcome::Countdown { .. }));
    assert_eq!(c.eye_rest_count(), 0);
}

#[test]
fn secondary_action_during_work_restarts_countdown() {
    let mut c = BreakCycle::new(0);
    c.tick(500_000);
    assert!(!c.secondary_action(600_000));
    assert_eq!(c.mode(), Mode::Work);
    assert_eq!(c.start_ms(), 600_000);
    assert_eq!(
        c.tick(600_000),
        TickOutcome::Countdown { mode: Mode::Work, remaining_ms: WORK_MS, limit_ms: WORK_MS }
    );
}

#[test]
fn apply_work_minutes_clamps_and_restarts() {
    let mut c = BreakCycle::new(0);
    c.tick(1_000);
    assert_eq!(c.apply_work_minutes(0, 2_000), 1);
    assert_eq!(c.work_ms(), 60_000);
    assert_eq!(c.start_ms(), 2_000);
    assert_eq!(c.last_tick_ms(), 2_000);
    assert_eq!(c.apply_work_minutes(500, 3_000), 180);
    assert_eq!(c.work_minutes(), 180);
    assert_eq!(c.apply_work_minutes(45, 4_000), 45);
    assert_eq!(c.work_ms(), 45 * 60_000);
}

#[test]
fn apply_work_minutes_during_rest_keeps_rest_timing() {
    let mut c = BreakCycle::new(0);
    c.tick(WORK_MS);
    assert_eq!(c.mode(), Mode::Rest);
    assert_eq!(c.apply_work_minutes(30, WORK_MS + 5_000), 30);
    assert_eq!(c.start_ms(), WORK_MS);
    assert_eq!(c.mode(), Mode::Rest);
}

#[test]
fn apply_rest_and_interval_settings_clamp() {
    let mut c = BreakCycle::new(0);
    assert_eq!(c.apply_rest_seconds(1), 5);
    assert_eq!(c.rest_ms(), 5_000);
    assert_eq!(c.apply_rest_seconds(1_000), 300);
    assert_eq!(c.rest_seconds(), 300);
    assert_eq!(c.apply_rest_seconds(42), 42);
    assert_eq!(c.apply_water_interval(0), 1);
    assert_eq!(c.water_interval(), 1);
    assert_eq!(c.apply_water_interval(99), 20);
    assert_eq!(c.apply_walk_interval(-3), 1);
    assert_eq!(c.apply_walk_interval(21), 20);
    assert_eq!(c.apply_walk_interval(4), 4);
    assert_eq!(c.walk_interval(), 4);
}

#[test]
fn manual_skip_during_rest_forces_work_and_clears_overlays() {
    let mut st: AppState<u32> = AppState::new(0);
    let (o, released) = st.tick(WORK_MS);
    assert!(matches!(o, TickOutcome::RestBegins { .. }));
    assert!(released.is_empty());
    let m = MonitorDescriptor { x: 0, y: 0, width: 800, height: 600, scale_permille: 1000 };
    st.overlays.show_rest_overlay(vec![(m, Some(1)), (m, Some(2))]);
    assert_eq!(st.overlays.len(), 2);
    st.minimize_to_tray();
    let count = st.cycle.eye_rest_count();
    let released = st.secondary_action(WORK_MS + 3_000);
    assert_eq!(st.cycle.mode(), Mode::Work);
    assert_eq!(st.cycle.eye_rest_count(), count);
    assert!(st.overlays.is_empty());
    assert_eq!(released.iter().map(|o| o.surface).collect::<Vec<_>>(), vec![1, 2]);
    assert!(st.main_window_visible);
}

#[test]
fn end_of_rest_tears_down_overlays() {
    let mut st: AppState<u32> = AppState::new(0);
    st.tick(WORK_MS);
    let m = MonitorDescriptor { x: 0, y: 0, width: 800, height: 600, scale_permille: 1000 };
    st.overlays.show_rest_overlay(vec![(m, Some(9))]);
    let (o, released) = st.tick(WORK_MS + REST_MS - 1);
    assert!(matches!(o, TickOutcome::Countdown { mode: Mode::Rest, remaining_ms: 1, .. }));
    assert!(released.is_empty());
    assert_eq!(st.overlays.len(), 1);
    let (o, released) = st.tick(WORK_MS + REST_MS);
    assert_eq!(o, TickOutcome::WorkBegins { work_ms: WORK_MS });
    assert_eq!(released.len(), 1);
    assert!(st.overlays.is_empty());
    assert!(st.main_window_visible);
}

#[test]
fn tray_visibility_switches() {
    let mut st: AppState<u32> = AppState::new(0);
    assert!(st.main_window_visible);
    st.minimize_to_tray();
    assert!(!st.main_window_visible);
    st.show_main_window();
    assert!(st.main_window_visible);
    let empty: OverlayManager<u32> = OverlayManager::new();
    assert!(empty.is_empty());
}
