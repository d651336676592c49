use move_vis::history::MoveVisConfig;
use move_vis::{record_history, History, HistoryTimer, Sample, Timer, TrackMovement};

fn s(v: i64) -> Sample {
    Sample { x: v, y: -v, z: 0 }
}

#[test]
fn timer_counts_up_to_its_duration() {
    let mut t = Timer::new(100);
    assert!(!t.finished());
    t.tick(40);
    assert_eq!(t.elapsed_us, 40);
    t.tick(1_000);
    assert_eq!(t.elapsed_us, 100);
    assert!(t.finished());
    t.reset();
    assert_eq!(t.elapsed_us, 0);
    assert!(!t.finished());
}

#[test]
fn paused_timer_ignores_ticks() {
    let mut t = Timer::new(100);
    t.pause();
    assert!(t.is_paused());
    t.tick(50);
    assert_eq!(t.elapsed_us, 0);
    t.unpause();
    t.tick(50);
    assert_eq!(t.elapsed_us, 50);
    t.tick(u64::MAX);
    assert_eq!(t.elapsed_us, 100);
}

#[test]
fn new_tracking_starts_paused_and_empty() {
    let config = MoveVisConfig::default();
    assert_eq!(config.track_duration_us, 2_000_000);
    let t = HistoryTimer::for_config(&config);
    assert!(t.0.is_paused());
    assert!(!t.0.finished());
    let h = History::new();
    assert!(h.velocity.is_empty() && h.distance.is_empty());
    let _marker = TrackMovement;
}

#[test]
fn nothing_is_recorded_before_movement() {
    let mut h = History::new();
    let mut t = HistoryTimer::for_config(&MoveVisConfig::default());
    record_history(&mut h, &mut t, false, s(1), s(2), 16_000);
    assert!(h.distance.is_empty());
    assert_eq!(t.0.elapsed_us, 0);
}

#[test]
fn movement_records_until_the_timer_finishes() {
    let mut h = History::new();
    let mut t = HistoryTimer::for_config(&MoveVisConfig { track_duration_us: 30_000 });
    record_history(&mut h, &mut t, true, s(1), s(10), 16_000);
    record_history(&mut h, &mut t, false, s(2), s(20), 16_000);
    assert!(t.0.finished());
    record_history(&mut h, &mut t, false, s(3), s(30), 16_000);
    assert_eq!(h.distance, vec![s(1), s(2)]);
    assert_eq!(h.velocity, vec![s(10), s(20)]);
}

#[test]
fn movement_after_finish_starts_a_new_recording() {
    let mut h = History::new();
    let mut t = HistoryTimer::for_config(&MoveVisConfig { track_duration_us: 10_000 });
    record_history(&mut h, &mut t, true, s(1), s(10), 16_000);
    assert!(t.0.finished());
    record_history(&mut h, &mut t, true, s(5), s(50), 4_000);
    assert_eq!(h.distance, vec![s(5)]);
    assert_eq!(h.velocity, vec![s(50)]);
    assert_eq!(t.0.elapsed_us, 4_000);
}

#[test]
fn zero_length_timer_finishes_on_its_first_tick() {
    let mut t = Timer::new(0);
    assert!(!t.finished());
    t.tick(0);
    assert!(t.finished());
    t.reset();
    assert!(!t.finished());
    t.pause();
    t.tick(5);
    assert!(!t.finished());
}

#[test]
fn zero_length_recording_takes_one_sample_per_restart() {
    let mut config = MoveVisConfig::default();
    config.set_track_duration_secs(0);
    let mut h = History::new();
    let mut t = HistoryTimer::for_config(&config);
    record_history(&mut h, &mut t, true, s(1), s(10), 16_000);
    assert_eq!(h.distance, vec![s(1)]);
    assert_eq!(h.velocity, vec![s(10)]);
    assert!(t.0.finished());
    record_history(&mut h, &mut t, false, s(2), s(20), 16_000);
    assert_eq!(h.distance, vec![s(1)]);
    record_history(&mut h, &mut t, true, s(3), s(30), 16_000);
    assert_eq!(h.distance, vec![s(3)]);
    assert_eq!(h.velocity, vec![s(30)]);
    assert!(t.0.finished());
    assert!(!t.0.is_paused());
}

#[test]
fn track_duration_in_seconds() {
    let mut c = MoveVisConfig::default();
    assert_eq!(c.track_duration_secs(), 2);
    c.set_track_duration_secs(20);
    assert_eq!(c.track_duration_us, 20_000_000);
    c.track_duration_us = 2_500_000;
    assert_eq!(c.track_duration_secs(), 2);
}
