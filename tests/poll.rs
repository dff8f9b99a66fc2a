use temp_server::poll::{
    poll_once, sensed_reading, settle, tick_reading, SIMULATED_HIGH, SIMULATED_LOW,
};
use temp_server::slot::AppState;

fn sensor_lines(second: &str) -> Option<Vec<String>> {
    Some(vec!["aa YES".to_string(), second.to_string()])
}

#[test]
fn fallback_values_stay_in_bounds_and_come_four_times_in_five() {
    let trials = 10_000;
    let mut kept = 0;
    for _ in 0..trials {
        if let Some(v) = tick_reading(&None) {
            assert!(SIMULATED_LOW <= v && v < SIMULATED_HIGH);
            assert!((15.0..30.0).contains(&(v as f64 / 1_000_000.0)));
            kept += 1;
        }
    }
    let share = kept as f64 / trials as f64;
    assert!((0.75..=0.85).contains(&share), "share {}", share);
}

#[test]
fn fallback_values_spread_over_the_range() {
    let mut low = i64::MAX;
    let mut high = i64::MIN;
    for _ in 0..2_000 {
        if let Some(v) = tick_reading(&None) {
            low = low.min(v);
            high = high.max(v);
        }
    }
    assert!(low < 16_000_000 && high >= 29_000_000, "{} {}", low, high);
}

#[test]
fn tick_for_given_draws() {
    assert_eq!(settle(None, true, 17_250_000), Some(17_250_000));
    assert_eq!(settle(None, false, 17_250_000), None);
    assert_eq!(settle(Some(-3), true, 17_250_000), Some(-3));
    assert_eq!(settle(Some(-3), false, 17_250_000), Some(-3));
}

#[test]
fn sensed_reading_of_lines() {
    assert_eq!(sensed_reading(&sensor_lines("bb t=23562")), Some(23_562_000));
    assert_eq!(sensed_reading(&None), None);
}

#[test]
fn sensor_reading_wins_over_fallback() {
    let lines = sensor_lines("bb t=23562");
    for _ in 0..100 {
        assert_eq!(tick_reading(&lines), Some(23_562_000));
    }
}

#[test]
fn decimal_reading_is_published() {
    let mut state = AppState::new();
    let lines = sensor_lines("bb t=  -1250.5  ");
    assert_eq!(poll_once(&mut state, &lines), Some(-1_250_500));
    let degrees = state.read().unwrap() as f64 / 1_000_000.0;
    assert!((degrees - -1.2505).abs() <= 0.000001);
}

#[test]
fn unreadable_or_invalid_sensor_falls_back() {
    let invalid = Some(vec!["a NO".to_string(), "b t=23562".to_string()]);
    for lines in [None, invalid] {
        for _ in 0..100 {
            if let Some(v) = tick_reading(&lines) {
                assert!((15_000_000..30_000_000).contains(&v));
            }
        }
    }
}

#[test]
fn poll_publishes_its_reading() {
    let mut state = AppState::new();
    assert_eq!(state.read(), None);
    assert_eq!(poll_once(&mut state, &sensor_lines("bb t=-500")), Some(-500_000));
    assert_eq!(state.read(), Some(-500_000));
    let r = poll_once(&mut state, &None);
    assert_eq!(state.read(), r);
}

#[test]
fn state_keeps_the_last_write() {
    let mut state = AppState::new();
    state.write(Some(21_400_000));
    assert_eq!(state.read(), Some(21_400_000));
    state.write(None);
    assert_eq!(state.read(), None);
    state.write(Some(1));
    state.write(Some(2));
    assert_eq!(state.read(), Some(2));
}
