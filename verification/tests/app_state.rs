use led_control::app_state::{AppState, DriverError, LedState};
use led_control::color::Rgb;
use led_control::level::Level;
use std::sync::Arc;

#[test]
fn try_new_with_working_driver_holds_the_color() {
    let state = AppState::try_new(Rgb::new(1, 2, 3), Ok(())).unwrap();
    assert_eq!(state.rgb_val, Rgb::new(1, 2, 3));
    assert_eq!(state.read(), Rgb::new(1, 2, 3));
}

#[test]
fn try_new_with_failed_driver_gives_its_error() {
    assert_eq!(AppState::try_new(Rgb::new(1, 2, 3), Err(DriverError)), Err(DriverError));
}

#[test]
fn set_rgb_commits_after_the_driver_succeeded() {
    let mut state = AppState { rgb_val: Rgb::new(0, 0, 0) };
    assert_eq!(state.set_rgb(Rgb::new(0, 255, 0), Ok(())), Ok(()));
    assert_eq!(state.read(), Rgb::new(0, 255, 0));
}

#[test]
fn set_rgb_keeps_the_color_when_the_driver_failed() {
    let mut state = AppState { rgb_val: Rgb::new(9, 8, 7) };
    assert_eq!(state.set_rgb(Rgb::new(0, 255, 0), Err(DriverError)), Err(DriverError));
    assert_eq!(state.read(), Rgb::new(9, 8, 7));
}

#[test]
fn read_returns_the_latest_successful_write() {
    let mut state = AppState { rgb_val: Rgb::new(0, 0, 0) };
    let writes = [
        (Rgb::new(1, 1, 1), Ok(())),
        (Rgb::new(2, 2, 2), Err(DriverError)),
        (Rgb::new(3, 3, 3), Ok(())),
        (Rgb::new(4, 4, 4), Err(DriverError)),
    ];
    let expected = [Rgb::new(1, 1, 1), Rgb::new(1, 1, 1), Rgb::new(3, 3, 3), Rgb::new(3, 3, 3)];
    for (write, seen) in writes.iter().zip(expected.iter()) {
        let _ = state.set_rgb(write.0, write.1);
        assert_eq!(state.read(), *seen);
    }
}

#[test]
fn shared_color_state_is_reached_through_the_lock() {
    let shared = AppState { rgb_val: Rgb::new(5, 6, 7) }.shared();
    let other = shared.clone();
    assert_eq!(other.lock().unwrap().read(), Rgb::new(5, 6, 7));
    other.lock().unwrap().set_rgb(Rgb::new(7, 6, 5), Ok(())).unwrap();
    assert_eq!(shared.lock().unwrap().rgb_val, Rgb::new(7, 6, 5));
}

#[test]
fn led_state_starts_low() {
    assert_eq!(LedState::new().read(), Level::Low);
    assert_eq!(LedState::default().led, Level::Low);
}

#[test]
fn led_state_reads_the_last_write() {
    let mut state = LedState::new();
    for level in [Level::High, Level::High, Level::Low, Level::High] {
        state.write(level);
        assert_eq!(state.read(), level);
    }
}

#[test]
fn shared_led_state_is_reached_through_the_lock() {
    let shared = LedState::new().shared();
    shared.lock().unwrap().write(Level::High);
    assert_eq!(shared.clone().lock().unwrap().led, Level::High);
}

#[test]
fn shared_color_state_starts_with_the_state_it_was_made_from() {
    let state = AppState::try_new(Rgb::new(12, 34, 56), Ok(())).unwrap();
    let shared = state.shared();
    assert_eq!(Arc::strong_count(&shared), 1);
    assert!(!shared.is_poisoned());
    assert_eq!(*shared.lock().unwrap(), AppState { rgb_val: Rgb::new(12, 34, 56) });
}

#[test]
fn shared_led_state_starts_with_the_state_it_was_made_from() {
    for level in [Level::Low, Level::High] {
        let shared = LedState { led: level }.shared();
        assert_eq!(Arc::strong_count(&shared), 1);
        assert!(!shared.is_poisoned());
        assert_eq!(*shared.lock().unwrap(), LedState { led: level });
    }
}
