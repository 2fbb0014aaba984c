use led_control::level::{reconcile, Level, ReasonCode, FORCE_HIGH, FORCE_LOW, INVERT};

fn level_code(value: u32) -> ReasonCode {
    ReasonCode::new(value).unwrap()
}

#[test]
fn zero_is_no_reason_code() {
    assert_eq!(ReasonCode::new(0), None);
}

#[test]
fn reason_code_keeps_its_number() {
    assert_eq!(level_code(1).get(), 1);
    assert_eq!(level_code(3).get(), 3);
    assert_eq!(level_code(u32::MAX).get(), u32::MAX);
}

#[test]
fn named_codes_have_their_numbers() {
    assert_eq!(FORCE_LOW, 1);
    assert_eq!(FORCE_HIGH, 2);
    assert_eq!(INVERT, 3);
    assert_eq!(ReasonCode::invert().get(), 3);
}

#[test]
fn invert_gives_the_other_level() {
    assert_eq!(Level::Low.invert(), Level::High);
    assert_eq!(Level::High.invert(), Level::Low);
}

#[test]
fn code_one_forces_low() {
    assert_eq!(reconcile(level_code(1), Level::Low), Level::Low);
    assert_eq!(reconcile(level_code(1), Level::High), Level::Low);
}

#[test]
fn code_two_forces_high() {
    assert_eq!(reconcile(level_code(2), Level::Low), Level::High);
    assert_eq!(reconcile(level_code(2), Level::High), Level::High);
}

#[test]
fn code_three_inverts_previous_level() {
    assert_eq!(reconcile(level_code(3), Level::Low), Level::High);
    assert_eq!(reconcile(level_code(3), Level::High), Level::Low);
}

#[test]
fn other_codes_are_taken_as_low() {
    for value in [4u32, 5, 7, 255, 65_536, u32::MAX] {
        assert_eq!(reconcile(level_code(value), Level::Low), Level::Low);
        assert_eq!(reconcile(level_code(value), Level::High), Level::Low);
    }
}

#[test]
fn forcing_twice_equals_forcing_once() {
    for value in [1u32, 2] {
        for previous in [Level::Low, Level::High] {
            let once = reconcile(level_code(value), previous);
            let twice = reconcile(level_code(value), once);
            assert_eq!(twice, once);
        }
    }
}

#[test]
fn inverting_twice_gives_the_level_back() {
    for previous in [Level::Low, Level::High] {
        let once = reconcile(level_code(3), previous);
        assert_ne!(once, previous);
        assert_eq!(reconcile(level_code(3), once), previous);
    }
}

#[test]
fn forcing_code_of_a_level_forces_it() {
    assert_eq!(Level::Low.forcing_code().get(), 1);
    assert_eq!(Level::High.forcing_code().get(), 2);
    for level in [Level::Low, Level::High] {
        for previous in [Level::Low, Level::High] {
            assert_eq!(reconcile(level.forcing_code(), previous), level);
        }
    }
}
