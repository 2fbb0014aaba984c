use led_control::level::ReasonCode;
use led_control::signal::SignalSlot;

fn signal_code(value: u32) -> ReasonCode {
    ReasonCode::new(value).unwrap()
}

#[test]
fn new_slot_is_empty() {
    let mut slot = SignalSlot::new();
    assert_eq!(slot.pending, None);
    assert_eq!(slot.take(), None);
}

#[test]
fn posted_code_is_taken_once() {
    let mut slot = SignalSlot::new();
    slot.post(signal_code(3));
    assert_eq!(slot.take(), Some(signal_code(3)));
    assert_eq!(slot.take(), None);
}

#[test]
fn post_without_consumer_is_retained() {
    let mut slot = SignalSlot::new();
    slot.post(signal_code(1));
    assert_eq!(slot.pending, Some(signal_code(1)));
}

#[test]
fn two_posts_coalesce_to_the_second() {
    let mut slot = SignalSlot::new();
    slot.post(signal_code(2));
    slot.post(signal_code(3));
    assert_eq!(slot.take(), Some(signal_code(3)));
    assert_eq!(slot.take(), None);
}

#[test]
fn many_posts_leave_only_the_last() {
    let mut slot = SignalSlot::new();
    for value in [1u32, 2, 3, 2, 1, 3, 7] {
        slot.post(signal_code(value));
    }
    assert_eq!(slot.take(), Some(signal_code(7)));
    assert_eq!(slot.take(), None);
}

#[test]
fn post_after_take_is_seen() {
    let mut slot = SignalSlot::new();
    slot.post(signal_code(2));
    assert_eq!(slot.take(), Some(signal_code(2)));
    slot.post(signal_code(1));
    assert_eq!(slot.take(), Some(signal_code(1)));
}
