use telemetry_node::slot::NotificationSlot;
use telemetry_node::slot::SlotTag;
use telemetry_node::source::button_press;
use telemetry_node::source::timer_trigger;
use telemetry_node::source::TIMER_PERIOD_SECS;

#[test]
fn new_slot_is_empty() {
    let mut slot = NotificationSlot::new();
    assert!(!slot.is_pending());
    assert_eq!(slot.read(), None);
    assert_eq!(slot.read(), None);
}

#[test]
fn read_yields_the_tag_written_last() {
    let mut slot = NotificationSlot::new();
    slot.write(SlotTag::ButtonPressed);
    slot.write(SlotTag::TimerFired);
    slot.write(SlotTag::TimerFired);
    slot.write(SlotTag::ButtonPressed);
    assert!(slot.is_pending());
    assert_eq!(slot.read(), Some(SlotTag::ButtonPressed));
}

#[test]
fn second_read_without_write_is_empty() {
    let mut slot = NotificationSlot::new();
    slot.write(SlotTag::TimerFired);
    assert_eq!(slot.read(), Some(SlotTag::TimerFired));
    assert!(!slot.is_pending());
    assert_eq!(slot.read(), None);
    assert_eq!(slot.read(), None);
}

#[test]
fn write_after_read_is_seen() {
    let mut slot = NotificationSlot::new();
    slot.write(SlotTag::TimerFired);
    assert_eq!(slot.read(), Some(SlotTag::TimerFired));
    slot.write(SlotTag::ButtonPressed);
    assert_eq!(slot.read(), Some(SlotTag::ButtonPressed));
    assert_eq!(slot.read(), None);
}

#[test]
fn reset_discards_the_pending_tag() {
    let mut slot = NotificationSlot::new();
    slot.write(SlotTag::ButtonPressed);
    slot.reset();
    assert!(!slot.is_pending());
    assert_eq!(slot.read(), None);
}

#[test]
fn sources_leave_their_own_tag() {
    let mut slot = NotificationSlot::new();
    button_press(&mut slot);
    assert_eq!(slot.read(), Some(SlotTag::ButtonPressed));
    timer_trigger(&mut slot);
    assert_eq!(slot.read(), Some(SlotTag::TimerFired));
}

#[test]
fn interleaved_sources_latest_wins() {
    let mut slot = NotificationSlot::new();
    timer_trigger(&mut slot);
    button_press(&mut slot);
    timer_trigger(&mut slot);
    assert_eq!(slot.read(), Some(SlotTag::TimerFired));
    assert_eq!(slot.read(), None);
}

#[test]
fn timer_period_is_five_seconds() {
    assert_eq!(TIMER_PERIOD_SECS, 5);
}
