use surface_dial::dial::{dial_event_from_input, is_event_node, is_surface_dial, DialEvent, RotationAccumulator, BTN_0, EV_KEY, EV_REL, REL_DIAL};

#[test]
fn rotation_events() {
    assert_eq!(dial_event_from_input(EV_REL, REL_DIAL, -3), Some(DialEvent::Rotate(-3)));
    assert_eq!(dial_event_from_input(2, 7, 12), Some(DialEvent::Rotate(12)));
    assert_eq!(dial_event_from_input(2, 7, 0), Some(DialEvent::Rotate(0)));
}

#[test]
fn click_is_button_press_only() {
    assert_eq!(dial_event_from_input(EV_KEY, BTN_0, 1), Some(DialEvent::Click));
    assert_eq!(dial_event_from_input(1, 256, 0), None);
    assert_eq!(dial_event_from_input(1, 256, 2), None);
    assert_eq!(dial_event_from_input(1, 257, 1), None);
}

#[test]
fn other_events_are_ignored() {
    assert_eq!(dial_event_from_input(2, 8, 1), None);
    assert_eq!(dial_event_from_input(0, 0, 0), None);
    assert_eq!(dial_event_from_input(1, 7, 1), None);
    assert_eq!(dial_event_from_input(2, 256, 1), None);
}

#[test]
fn event_nodes() {
    assert!(is_event_node("/dev/input/event5"));
    assert!(is_event_node("/event"));
    assert!(!is_event_node("/dev/input/mouse0"));
    assert!(!is_event_node("/dev/input/even"));
    assert!(!is_event_node(""));
}

#[test]
fn dial_device_name() {
    assert!(is_surface_dial(Some("Surface Dial System Multi Axis")));
    assert!(!is_surface_dial(Some("Surface Dial System")));
    assert!(!is_surface_dial(Some("Surface Dial System Multi Axis ")));
    assert!(!is_surface_dial(None));
}

#[test]
fn accumulator_counts_directions_inverted() {
    let mut a = RotationAccumulator::new();
    assert_eq!(a.pending(), 0);
    a.record(5);
    a.record(3);
    a.record(-1);
    assert_eq!(a.pending(), -1);
    assert_eq!(a.take_direction(), -1);
    assert_eq!(a.pending(), 0);
    assert_eq!(a.take_direction(), 0);
}

#[test]
fn accumulator_jitter_cancels() {
    let mut a = RotationAccumulator::new();
    a.record(-7);
    a.record(2);
    assert_eq!(a.take_direction(), 0);
    a.record(-1);
    a.record(-1);
    a.record(4);
    assert_eq!(a.take_direction(), 1);
}

#[test]
fn accumulator_zero_rotation_counts_nothing() {
    let mut a = RotationAccumulator::new();
    a.record(0);
    assert_eq!(a.pending(), 0);
    assert!(a.can_record(1));
    assert!(a.can_record(-1));
    assert!(a.can_record(0));
}
