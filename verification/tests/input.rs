use rust_embedded_wgpu::input::{esc_pressed, EscAction, EscListener, InputEvent};

fn event(event_type: u16, code: u16, value: i32) -> InputEvent {
    InputEvent { event_type, code, value }
}

#[test]
fn only_a_pressed_esc_counts() {
    assert!(event(1, 1, 1).is_esc_press());
    assert!(!event(1, 1, 0).is_esc_press());
    assert!(!event(1, 1, 2).is_esc_press());
    assert!(!event(1, 2, 1).is_esc_press());
    assert!(!event(2, 1, 1).is_esc_press());
    assert!(!event(0, 1, 1).is_esc_press());
    assert!(!event(0x15, 1, 1).is_esc_press());
}

#[test]
fn raw_fields_are_those_of_evdev() {
    let pressed = evdev::InputEvent::new(evdev::EventType::KEY, evdev::Key::KEY_ESC.code(), 1);
    assert!(event(pressed.event_type().0, pressed.code(), pressed.value()).is_esc_press());
    let other = evdev::InputEvent::new(evdev::EventType::KEY, evdev::Key::KEY_ENTER.code(), 1);
    assert!(!event(other.event_type().0, other.code(), other.value()).is_esc_press());
    let axis = evdev::InputEvent::new(evdev::EventType::RELATIVE, 1, 1);
    assert!(!event(axis.event_type().0, axis.code(), axis.value()).is_esc_press());
}

#[test]
fn a_batch_is_searched() {
    assert!(!esc_pressed(&[]));
    assert!(esc_pressed(&[event(0, 0, 0), event(1, 1, 1)]));
    assert!(!esc_pressed(&[event(0, 0, 0), event(1, 1, 0)]));
}

#[test]
fn devices_are_polled_in_turn() {
    let mut listener = EscListener::spawn_esc_listener(2);
    for round in 0..3 {
        assert_eq!(listener.action(), EscAction::Fetch { device: 0 });
        listener.on_events(if round == 1 { None } else { Some(&[]) });
        assert_eq!(listener.action(), EscAction::Fetch { device: 1 });
        listener.on_events(Some(&[event(1, 30, 1)]));
        assert_eq!(listener.action(), EscAction::Pause { millis: 10 });
        listener.on_pause_over();
    }
    listener.on_events(Some(&[]));
    listener.on_events(Some(&[event(1, 1, 1)]));
    assert_eq!(listener.action(), EscAction::Signal);
}

#[test]
fn without_devices_the_listener_only_pauses() {
    let mut listener = EscListener::spawn_esc_listener(0);
    assert_eq!(listener.action(), EscAction::Pause { millis: 10 });
    listener.on_pause_over();
    assert_eq!(listener.action(), EscAction::Pause { millis: 10 });
}
