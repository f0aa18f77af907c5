use gpttrans::hotkey::{HotkeyEffect, HotkeyEvent, HotkeySignal, HotkeyState};

#[test]
fn the_listener_walks_its_lifecycle() {
    let mut h = HotkeySignal::new();
    assert_eq!(h.current_state(), HotkeyState::Unregistered);
    assert!(h.step(HotkeyEvent::BindSucceeded).is_empty());
    assert_eq!(h.current_state(), HotkeyState::Registered);
    assert!(h.step(HotkeyEvent::PumpStarted).is_empty());
    assert_eq!(h.current_state(), HotkeyState::Listening);
    let effects = h.step(HotkeyEvent::Shutdown);
    assert!(matches!(effects[..], [HotkeyEffect::Unbind]));
    assert_eq!(h.current_state(), HotkeyState::Unregistered);
}

#[test]
fn a_rapid_double_press_yields_two_signals() {
    let mut h = HotkeySignal::new();
    h.step(HotkeyEvent::BindSucceeded);
    h.step(HotkeyEvent::PumpStarted);
    let first = h.step(HotkeyEvent::KeyPressed);
    let second = h.step(HotkeyEvent::KeyPressed);
    assert!(matches!(first[..], [HotkeyEffect::EmitSignal]));
    assert!(matches!(second[..], [HotkeyEffect::EmitSignal]));
    assert_eq!(h.current_state(), HotkeyState::Listening);
}

#[test]
fn a_failed_bind_is_reported_once_and_stops_the_listener() {
    let mut h = HotkeySignal::new();
    let effects = h.step(HotkeyEvent::BindFailed);
    assert!(matches!(effects[..], [HotkeyEffect::NoticeBindFailed]));
    assert_eq!(h.current_state(), HotkeyState::Failed);
    // Further events, another failure included, report nothing more.
    assert!(h.step(HotkeyEvent::BindFailed).is_empty());
    assert!(h.step(HotkeyEvent::KeyPressed).is_empty());
    assert_eq!(h.current_state(), HotkeyState::Failed);
}

#[test]
fn key_events_outside_listening_emit_nothing() {
    let mut h = HotkeySignal::new();
    assert!(h.step(HotkeyEvent::KeyPressed).is_empty());
    h.step(HotkeyEvent::BindSucceeded);
    assert!(h.step(HotkeyEvent::KeyPressed).is_empty());
}

#[test]
fn a_broken_pump_releases_the_binding() {
    let mut h = HotkeySignal::new();
    h.step(HotkeyEvent::BindSucceeded);
    h.step(HotkeyEvent::PumpStarted);
    let effects = h.step(HotkeyEvent::PumpFailed);
    assert!(matches!(effects[..], [HotkeyEffect::Unbind]));
    assert_eq!(h.current_state(), HotkeyState::Unregistered);
}
