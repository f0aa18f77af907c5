use gpttrans::clipboard::ClipboardPayload;
use gpttrans::config::{Config, ProviderKind};
use gpttrans::coordinator::{CoordAction, CoordEvent, Coordinator, Phase};
use gpttrans::session::TranslateError;

fn ready_config() -> Config {
    let mut c = Config::from_parts(None, None, None, None, None, None);
    c.openai_api_key = String::from("k");
    c
}

fn text_payload(s: &str) -> ClipboardPayload {
    ClipboardPayload::Text(String::from(s))
}

#[test]
fn a_trigger_runs_through_all_phases() {
    let cfg = ready_config();
    let mut co = Coordinator::new();
    assert_eq!(co.current_phase(), Phase::Idle);

    let acts = co.step(CoordEvent::Hotkey, &cfg);
    assert!(matches!(acts[..], [CoordAction::StartCapture]));
    assert_eq!(co.current_phase(), Phase::Capturing);

    let acts = co.step(CoordEvent::Captured(text_payload("Bonjour")), &cfg);
    assert_eq!(co.current_phase(), Phase::Translating);
    assert!(acts
        .iter()
        .any(|a| matches!(a, CoordAction::SetLoading(true))));
    let req = acts.iter().find_map(|a| match a {
        CoordAction::StartRequest(r) => Some(r),
        _ => None,
    });
    let req = req.expect("a usable payload must start a request");
    assert_eq!(req.model, "gpt-4o-mini");
    assert_eq!(req.api_key, "k");

    let acts = co.step(
        CoordEvent::StreamDone(Ok(String::from("Hello"))),
        &cfg,
    );
    assert_eq!(co.current_phase(), Phase::Delivering);
    assert!(acts
        .iter()
        .any(|a| matches!(a, CoordAction::WriteClipboard(t) if t == "Hello")));

    let acts = co.step(CoordEvent::Delivered(true), &cfg);
    assert!(matches!(acts[..], [CoordAction::NoticeCopied]));
    assert_eq!(co.current_phase(), Phase::Idle);
}

#[test]
fn missing_key_stops_a_trigger_at_once() {
    let cfg = Config::from_parts(None, None, None, None, None, None); // empty token
    let mut co = Coordinator::new();
    let acts = co.step(CoordEvent::Hotkey, &cfg);
    assert!(matches!(acts[..], [CoordAction::NoticeMissingKey]));
    assert_eq!(co.current_phase(), Phase::Idle);
}

#[test]
fn empty_clipboard_stops_a_trigger_with_a_notice() {
    let cfg = ready_config();
    let mut co = Coordinator::new();
    co.step(CoordEvent::Hotkey, &cfg);
    let acts = co.step(CoordEvent::Captured(ClipboardPayload::Empty), &cfg);
    assert!(matches!(acts[..], [CoordAction::NoticeClipboardEmpty]));
    assert_eq!(co.current_phase(), Phase::Idle);
}

#[test]
fn presses_while_in_flight_start_no_second_request() {
    let cfg = ready_config();
    let mut co = Coordinator::new();
    co.step(CoordEvent::Hotkey, &cfg);
    co.step(CoordEvent::Captured(text_payload("a")), &cfg);
    assert_eq!(co.current_phase(), Phase::Translating);

    // Two presses back to back while the translation is in flight.
    let acts1 = co.step(CoordEvent::Hotkey, &cfg);
    let acts2 = co.step(CoordEvent::Hotkey, &cfg);
    assert!(acts1.is_empty());
    assert!(acts2.is_empty());
    assert_eq!(co.current_phase(), Phase::Translating);
    assert!(co.has_pending());

    // The first translation completes; only now is a new capture begun,
    // and the two presses were coalesced into one.
    let acts = co.step(CoordEvent::StreamDone(Ok(String::from("x"))), &cfg);
    assert!(!acts.iter().any(|a| matches!(a, CoordAction::StartRequest(_))));
    let acts = co.step(CoordEvent::Delivered(true), &cfg);
    assert!(matches!(
        acts[..],
        [CoordAction::NoticeCopied, CoordAction::StartCapture]
    ));
    assert_eq!(co.current_phase(), Phase::Capturing);
    assert!(!co.has_pending());
}

#[test]
fn a_failed_translation_surfaces_the_error_and_returns_to_rest() {
    let cfg = ready_config();
    let mut co = Coordinator::new();
    co.step(CoordEvent::Hotkey, &cfg);
    co.step(CoordEvent::Captured(text_payload("a")), &cfg);
    let err = TranslateError::Provider {
        status: 404,
        detail: String::from("model not found"),
    };
    let acts = co.step(CoordEvent::StreamDone(Err(err)), &cfg);
    assert!(acts
        .iter()
        .any(|a| matches!(a, CoordAction::SetLoading(false))));
    assert!(acts
        .iter()
        .any(|a| matches!(a, CoordAction::NoticeError(m) if m == "API error 404: model not found")));
    assert!(acts.iter().any(
        |a| matches!(a, CoordAction::ShowErrorText(m) if m == "Error: API error 404: model not found")
    ));
    assert_eq!(co.current_phase(), Phase::Idle);
}

#[test]
fn a_failed_clipboard_write_only_changes_the_notice() {
    let cfg = ready_config();
    let mut co = Coordinator::new();
    co.step(CoordEvent::Hotkey, &cfg);
    co.step(CoordEvent::Captured(text_payload("a")), &cfg);
    co.step(CoordEvent::StreamDone(Ok(String::from("x"))), &cfg);
    let acts = co.step(CoordEvent::Delivered(false), &cfg);
    assert!(matches!(acts[..], [CoordAction::NoticeCopyFailed]));
    assert_eq!(co.current_phase(), Phase::Idle);
}

#[test]
fn stray_events_change_nothing() {
    let cfg = ready_config();
    let mut co = Coordinator::new();
    let acts = co.step(CoordEvent::Delivered(true), &cfg);
    assert!(acts.is_empty());
    let acts = co.step(CoordEvent::StreamDone(Ok(String::from("x"))), &cfg);
    assert!(acts.is_empty());
    assert_eq!(co.current_phase(), Phase::Idle);
}

#[test]
fn a_pending_press_rechecks_the_preconditions() {
    // The press is served under the configuration current at completion:
    // if the token has gone missing by then, the precondition fails.
    let cfg = ready_config();
    let mut co = Coordinator::new();
    co.step(CoordEvent::Hotkey, &cfg);
    co.step(CoordEvent::Captured(text_payload("a")), &cfg);
    co.step(CoordEvent::Hotkey, &cfg);
    co.step(CoordEvent::StreamDone(Ok(String::from("x"))), &cfg);
    let keyless = Config::from_parts(None, None, None, None, None, None);
    let acts = co.step(CoordEvent::Delivered(true), &keyless);
    assert!(matches!(
        acts[..],
        [CoordAction::NoticeCopied, CoordAction::NoticeMissingKey]
    ));
    assert_eq!(co.current_phase(), Phase::Idle);
}
