use gpttrans::clipboard::{
    payload_from, read_image, read_text, ClipboardPayload, FetchOutcome, ImageData,
    TextFetchOutcome,
};

#[test]
fn empty_image_payload_reads_as_none() {
    let (result, attempts) = read_image(&Vec::new());
    assert!(result.is_none());
    assert_eq!(attempts, 0);
}

#[test]
fn busy_clipboard_is_retried_then_read() {
    // A 2x2 24-bit device-independent bitmap, handed over on the third try.
    let mut dib = Vec::new();
    dib.extend_from_slice(&40u32.to_le_bytes());
    dib.extend_from_slice(&2i32.to_le_bytes());
    dib.extend_from_slice(&2i32.to_le_bytes());
    dib.extend_from_slice(&1u16.to_le_bytes());
    dib.extend_from_slice(&24u16.to_le_bytes());
    dib.extend_from_slice(&[0u8; 24]); // the remaining header fields
    dib.extend_from_slice(&[0x10; 16]); // two padded rows of two pixels
    let outcomes = vec![FetchOutcome::Busy, FetchOutcome::Busy, FetchOutcome::Data(dib)];
    let (result, attempts) = read_image(&outcomes);
    let data = result.expect("the third attempt hands over a decodable buffer");
    assert_eq!(data.mime_type, "image/png");
    assert_eq!(attempts, 3);
}

#[test]
fn three_busy_attempts_give_up() {
    let outcomes = vec![
        FetchOutcome::Busy,
        FetchOutcome::Busy,
        FetchOutcome::Busy,
        FetchOutcome::Busy,
    ];
    let (result, attempts) = read_image(&outcomes);
    assert!(result.is_none());
    assert_eq!(attempts, 3);
}

#[test]
fn hard_failure_is_not_retried() {
    let outcomes = vec![FetchOutcome::Failed, FetchOutcome::Busy];
    let (result, attempts) = read_image(&outcomes);
    assert!(result.is_none());
    assert_eq!(attempts, 1);
}

#[test]
fn text_read_returns_the_handed_over_text() {
    let outcomes = vec![
        TextFetchOutcome::Busy,
        TextFetchOutcome::Text(String::from("Bonjour")),
    ];
    let (result, attempts) = read_text(&outcomes);
    assert_eq!(result.as_deref(), Some("Bonjour"));
    assert_eq!(attempts, 2);
}

#[test]
fn text_read_gives_up_after_three_busy_attempts() {
    let outcomes = vec![
        TextFetchOutcome::Busy,
        TextFetchOutcome::Busy,
        TextFetchOutcome::Busy,
        TextFetchOutcome::Text(String::from("late")),
    ];
    let (result, attempts) = read_text(&outcomes);
    assert!(result.is_none());
    assert_eq!(attempts, 3);
}

#[test]
fn text_hard_failure_is_treated_as_absence() {
    let outcomes = vec![TextFetchOutcome::Failed];
    let (result, attempts) = read_text(&outcomes);
    assert!(result.is_none());
    assert_eq!(attempts, 1);
}

#[test]
fn image_takes_precedence_over_text() {
    let data = ImageData { bytes: vec![1, 2, 3], mime_type: String::from("image/png") };
    match payload_from(Some(data), Some(String::from("also text"))) {
        ClipboardPayload::Image(d) => assert_eq!(d.bytes, vec![1, 2, 3]),
        _ => panic!("an image must win over text"),
    }
}

#[test]
fn blank_text_counts_as_empty() {
    match payload_from(None, Some(String::from("  \t\r\n "))) {
        ClipboardPayload::Empty => {}
        _ => panic!("whitespace-only text must count as an empty clipboard"),
    }
    match payload_from(None, None) {
        ClipboardPayload::Empty => {}
        _ => panic!("no data must count as an empty clipboard"),
    }
}

#[test]
fn nonblank_text_is_kept_verbatim() {
    match payload_from(None, Some(String::from("  Bonjour  "))) {
        ClipboardPayload::Text(t) => assert_eq!(t, "  Bonjour  "),
        _ => panic!("text with content must be kept"),
    }
}
