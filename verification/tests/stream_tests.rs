use gpttrans::session::{finish_stream, TranslateError};
use gpttrans::stream::{Dialect, StreamDecoder};

fn feed_all(d: &mut StreamDecoder, bytes: &[u8]) -> Vec<String> {
    d.feed(bytes)
}

fn collect_stream(dialect: Dialect, chunks: &[&[u8]]) -> (Vec<String>, String) {
    let mut dec = StreamDecoder::new(dialect);
    let mut frags = Vec::new();
    for c in chunks {
        frags.extend(dec.feed(c));
    }
    let text = dec.into_text();
    (frags, text)
}

const SSE_STREAM: &[u8] = b"data: {\"choices\":[{\"delta\":{\"content\":\"Bon\"}}]}\n\
data: {\"choices\":[{\"delta\":{\"content\":\"jour\"}}]}\n\
data: {\"choices\":[{\"delta\":{\"content\":\" le monde\"}}]}\n\
data: [DONE]\n";

#[test]
fn sse_whole_stream_concatenates_content() {
    let (frags, text) = collect_stream(Dialect::Sse, &[SSE_STREAM]);
    assert_eq!(frags, vec!["Bon", "jour", " le monde"]);
    assert_eq!(text, "Bonjour le monde");
}

#[test]
fn sse_fragments_arrive_in_order_per_chunk() {
    let mut dec = StreamDecoder::new(Dialect::Sse);
    let first = dec.feed(b"data: {\"choices\":[{\"delta\":{\"content\":\"a\"}}]}\n");
    assert_eq!(first, vec!["a"]);
    let second = dec.feed(b"data: {\"choices\":[{\"delta\":{\"content\":\"b\"}}]}\n");
    assert_eq!(second, vec!["b"]);
    assert_eq!(dec.into_text(), "ab");
}

#[test]
fn sse_split_at_every_offset_gives_identical_text() {
    let (_, whole) = collect_stream(Dialect::Sse, &[SSE_STREAM]);
    for cut in 0..=SSE_STREAM.len() {
        let (a, b) = SSE_STREAM.split_at(cut);
        let (_, text) = collect_stream(Dialect::Sse, &[a, b]);
        assert_eq!(text, whole, "split at {}", cut);
    }
}

#[test]
fn sse_stops_at_done_marker() {
    let stream = b"data: {\"choices\":[{\"delta\":{\"content\":\"x\"}}]}\n\
data: [DONE]\n\
data: {\"choices\":[{\"delta\":{\"content\":\"y\"}}]}\n";
    let mut dec = StreamDecoder::new(Dialect::Sse);
    let frags = dec.feed(stream);
    assert_eq!(frags, vec!["x"]);
    assert!(dec.is_done());
    assert_eq!(dec.into_text(), "x");
}

#[test]
fn sse_ignores_non_data_lines_and_frames_without_content() {
    let stream = b"event: message\n\
: comment\n\
data: {\"choices\":[{\"delta\":{}}]}\n\
data: {\"choices\":[{\"delta\":{\"content\":\"ok\"}}]}\n\
\n\
data: [DONE]\n";
    let (frags, text) = collect_stream(Dialect::Sse, &[stream]);
    assert_eq!(frags, vec!["ok"]);
    assert_eq!(text, "ok");
}

#[test]
fn sse_unterminated_tail_contributes_nothing() {
    let stream = b"data: {\"choices\":[{\"delta\":{\"content\":\"done part\"}}]}\n\
data: {\"choices\":[{\"delta\":{\"content\":\"lost";
    let (frags, text) = collect_stream(Dialect::Sse, &[stream]);
    assert_eq!(frags, vec!["done part"]);
    assert_eq!(text, "done part");
}

const NDJSON_STREAM: &[u8] = b"{\"response\":\"Bon\"}\n\
{\"response\":\"jour\"}\n\
{\"response\":\"!\",\"done\":true}\n";

#[test]
fn ndjson_whole_stream_concatenates_response_fields() {
    let (frags, text) = collect_stream(Dialect::Ndjson, &[NDJSON_STREAM]);
    assert_eq!(frags, vec!["Bon", "jour", "!"]);
    assert_eq!(text, "Bonjour!");
}

#[test]
fn ndjson_split_at_every_offset_gives_identical_text() {
    let (_, whole) = collect_stream(Dialect::Ndjson, &[NDJSON_STREAM]);
    for cut in 0..=NDJSON_STREAM.len() {
        let (a, b) = NDJSON_STREAM.split_at(cut);
        let (_, text) = collect_stream(Dialect::Ndjson, &[a, b]);
        assert_eq!(text, whole, "split at {}", cut);
    }
}

#[test]
fn ndjson_blank_and_malformed_lines_contribute_nothing() {
    let stream = b"\n   \n{\"response\":\"a\"}\nnot json at all\n{\"other\":1}\n{\"response\":\"b\"}\n";
    let (frags, text) = collect_stream(Dialect::Ndjson, &[stream]);
    assert_eq!(frags, vec!["a", "b"]);
    assert_eq!(text, "ab");
}

#[test]
fn ndjson_byte_by_byte_feeding_matches_whole() {
    let (_, whole) = collect_stream(Dialect::Ndjson, &[NDJSON_STREAM]);
    let mut dec = StreamDecoder::new(Dialect::Ndjson);
    let mut frags: Vec<String> = Vec::new();
    for b in NDJSON_STREAM {
        frags.extend(feed_all(&mut dec, &[*b]));
    }
    let text = dec.into_text();
    assert_eq!(text, whole);
    assert_eq!(frags.concat(), whole);
}

#[test]
fn finish_of_empty_stream_is_the_empty_response_error() {
    let mut dec = StreamDecoder::new(Dialect::Sse);
    let frags = dec.feed(b"data: [DONE]\n");
    assert!(frags.is_empty());
    match finish_stream(dec) {
        Err(TranslateError::EmptyResponse) => {}
        _ => panic!("an empty stream must be the distinct empty-response error"),
    }
}

#[test]
fn finish_of_nonempty_stream_returns_the_concatenation() {
    let mut dec = StreamDecoder::new(Dialect::Ndjson);
    dec.feed(NDJSON_STREAM);
    match finish_stream(dec) {
        Ok(text) => assert_eq!(text, "Bonjour!"),
        Err(_) => panic!("a stream with content must succeed"),
    }
}

#[test]
fn sse_content_with_escapes_is_decoded() {
    let stream = b"data: {\"choices\":[{\"delta\":{\"content\":\"a\\nb\\\"c\"}}]}\ndata: [DONE]\n";
    let (frags, _) = collect_stream(Dialect::Sse, &[stream]);
    assert_eq!(frags, vec!["a\nb\"c"]);
}
