use gpttrans::clipboard::{ClipboardPayload, ImageData};
use gpttrans::config::{Config, ProviderKind};
use gpttrans::wire::{
    build_prompt, build_wire_request, data_url, endpoint_for, make_request, ollama_body,
    openai_body,
};

fn sample_config(provider: ProviderKind) -> Config {
    Config {
        openai_api_key: String::from("k-123"),
        openai_model: String::from("gpt-4o-mini"),
        target_lang: String::from("English"),
        hotkey: String::from("Alt+F3"),
        api_base: String::from("https://api.openai.com/v1"),
        provider,
    }
}

#[test]
fn prompt_for_english_text() {
    let p = build_prompt(b"Bonjour", b"English", false);
    assert_eq!(
        String::from_utf8(p).unwrap(),
        "Translate 'Bonjour' to English, only output the translation, no other text"
    );
}

#[test]
fn prompt_for_chinese_is_case_insensitive() {
    let p = build_prompt(b"hi", b"Simplified CHINESE", false);
    assert_eq!(
        String::from_utf8(p).unwrap(),
        "Translate 'hi' to Chinese, only output the translation, no other text"
    );
}

#[test]
fn prompt_for_other_language_names_it() {
    let p = build_prompt(b"hi", b"German", false);
    assert_eq!(
        String::from_utf8(p).unwrap(),
        "Translate 'hi' to German, only output the translation, no other text"
    );
}

#[test]
fn prompt_with_image_refers_to_the_image() {
    let p = build_prompt(b"", b"English", true);
    assert_eq!(
        String::from_utf8(p).unwrap(),
        "Translate the text in this image to English, only output the translation, no other text"
    );
    let p = build_prompt(b"", b"German", true);
    assert_eq!(
        String::from_utf8(p).unwrap(),
        "Translate the text in this image to German, only output the translation, no other text"
    );
}

#[test]
fn data_url_carries_the_base64_payload() {
    let url = data_url(b"image/png", &[1, 2, 3]);
    assert_eq!(String::from_utf8(url).unwrap(), "data:image/png;base64,AQID");
}

#[test]
fn openai_body_is_well_formed_json_with_the_expected_fields() {
    let body = openai_body(b"gpt-4o-mini", b"Translate 'a' to English", None);
    let v: serde_json::Value = serde_json::from_slice(&body).unwrap();
    assert_eq!(v["model"], "gpt-4o-mini");
    assert_eq!(v["stream"], true);
    assert_eq!(v["max_tokens"], 1024);
    assert!((v["temperature"].as_f64().unwrap() - 0.1).abs() < 1e-9);
    assert_eq!(v["messages"][0]["role"], "user");
    assert_eq!(v["messages"][0]["content"], "Translate 'a' to English");
}

#[test]
fn openai_body_escapes_the_prompt() {
    let body = openai_body(b"m", b"say \"hi\"\nplease \\ now", None);
    let v: serde_json::Value = serde_json::from_slice(&body).unwrap();
    assert_eq!(v["messages"][0]["content"], "say \"hi\"\nplease \\ now");
}

#[test]
fn openai_body_with_image_carries_a_two_part_message() {
    let img = ImageData { bytes: vec![1, 2, 3], mime_type: String::from("image/png") };
    let body = openai_body(b"gpt-4o-mini", b"look", Some(&img));
    let v: serde_json::Value = serde_json::from_slice(&body).unwrap();
    let parts = v["messages"][0]["content"].as_array().unwrap();
    assert_eq!(parts.len(), 2);
    assert_eq!(parts[0]["type"], "text");
    assert_eq!(parts[0]["text"], "look");
    assert_eq!(parts[1]["type"], "image_url");
    assert_eq!(parts[1]["image_url"]["url"], "data:image/png;base64,AQID");
    assert_eq!(parts[1]["image_url"]["detail"], "high");
}

#[test]
fn ollama_body_carries_prompt_and_stream() {
    let body = ollama_body(b"gemma3:1b", b"Translate 'a' to English", None);
    let v: serde_json::Value = serde_json::from_slice(&body).unwrap();
    assert_eq!(v["model"], "gemma3:1b");
    assert_eq!(v["prompt"], "Translate 'a' to English");
    assert_eq!(v["stream"], true);
    assert!(v.get("images").is_none());
}

#[test]
fn ollama_body_with_image_carries_the_base64_list() {
    let img = ImageData { bytes: vec![1, 2, 3], mime_type: String::from("image/png") };
    let body = ollama_body(b"llava", b"look", Some(&img));
    let v: serde_json::Value = serde_json::from_slice(&body).unwrap();
    assert_eq!(v["images"][0], "AQID");
}

#[test]
fn endpoints_follow_the_dialect() {
    let base = String::from("http://localhost:11434");
    assert_eq!(
        endpoint_for(ProviderKind::OpenaiCompatible, &base),
        "http://localhost:11434/chat/completions"
    );
    assert_eq!(
        endpoint_for(ProviderKind::OllamaNative, &base),
        "http://localhost:11434/api/generate"
    );
}

#[test]
fn wire_request_authenticates_only_the_compatible_dialect() {
    let cfg = sample_config(ProviderKind::OpenaiCompatible);
    let req = make_request(&cfg, ClipboardPayload::Text(String::from("hi")));
    let wire = build_wire_request(&req);
    assert_eq!(wire.endpoint, "https://api.openai.com/v1/chat/completions");
    assert_eq!(wire.bearer_token.as_deref(), Some("k-123"));

    let mut cfg = sample_config(ProviderKind::OpenaiCompatible);
    cfg.openai_api_key = String::new();
    let req = make_request(&cfg, ClipboardPayload::Text(String::from("hi")));
    let wire = build_wire_request(&req);
    assert!(wire.bearer_token.is_none());

    let cfg = sample_config(ProviderKind::OllamaNative);
    let req = make_request(&cfg, ClipboardPayload::Text(String::from("hi")));
    let wire = build_wire_request(&req);
    assert!(wire.bearer_token.is_none());
    assert_eq!(wire.endpoint, "https://api.openai.com/v1/api/generate");
}

#[test]
fn wire_request_body_uses_the_captured_text() {
    let cfg = sample_config(ProviderKind::OpenaiCompatible);
    let req = make_request(&cfg, ClipboardPayload::Text(String::from("Bonjour")));
    let wire = build_wire_request(&req);
    let v: serde_json::Value = serde_json::from_slice(&wire.body).unwrap();
    assert_eq!(
        v["messages"][0]["content"],
        "Translate 'Bonjour' to English, only output the translation, no other text"
    );
}
