use gpttrans::config::ProviderKind;
use gpttrans::session::{classify_status, stub_stream, TranslateError};

#[test]
fn stub_invokes_the_fragment_callback_once_with_a_nonempty_result() {
    let input = String::from("Bonjour");
    let lang = String::from("English");
    let (fragments, full) = stub_stream(&input, &lang);
    assert!(fragments.len() >= 1);
    let joined: String = fragments.concat();
    assert!(!joined.is_empty());
    assert_eq!(joined, full);
    assert_eq!(full, "[English] Bonjour");
}

#[test]
fn non_success_status_surfaces_the_body_verbatim() {
    let body = String::from("model not found");
    let model = String::from("gpt-4o-mini");
    match classify_status(ProviderKind::OpenaiCompatible, &model, 404, &body) {
        Err(TranslateError::Provider { status, detail }) => {
            assert_eq!(status, 404);
            assert!(detail.contains("model not found"));
            assert_eq!(detail, body);
        }
        _ => panic!("a non-success status must be a provider error"),
    }
}

#[test]
fn success_statuses_pass() {
    let body = String::new();
    let model = String::from("m");
    assert!(classify_status(ProviderKind::OpenaiCompatible, &model, 200, &body).is_ok());
    assert!(classify_status(ProviderKind::OllamaNative, &model, 299, &body).is_ok());
    assert!(classify_status(ProviderKind::OpenaiCompatible, &model, 300, &body).is_err());
    assert!(classify_status(ProviderKind::OpenaiCompatible, &model, 199, &body).is_err());
}

#[test]
fn recognized_image_rejection_gets_a_clarified_detail() {
    let body = String::from("{\"error\":\"missing data required for image input\"}");
    let model = String::from("gemma3:1b");
    match classify_status(ProviderKind::OllamaNative, &model, 500, &body) {
        Err(TranslateError::Provider { status, detail }) => {
            assert_eq!(status, 500);
            assert_eq!(
                detail,
                "The model 'gemma3:1b' does not support images. Please use a vision model."
            );
        }
        _ => panic!("the recognized condition must still be a provider error"),
    }
}

#[test]
fn the_clarification_is_provider_specific() {
    let body = String::from("missing data required for image input");
    let model = String::from("gpt-4o-mini");
    match classify_status(ProviderKind::OpenaiCompatible, &model, 500, &body) {
        Err(TranslateError::Provider { detail, .. }) => assert_eq!(detail, body),
        _ => panic!("a non-success status must be a provider error"),
    }
}

#[test]
fn error_messages_name_the_failure() {
    let net = TranslateError::Network(String::from("timed out"));
    assert_eq!(net.message(), "Network error: timed out");
    let provider = TranslateError::Provider {
        status: 404,
        detail: String::from("model not found"),
    };
    assert_eq!(provider.message(), "API error 404: model not found");
    assert_eq!(
        TranslateError::EmptyResponse.message(),
        "Empty response from provider"
    );
}
