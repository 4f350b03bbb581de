use whisrs::transcription::asr_sidecar::{
    failure_message, form_fields, is_success_status, reply_result, AsrSidecarBackend, AsrSidecarErrorResponse, AsrSidecarResponse, ErrorDetail,
    SidecarRequestError, MAX_FILE_SIZE,
};
use whisrs::transcription::TranscriptionConfig;

fn config(language: &str, prompt: Option<&str>) -> TranscriptionConfig {
    TranscriptionConfig {
        language: language.to_string(),
        model: "test-asr-model".to_string(),
        prompt: prompt.map(|p| p.to_string()),
    }
}

#[test]
fn transcribe_rejects_empty_audio() {
    let backend = AsrSidecarBackend::new("http://127.0.0.1:8765/transcribe".to_string(), None);
    let err = backend.check_request(0).unwrap_err();
    assert!(err.message().contains("empty audio"));
}

#[test]
fn transcribe_rejects_missing_url() {
    let backend = AsrSidecarBackend::new(String::new(), None);
    let err = backend.check_request(3).unwrap_err();
    assert!(err.message().contains("sidecar URL"));
}

#[test]
fn oversized_audio_is_refused_first() {
    let backend = AsrSidecarBackend::new(String::new(), None);
    let err = backend.check_request(MAX_FILE_SIZE + 1).unwrap_err();
    assert_eq!(err, SidecarRequestError::AudioTooLarge(MAX_FILE_SIZE + 1));
    assert_eq!(
        err.message(),
        "audio file too large (1073741825 bytes, max 1073741824 bytes / 1GB)"
    );
    let ok = AsrSidecarBackend::new("http://x/".to_string(), None);
    assert!(ok.check_request(MAX_FILE_SIZE).is_ok());
    let blank = AsrSidecarBackend::new("   ".to_string(), None);
    assert_eq!(blank.check_request(1), Err(SidecarRequestError::NoUrl));
}

#[test]
fn empty_api_key_is_normalized_to_none() {
    let backend = AsrSidecarBackend::new(
        "http://127.0.0.1:8765/transcribe".to_string(),
        Some(String::new()),
    );
    assert!(backend.api_key().is_none());
}

#[test]
fn api_key_is_stored_when_present() {
    let backend = AsrSidecarBackend::new(
        "http://127.0.0.1:8765/transcribe".to_string(),
        Some("sk-test-key".to_string()),
    );
    assert_eq!(backend.api_key(), Some("sk-test-key"));
}

#[test]
fn whitespace_only_api_key_is_normalized_to_none() {
    let backend = AsrSidecarBackend::new(
        "http://127.0.0.1:8765/transcribe".to_string(),
        Some("   ".to_string()),
    );
    assert!(backend.api_key().is_none());
}

#[test]
fn api_key_whitespace_is_trimmed() {
    let backend = AsrSidecarBackend::new(
        "http://127.0.0.1:8765/transcribe".to_string(),
        Some("  sk-test-key  ".to_string()),
    );
    assert_eq!(backend.api_key(), Some("sk-test-key"));
    assert_eq!(backend.authorization().as_deref(), Some("Bearer sk-test-key"));
}

#[test]
fn no_key_means_no_authorization_header() {
    let backend = AsrSidecarBackend::new("http://h/".to_string(), None);
    assert_eq!(backend.authorization(), None);
}

#[test]
fn trailing_slashes_are_trimmed_from_the_endpoint() {
    let backend = AsrSidecarBackend::new("http://127.0.0.1:8765/transcribe//".to_string(), None);
    assert_eq!(backend.endpoint(), "http://127.0.0.1:8765/transcribe");
    assert_eq!(backend.url(), "http://127.0.0.1:8765/transcribe//");
    let plain = AsrSidecarBackend::new("http://h/t".to_string(), None);
    assert_eq!(plain.endpoint(), "http://h/t");
}

#[test]
fn form_fields_skip_auto_language_and_carry_hotwords() {
    let fields = form_fields(&config("auto", None));
    assert_eq!(fields, vec![("model".to_string(), "test-asr-model".to_string())]);
    let fields = form_fields(&config("en", Some("Verus, Rust")));
    assert_eq!(
        fields,
        vec![
            ("model".to_string(), "test-asr-model".to_string()),
            ("language".to_string(), "en".to_string()),
            ("hotwords".to_string(), "Verus, Rust".to_string()),
        ]
    );
}

#[test]
fn parse_asr_sidecar_response() {
    // {"text": "Hello world"}
    let parsed = AsrSidecarResponse {
        text: "Hello world".to_string(),
    };
    assert_eq!(parsed.transcript(), "Hello world");
    let padded = AsrSidecarResponse {
        text: "  Hello world \n".to_string(),
    };
    assert_eq!(padded.transcript(), "Hello world");
}

#[test]
fn parse_asr_sidecar_error() {
    // {"error": "model failed to load"}
    let parsed = AsrSidecarErrorResponse {
        error: Some("model failed to load".to_string()),
        detail: None,
    };
    assert_eq!(parsed.message(), "model failed to load");
}

#[test]
fn parse_fastapi_error_detail() {
    // {"detail": "request asked for wrong model"}
    let parsed = AsrSidecarErrorResponse {
        error: None,
        detail: Some(ErrorDetail::Text("request asked for wrong model".to_string())),
    };
    assert_eq!(parsed.message(), "request asked for wrong model");
}

#[test]
fn error_reply_fallbacks() {
    let structured = AsrSidecarErrorResponse {
        error: None,
        detail: Some(ErrorDetail::Json("[{\"loc\":[\"body\"]}]".to_string())),
    };
    assert_eq!(structured.message(), "[{\"loc\":[\"body\"]}]");
    let both = AsrSidecarErrorResponse {
        error: Some("first".to_string()),
        detail: Some(ErrorDetail::Text("second".to_string())),
    };
    assert_eq!(both.message(), "first");
    let empty = AsrSidecarErrorResponse { error: None, detail: None };
    assert_eq!(empty.message(), "unknown sidecar error");
}

#[test]
fn failed_replies_name_status_and_message() {
    assert!(is_success_status(200));
    assert!(is_success_status(299));
    assert!(!is_success_status(199));
    assert!(!is_success_status(307));
    assert!(!is_success_status(500));
    let reply = AsrSidecarErrorResponse {
        error: None,
        detail: Some(ErrorDetail::Text("request asked for wrong model".to_string())),
    };
    assert_eq!(
        failure_message(422, "{\"detail\": ...}", Some(&reply)),
        "ASR sidecar error (422): request asked for wrong model"
    );
    assert_eq!(
        failure_message(502, "Bad Gateway", None),
        "ASR sidecar error (502): Bad Gateway"
    );
}

#[test]
fn replies_are_dispatched_on_the_status() {
    let ok = AsrSidecarResponse { text: " Hello world\n".to_string() };
    assert_eq!(reply_result(200, "{\"text\": \" Hello world\\n\"}", None, Ok(ok)), Ok("Hello world".to_string()));
    assert_eq!(
        reply_result(200, "not json", None, Err("expected value".to_string())),
        Err("expected value".to_string())
    );
    let err = AsrSidecarErrorResponse { error: Some("model failed to load".to_string()), detail: None };
    assert_eq!(
        reply_result(500, "{\"error\": \"model failed to load\"}", Some(&err), Err("missing field `text`".to_string())),
        Err("ASR sidecar error (500): model failed to load".to_string())
    );
    assert_eq!(
        reply_result(404, "Not Found", None, Err("expected value".to_string())),
        Err("ASR sidecar error (404): Not Found".to_string())
    );
}
