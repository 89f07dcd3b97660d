use verba::api::{
    api_failure_message, connection_test_result, connection_test_target,
    formatter_result_from_reply, formatting_request, is_retryable_status,
    map_test_connection_error, next_retry_step, retries_exhausted_message, retry_backoff_ms,
    status_text, transcription_request, ApiOperation, AttemptFailure, RetryStep, TransportError,
};
use verba::hotkeys::Platform;
use verba::settings::default_settings;

#[test]
fn backoff_doubles_and_caps() {
    let waits: Vec<u64> = (0..8).map(retry_backoff_ms).collect();
    assert_eq!(waits, vec![350, 700, 1_400, 2_800, 5_600, 11_200, 11_200, 11_200]);
    assert_eq!(retry_backoff_ms(u32::MAX), 11_200);
}

#[test]
fn retryable_statuses_are_429_and_server_errors() {
    assert!(is_retryable_status(429));
    assert!(is_retryable_status(500));
    assert!(is_retryable_status(599));
    assert!(!is_retryable_status(600));
    assert!(!is_retryable_status(404));
    assert!(!is_retryable_status(499));
}

#[test]
fn retries_at_most_three_attempts() {
    let busy = AttemptFailure::Status(503);
    assert_eq!(next_retry_step(0, busy), RetryStep::RetryAfterMs(350));
    assert_eq!(next_retry_step(1, busy), RetryStep::RetryAfterMs(700));
    assert_eq!(next_retry_step(2, busy), RetryStep::GiveUp);
    let timeout = AttemptFailure::Transport { is_timeout: true, is_connect: false };
    assert_eq!(next_retry_step(0, timeout), RetryStep::RetryAfterMs(350));
    let refused = AttemptFailure::Transport { is_timeout: false, is_connect: false };
    assert_eq!(next_retry_step(0, refused), RetryStep::GiveUp);
    assert_eq!(next_retry_step(0, AttemptFailure::Status(401)), RetryStep::GiveUp);
}

#[test]
fn status_text_uses_the_registered_reason() {
    assert_eq!(status_text(404), "404 Not Found");
    assert_eq!(status_text(429), "429 Too Many Requests");
    assert_eq!(status_text(599), "599 <unknown status code>");
}

#[test]
fn failure_messages_name_the_operation_and_status() {
    assert_eq!(
        api_failure_message(ApiOperation::Transcription, 500, "boom"),
        "Transcription failed (500 Internal Server Error): boom"
    );
    assert_eq!(
        api_failure_message(ApiOperation::Formatting, 400, ""),
        "Formatting failed (400 Bad Request): "
    );
    assert_eq!(
        retries_exhausted_message(ApiOperation::Formatting),
        "Formatting failed after retries."
    );
}

#[test]
fn requests_are_built_from_settings() {
    let mut s = default_settings(Platform::Other);
    s.api_base_url = "https://example.test/v1".to_string();
    s.language = " ZH ".to_string();
    let t = transcription_request(&s);
    assert_eq!(t.url, "https://example.test/v1/audio/transcriptions");
    assert_eq!(t.model, "whisper-1");
    assert_eq!(t.language.as_deref(), Some("zh"));
    assert!(t.prompt.contains("Primary language hint: zh"));
    s.language = "auto".to_string();
    assert_eq!(transcription_request(&s).language, None);
    let f = formatting_request(&s, "hello there", Some("Notes"), None);
    assert_eq!(f.url, "https://example.test/v1/chat/completions");
    assert_eq!(f.model, "gpt-4o-mini");
    assert_eq!(f.user_content, "hello there");
    assert!(f.system_prompt.starts_with(&s.prompt_template));
}

#[test]
fn formatter_reply_is_checked() {
    let transcript = "please send the quarterly report to the finance team by friday";
    let ok = formatter_result_from_reply(
        transcript,
        Some("  Please send the quarterly report to the finance team by Friday.  "),
    )
    .expect("usable reply");
    assert!(!ok.used_raw_fallback);
    assert_eq!(
        ok.text,
        "Please send the quarterly report to the finance team by Friday."
    );
    let fallback = formatter_result_from_reply(
        transcript,
        Some("Sure! Here is a poem about cats and dogs living together in harmony forever."),
    )
    .expect("reply present");
    assert!(fallback.used_raw_fallback);
    assert_eq!(fallback.text, transcript);
    assert_eq!(
        formatter_result_from_reply(transcript, Some("   ")).err(),
        Some("No formatter output text received".to_string())
    );
    assert_eq!(
        formatter_result_from_reply(transcript, None).err(),
        Some("No formatter output text received".to_string())
    );
}

#[test]
fn connection_test_checks_key_and_url_first() {
    assert_eq!(
        connection_test_target("  ", "https://api.openai.com/v1").err(),
        Some("API key is missing. Add your API key and save settings first.".to_string())
    );
    assert_eq!(
        connection_test_target("sk-1", " /// ").err(),
        Some("API base URL is missing. Set it (example: https://api.openai.com/v1).".to_string())
    );
    let target = connection_test_target(" sk-1 ", " https://api.openai.com/v1// ").expect("ok");
    assert_eq!(target.api_key, "sk-1");
    assert_eq!(target.url, "https://api.openai.com/v1/models");
}

#[test]
fn connection_test_explains_statuses() {
    assert_eq!(
        connection_test_result(200, "{}"),
        Ok("API connection successful.".to_string())
    );
    assert!(connection_test_result(401, "")
        .unwrap_err()
        .starts_with("Connection failed (401 Unauthorized). Your API key looks invalid."));
    assert!(connection_test_result(404, "")
        .unwrap_err()
        .starts_with("Connection failed (404 Not Found). API base URL is likely incorrect."));
    assert_eq!(
        connection_test_result(503, "  "),
        Err("Connection failed (503 Service Unavailable). API response: <empty body>".to_string())
    );
    let long = "x".repeat(300);
    let message = connection_test_result(500, &long).unwrap_err();
    assert!(message.ends_with(&format!("{}...", "x".repeat(240))));
}

#[test]
fn connection_errors_are_explained() {
    let timeout = TransportError {
        is_timeout: true,
        is_connect: false,
        is_request: false,
        text: String::new(),
    };
    assert_eq!(
        map_test_connection_error(&timeout),
        "Connection timed out after 6s. Check your network, firewall/VPN settings, and API base URL."
    );
    let refused = TransportError {
        is_timeout: false,
        is_connect: true,
        is_request: false,
        text: String::new(),
    };
    assert_eq!(
        map_test_connection_error(&refused),
        "Could not reach the API host. Verify your internet connection and API base URL."
    );
    let other = TransportError {
        is_timeout: false,
        is_connect: false,
        is_request: false,
        text: "bad".to_string(),
    };
    assert_eq!(map_test_connection_error(&other), "Connection test failed: bad");
}
