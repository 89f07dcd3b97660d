use verba::prompts::{build_formatter_system_prompt, clip_clipboard_context, summarize_http_body};
use verba::safety::{formatter_output_passes_safety_check, tokenize_for_overlap};
use verba::text::{char_to_byte_index, chars_of, string_of, trim_str, truncate_chars};

#[test]
fn trimming_uses_unicode_white_space() {
    let t = trim_str("\u{3000}\t hello world \u{a0}\n");
    assert_eq!(string_of(&t), "hello world");
    assert_eq!(string_of(&chars_of("héllo")), "héllo");
}

#[test]
fn truncation_counts_characters() {
    let v = chars_of("añb😀c");
    assert_eq!(string_of(&truncate_chars(&v, 4)), "añb😀");
    assert_eq!(string_of(&truncate_chars(&v, 40)), "añb😀c");
}

#[test]
fn byte_index_of_a_character() {
    assert_eq!(char_to_byte_index("héllo", 2), 3);
    assert_eq!(char_to_byte_index("a😀b", 2), 5);
    assert_eq!(char_to_byte_index("a😀b", 9), 6);
    assert_eq!(char_to_byte_index("", 0), 0);
}

#[test]
fn http_bodies_are_summarized() {
    assert_eq!(summarize_http_body(" \n "), "<empty body>");
    assert_eq!(summarize_http_body("  {\"error\":1} "), "{\"error\":1}");
    let long = "é".repeat(241);
    assert_eq!(summarize_http_body(&long), format!("{}...", "é".repeat(240)));
}

#[test]
fn clipboard_context_is_trimmed_and_clipped() {
    assert_eq!(clip_clipboard_context("   "), None);
    assert_eq!(clip_clipboard_context(" ref "), Some("ref".to_string()));
    let long = "z".repeat(600);
    assert_eq!(clip_clipboard_context(&long), Some("z".repeat(500)));
}

#[test]
fn formatter_prompt_names_the_app_and_tone() {
    let p = build_formatter_system_prompt("Base.", Some(" Slack "), Some("  ctx  "));
    assert!(p.starts_with("Base.\n\nCurrent target app context: Slack. Use concise chat tone"));
    assert!(p.contains("Strict safety requirements"));
    assert!(p.ends_with("do not copy verbatim unless requested):\nctx"));
    let q = build_formatter_system_prompt("Base.", Some("  "), None);
    assert!(q.starts_with(
        "Base.\n\nTarget app context unavailable. Use a neutral tone suitable for general text input."
    ));
    assert!(q.ends_with(" Return only final text."));
}

#[test]
fn tokens_are_lowercase_alphanumeric_and_distinct() {
    let tokens: Vec<String> = tokenize_for_overlap(&chars_of("Don't STOP, don't -- stop!"))
        .into_iter()
        .map(|t| string_of(&t))
        .collect();
    assert_eq!(tokens, vec!["don't".to_string(), "stop".to_string()]);
}

#[test]
fn safety_check_keeps_faithful_output_only() {
    assert!(formatter_output_passes_safety_check("hello world", "  HELLO WORLD "));
    assert!(!formatter_output_passes_safety_check("hello world", "   "));
    assert!(!formatter_output_passes_safety_check("   ", "anything"));
    // Far too long for a short transcript.
    assert!(!formatter_output_passes_safety_check("ok", "this is a very long answer"));
    // Short texts only need the length check.
    assert!(formatter_output_passes_safety_check("hi there", "Hello there!"));
}

#[test]
fn whitespace_matches_std_for_every_char() {
    for code in 0u32..=0x10FFFF {
        if let Some(c) = char::from_u32(code) {
            assert_eq!(verba::text::is_whitespace(c), c.is_whitespace(), "{code:#x}");
        }
    }
}
