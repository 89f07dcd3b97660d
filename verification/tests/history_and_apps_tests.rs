use verba::apps::{
    activation_failure_message, activation_needs_frontmost_check, activation_script_for,
    app_name_from_script_output, app_names_match, applescript_escape, ax_attribute_error_message,
    ax_error_label, build_typing_script, check_selected_range_value, focused_element_error,
    insertion_method, insertion_target_from_frontmost, is_terminal_like_app,
    normalize_app_name_for_compare, paste_failure_message, should_restore_clipboard,
    splice_text_at_range, typing_failure_message, FocusFallbackFailure, InsertionMethod,
};
use verba::history::{
    default_history_language, default_history_recording_mode, default_history_source,
    durable_draft_for, push_debug_log_line, push_transcript_history_entry,
    TranscriptHistoryRecord,
};
use verba::hotkeys::Platform;

fn record(text: &str) -> TranscriptHistoryRecord<'_> {
    TranscriptHistoryRecord {
        final_output: text,
        source: "dictation",
        recording_mode: " TOGGLE ",
        language: "zh-tw",
        source_app: Some("Notes"),
        processing_latency_ms: Some(812),
    }
}

#[test]
fn history_adds_newest_first_and_caps_at_500() {
    let mut entries = Vec::new();
    assert!(!push_transcript_history_entry(&mut entries, &record("   "), 1, 0));
    assert!(entries.is_empty());
    assert!(push_transcript_history_entry(&mut entries, &record(" first "), 5, 1));
    assert!(push_transcript_history_entry(&mut entries, &record("second"), 5, 2));
    assert_eq!(entries[0].final_output, "second");
    assert_eq!(entries[1].final_output, "first");
    assert_eq!(entries[0].recording_mode, "toggle");
    assert_eq!(entries[0].language, "zh-TW");
    assert_eq!(entries[0].id, (5 << 10) | 2);
    assert_ne!(entries[0].id, entries[1].id);
    for i in 0..600u64 {
        push_transcript_history_entry(&mut entries, &record("more"), 10 + i, i);
    }
    assert_eq!(entries.len(), 500);
    assert_eq!(entries[0].created_at_ms, 609);
    assert_eq!(default_history_recording_mode(), "hold");
    assert_eq!(default_history_language(), "auto");
    assert_eq!(default_history_source(), "dictation");
}

#[test]
fn debug_log_keeps_the_newest_200_lines() {
    let mut log = Vec::new();
    for i in 0..205 {
        push_debug_log_line(&mut log, format!("line {i}"));
    }
    assert_eq!(log.len(), 200);
    assert_eq!(log[0], "line 5");
    assert_eq!(log[199], "line 204");
}

#[test]
fn drafts_store_normalized_mode_and_language() {
    let d = durable_draft_for("text", 7, "weird", "FR", None);
    assert_eq!(d.recording_mode, "hold");
    assert_eq!(d.language, "fr");
    assert_eq!(d.source_app, None);
}

#[test]
fn app_names_compare_by_letters_and_digits() {
    assert_eq!(normalize_app_name_for_compare("Visual Studio Code!"), "visualstudiocode");
    assert!(app_names_match("iTerm 2", "iterm2"));
    assert!(!app_names_match("Notes", "Notion"));
    assert!(is_terminal_like_app("WezTerm"));
    assert!(is_terminal_like_app("Neovim (nvim)"));
    assert!(!is_terminal_like_app("Safari"));
    assert_eq!(app_name_from_script_output(" Safari\n"), Some("Safari".to_string()));
    assert_eq!(app_name_from_script_output("\n"), None);
    assert_eq!(
        insertion_target_from_frontmost(Some("Verba".to_string()), "verba"),
        None
    );
    assert_eq!(
        insertion_target_from_frontmost(Some("Mail".to_string()), "Verba"),
        Some("Mail".to_string())
    );
}

#[test]
fn applescript_text_is_escaped() {
    assert_eq!(applescript_escape(r#"say "hi" \ bye"#), r#"say \"hi\" \\ bye"#);
    assert_eq!(
        build_typing_script("a\"b\nc"),
        "tell application \"System Events\"\nkeystroke \"a\\\"b\"\nkey code 36\nkeystroke \"c\"\nend tell"
    );
    let long = "x".repeat(81);
    let script = build_typing_script(&long);
    assert!(script.contains(&format!("keystroke \"{}\"\nkeystroke \"x\"", "x".repeat(80))));
}

#[test]
fn activation_is_skipped_when_target_is_frontmost() {
    assert_eq!(activation_script_for("Mail", Some("mail")), None);
    assert_eq!(
        activation_script_for("Mail \"Pro\"", Some("Notes")),
        Some("tell application \"Mail \\\"Pro\\\"\" to activate".to_string())
    );
    assert!(activation_needs_frontmost_check(Some("Mail"), "Verba"));
    assert!(!activation_needs_frontmost_check(Some("verba"), "Verba"));
    assert!(!activation_needs_frontmost_check(None, "Verba"));
}

#[test]
fn insertion_method_by_platform_and_target() {
    assert_eq!(insertion_method(Platform::Other, Some("iTerm"), true), InsertionMethod::Clipboard);
    assert_eq!(
        insertion_method(Platform::MacOs, Some("iTerm"), false),
        InsertionMethod::TypeKeystrokes
    );
    assert_eq!(
        insertion_method(Platform::MacOs, None, true),
        InsertionMethod::TypeKeystrokes
    );
    assert_eq!(
        insertion_method(Platform::MacOs, Some("Notes"), true),
        InsertionMethod::Accessibility
    );
    assert!(should_restore_clipboard("dictated", "dictated"));
    assert_eq!(
        paste_failure_message(Platform::MacOs, true, false, "boom", "Verba"),
        "Paste failed because Accessibility permission is missing. Open System Settings > Privacy & Security > Accessibility and enable Verba, then use the app's Open Accessibility Settings button to jump there."
    );
    assert_eq!(paste_failure_message(Platform::MacOs, true, true, "boom", "Verba"), "boom");
    assert_eq!(paste_failure_message(Platform::Other, true, false, "boom", "Verba"), "boom");
    assert_eq!(
        activation_failure_message("  "),
        "Failed to reactivate target app before paste. Bring the destination app to the front and try again."
    );
    assert_eq!(
        activation_failure_message(" not allowed\n"),
        "Failed to reactivate target app before paste. not allowed"
    );
    assert_eq!(
        typing_failure_message("err"),
        "Terminal typing fallback failed. Check Accessibility permissions. err"
    );
    assert!(!should_restore_clipboard("copied later", "dictated"));
}

#[test]
fn splicing_replaces_the_selection() {
    assert_eq!(
        splice_text_at_range("héllo world", 6, 5, "there"),
        ("héllo there".to_string(), 11)
    );
    assert_eq!(splice_text_at_range("abc", -4, -1, "X"), ("Xabc".to_string(), 1));
    assert_eq!(splice_text_at_range("abc", 10, 3, "X"), ("abcX".to_string(), 11));
    assert_eq!(splice_text_at_range("abc", 1, 100, ""), ("a".to_string(), 1));
}

#[test]
fn accessibility_errors_are_named() {
    assert_eq!(ax_error_label(0), "success");
    assert_eq!(ax_error_label(-25205), "attribute unsupported");
    assert_eq!(ax_error_label(-25214), "not enough precision");
    assert_eq!(ax_error_label(42), "unknown ax error");
    assert_eq!(
        ax_attribute_error_message("AXValue", "write", -25200),
        "AXValue write failed: failure (-25200)"
    );
    assert_eq!(
        ax_attribute_error_message("AXFocusedUIElement", "read", -25212),
        "AXFocusedUIElement read failed: no value (-25212)"
    );
    assert_eq!(check_selected_range_value(true, 4), Ok(()));
    assert_eq!(
        check_selected_range_value(false, 4),
        Err("AXSelectedTextRange was not an AXValue".to_string())
    );
    assert_eq!(
        check_selected_range_value(true, 0),
        Err("AXSelectedTextRange used an illegal AXValue type".to_string())
    );
    assert_eq!(
        check_selected_range_value(true, 2),
        Err("AXSelectedTextRange used AXValue type 2 instead of CFRange".to_string())
    );
}

#[test]
fn focused_element_errors_explain_the_fallback() {
    assert_eq!(
        focused_element_error(
            "AXFocusedUIElement read failed: no value (-25212)",
            &FocusFallbackFailure::NoProcess
        ),
        "AXFocusedUIElement read failed: no value (-25212); target app process could not be resolved"
    );
    assert_eq!(
        focused_element_error("e", &FocusFallbackFailure::NoApplicationElement(812)),
        "e; failed to create target AX application for pid 812"
    );
    assert_eq!(
        focused_element_error("e", &FocusFallbackFailure::ReadFailed(7, "x".to_string())),
        "e; target app AXFocusedUIElement read failed for pid 7: x"
    );
}
