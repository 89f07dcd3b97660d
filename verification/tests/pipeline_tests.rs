use verba::pipeline::{
    apply_status_update, check_api_key, cleanup_failure_message, clipboard_source,
    inserted_message, output_route, pipeline_failed_update, pipeline_succeeded_update,
    recording_started_update, stopped_recording_step, toggle_step, ClipboardSource, OutputRoute,
    StoppedStep, ToggleStep,
};
use verba::settings::RecordingModeKind;
use verba::status::RuntimeStatus;

#[test]
fn a_press_starts_or_stops() {
    assert_eq!(toggle_step(true, true), ToggleStep::Stop);
    assert_eq!(
        toggle_step(false, true),
        ToggleStep::Start { capture_selection: true }
    );
    assert_eq!(
        toggle_step(false, false),
        ToggleStep::Start { capture_selection: false }
    );
}

#[test]
fn recording_start_shows_the_mode_hint() {
    let mut status = RuntimeStatus::initial();
    apply_status_update(&mut status, recording_started_update(RecordingModeKind::Toggle));
    assert!(status.is_recording);
    assert!(!status.is_processing);
    assert_eq!(
        status.last_message,
        "Recording... press the toggle shortcut again or click stop."
    );
}

#[test]
fn short_recordings_are_discarded() {
    match stopped_recording_step(399) {
        StoppedStep::Discard { update } => {
            assert_eq!(update.is_recording, Some(false));
            assert_eq!(update.is_processing, Some(false));
            assert_eq!(
                update.message,
                "Recording too short — hold hotkey and speak longer."
            );
        }
        StoppedStep::Process { .. } => panic!("399 ms is too short"),
    }
    match stopped_recording_step(400) {
        StoppedStep::Process { update } => {
            assert_eq!(update.is_processing, Some(true));
            assert_eq!(update.message, "Transcribing and formatting...");
        }
        StoppedStep::Discard { .. } => panic!("400 ms is long enough"),
    }
}

#[test]
fn failures_mention_the_saved_draft() {
    let u = pipeline_failed_update("network down", true);
    assert_eq!(
        u.message,
        "Failed: network down Draft saved. In Dictation tab, click ‘Copy draft’ to restore."
    );
    assert_eq!(pipeline_failed_update("x", false).message, "Failed: x");
    assert_eq!(u.mic_level, Some(0));
}

#[test]
fn missing_api_key_stops_the_pipeline() {
    assert_eq!(
        check_api_key(""),
        Err("Missing API key. Save it in settings first.".to_string())
    );
    assert_eq!(check_api_key(" "), Ok(()));
}

#[test]
fn clipboard_context_source() {
    assert!(matches!(clipboard_source(false, Some("x".to_string())), ClipboardSource::Off));
    assert!(matches!(
        clipboard_source(true, Some("x".to_string())),
        ClipboardSource::PreRecording(s) if s == "x"
    ));
    assert!(matches!(clipboard_source(true, None), ClipboardSource::ReadNow));
}

#[test]
fn terminals_skip_the_formatter_when_asked() {
    assert_eq!(output_route(Some("iTerm2"), true, true), OutputRoute::RawForTerminal);
    assert_eq!(output_route(Some("iTerm2"), false, true), OutputRoute::Formatted);
    assert_eq!(output_route(Some("Notes"), true, true), OutputRoute::Formatted);
    assert_eq!(output_route(None, true, false), OutputRoute::RawUnformatted);
}

#[test]
fn insertion_messages() {
    assert_eq!(
        inserted_message(OutputRoute::RawForTerminal, false, Some("Warp")),
        "Inserted raw transcript into Warp (LLM formatter skipped)."
    );
    assert_eq!(
        inserted_message(OutputRoute::Formatted, true, None),
        "Inserted raw transcript into focused app (formatter output failed safety check)."
    );
    assert_eq!(
        inserted_message(OutputRoute::Formatted, false, Some("Notes")),
        "Inserted text into Notes."
    );
    assert_eq!(
        inserted_message(OutputRoute::RawUnformatted, false, None),
        "Inserted raw transcript into focused app."
    );
    assert_eq!(
        pipeline_succeeded_update("Inserted text into Notes.", 1234).message,
        "Inserted text into Notes. 1234ms"
    );
}

#[test]
fn cleanup_failures_surface_only_after_success() {
    assert_eq!(
        cleanup_failure_message(false, true, true, "denied"),
        Some("Finished processing, but failed to delete temp file: denied".to_string())
    );
    assert_eq!(cleanup_failure_message(false, false, true, "gone"), None);
    assert_eq!(cleanup_failure_message(false, true, false, "denied"), None);
    assert_eq!(cleanup_failure_message(true, false, true, ""), None);
}
