use verba::pipeline::{toggle_recording_with_mode, RecordingSession, ToggleOutcome};
use verba::settings::RecordingModeKind;
use verba::status::RuntimeStatus;

type Slot = Option<RecordingSession<u32>>;

fn start_ok(capture_selection: bool) -> Result<(u32, Option<String>, Option<String>), String> {
    let context = if capture_selection { Some("selected".to_string()) } else { None };
    Ok((7, context, Some("Notes".to_string())))
}

#[test]
fn a_press_starts_a_recording_in_the_pressed_mode() {
    let mut slot: Slot = None;
    let mut status = RuntimeStatus::initial();
    let outcome = toggle_recording_with_mode(
        &mut slot,
        &mut status,
        RecordingModeKind::Toggle,
        true,
        start_ok,
        |h: u32| Ok::<(u32, u64), String>((h, 0)),
    )
    .expect("started");
    assert!(matches!(outcome, ToggleOutcome::Started));
    let session = slot.as_ref().expect("recording");
    assert_eq!(session.handle, 7);
    assert_eq!(session.recording_mode, "toggle");
    assert_eq!(session.pre_recording_clipboard_context.as_deref(), Some("selected"));
    assert_eq!(session.insertion_target_app.as_deref(), Some("Notes"));
    assert!(status.is_recording && !status.is_processing);
    assert_eq!(
        status.last_message,
        "Recording... press the toggle shortcut again or click stop."
    );
}

#[test]
fn a_failed_start_leaves_everything_as_it_was() {
    let mut slot: Slot = None;
    let mut status = RuntimeStatus::initial();
    let result = toggle_recording_with_mode(
        &mut slot,
        &mut status,
        RecordingModeKind::Hold,
        false,
        |_| Err::<(u32, Option<String>, Option<String>), String>("No default input device found".to_string()),
        |h: u32| Ok::<(u32, u64), String>((h, 0)),
    );
    assert_eq!(result.err(), Some("No default input device found".to_string()));
    assert!(slot.is_none());
    assert_eq!(status.last_message, "Ready");
    assert!(!status.is_recording);
}

#[test]
fn a_second_press_stops_and_processes_or_discards() {
    for (elapsed, long_enough) in [(399u64, false), (400u64, true)] {
        let mut slot: Slot = None;
        let mut status = RuntimeStatus::initial();
        toggle_recording_with_mode(
            &mut slot,
            &mut status,
            RecordingModeKind::Hold,
            false,
            start_ok,
            |h: u32| Ok::<(u32, u64), String>((h, elapsed)),
        )
        .expect("started");
        let outcome = toggle_recording_with_mode(
            &mut slot,
            &mut status,
            RecordingModeKind::Toggle,
            false,
            start_ok,
            |h: u32| Ok::<(u32, u64), String>((h + 1, elapsed)),
        )
        .expect("stopped");
        assert!(slot.is_none());
        assert!(!status.is_recording);
        match outcome {
            ToggleOutcome::Processing(stopped) => {
                assert!(long_enough);
                assert_eq!(stopped.capture, 8);
                assert_eq!(stopped.recording_mode, "hold");
                assert!(status.is_processing);
                assert_eq!(status.last_message, "Transcribing and formatting...");
            }
            ToggleOutcome::Discarded(stopped) => {
                assert!(!long_enough);
                assert_eq!(stopped.elapsed_ms, 399);
                assert!(!status.is_processing);
                assert_eq!(
                    status.last_message,
                    "Recording too short — hold hotkey and speak longer."
                );
            }
            ToggleOutcome::Started => panic!("a running recording is stopped"),
        }
    }
}

#[test]
fn a_failed_stop_still_clears_the_recorder() {
    let mut slot: Slot = None;
    let mut status = RuntimeStatus::initial();
    toggle_recording_with_mode(
        &mut slot,
        &mut status,
        RecordingModeKind::Hold,
        false,
        start_ok,
        |h: u32| Ok::<(u32, u64), String>((h, 0)),
    )
    .expect("started");
    let result = toggle_recording_with_mode(
        &mut slot,
        &mut status,
        RecordingModeKind::Hold,
        false,
        start_ok,
        |_: u32| Err::<(u32, u64), String>("Writer lock poisoned".to_string()),
    );
    assert_eq!(result.err(), Some("Writer lock poisoned".to_string()));
    assert!(slot.is_none());
    assert!(status.is_recording);
}
