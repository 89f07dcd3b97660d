//! The decisions around one dictation: starting and stopping the recorder,
//! checking that audio was captured, choosing whether the transcript is
//! formatted, and the status shown at each step.
use vstd::prelude::*;

use crate::apps::{
    is_terminal_like_app, known_terminal_marker, lemma_terminal_apps_are_typed_into,
    spec_is_terminal_like,
};
use crate::prompts::opt_view;
use crate::settings::RecordingModeKind;
use crate::status::{RuntimeStatus, MIC_LEVEL_MAX};
use crate::text::{
    append_str, chars_of, contains_seq, decimal, lower_seq, push_decimal, string_of,
};

verus! {

/// Recordings shorter than this are discarded.
pub const MIN_RECORDING_MS: u64 = 400;

/// Captures shorter than this count as no audio.
pub const MIN_CAPTURED_AUDIO_MS: u64 = 250;

/// Full scale of a 16-bit sample.
pub const SAMPLE_FULL_SCALE: u16 = 32767;

// ---------------------------------------------------------------------------
// Status changes
// ---------------------------------------------------------------------------

/// A change of the runtime status: the flags and level to set (where given)
/// and the new message.
pub struct StatusUpdate {
    pub is_recording: Option<bool>,
    pub is_processing: Option<bool>,
    pub mic_level: Option<u8>,
    pub message: String,
}

/// The status after a dictation ended, one way or the other: not recording,
/// not processing, meter at zero, with `message`.
pub open spec fn is_idle_update(u: StatusUpdate, message: Seq<char>) -> bool {
    &&& u.is_recording == Some(false)
    &&& u.is_processing == Some(false)
    &&& u.mic_level == Some(0u8)
    &&& u.message@ == message
}

fn idle_update(message: String) -> (u: StatusUpdate)
    ensures
        is_idle_update(u, message@),
{
    StatusUpdate {
        is_recording: Some(false),
        is_processing: Some(false),
        mic_level: Some(0),
        message,
    }
}

/// Applies a status change to the runtime status.
pub fn apply_status_update(status: &mut RuntimeStatus, update: StatusUpdate)
    ensures
        final(status).is_recording == match update.is_recording {
            Some(v) => v,
            None => old(status).is_recording,
        },
        final(status).is_processing == match update.is_processing {
            Some(v) => v,
            None => old(status).is_processing,
        },
        final(status).mic_level == match update.mic_level {
            Some(v) => if v <= MIC_LEVEL_MAX {
                v
            } else {
                MIC_LEVEL_MAX
            },
            None => old(status).mic_level,
        },
        final(status).last_message == update.message,
        old(status).well_formed() ==> final(status).well_formed(),
{
    status.set_status(update.is_recording, update.is_processing, update.mic_level, update.message);
}

// ---------------------------------------------------------------------------
// Starting and stopping
// ---------------------------------------------------------------------------

/// What a press of the record control does.
#[derive(Clone, Copy, PartialEq, Eq, Structural, Debug)]
pub enum ToggleStep {
    /// No recording runs: start one, first copying the selected text as
    /// context when the settings ask for clipboard context.
    Start { capture_selection: bool },
    /// A recording runs: stop it.
    Stop,
}

pub fn toggle_step(recording_active: bool, include_clipboard_context: bool) -> (step: ToggleStep)
    ensures
        recording_active ==> step == ToggleStep::Stop,
        !recording_active ==> step == (ToggleStep::Start {
            capture_selection: include_clipboard_context,
        }),
{
    if recording_active {
        ToggleStep::Stop
    } else {
        ToggleStep::Start { capture_selection: include_clipboard_context }
    }
}

/// The status once a recording has started: recording, not processing,
/// meter at zero, and the mode's hint; the start sound plays.
pub fn recording_started_update(mode: RecordingModeKind) -> (u: StatusUpdate)
    ensures
        u.is_recording == Some(true),
        u.is_processing == Some(false),
        u.mic_level == Some(0u8),
        u.message@ == mode.spec_start_hint(),
{
    StatusUpdate {
        is_recording: Some(true),
        is_processing: Some(false),
        mic_level: Some(0),
        message: mode.start_hint().to_string(),
    }
}

pub open spec fn too_short_message() -> Seq<char> {
    "Recording too short — hold hotkey and speak longer."@
}

pub open spec fn processing_message() -> Seq<char> {
    "Transcribing and formatting..."@
}

/// What happens to a recording once the recorder has stopped.
pub enum StoppedStep {
    /// Shorter than the minimum: the file is deleted, the error sound plays
    /// and the status returns to idle with this update.
    Discard { update: StatusUpdate },
    /// Long enough: the status shows processing and the pipeline runs.
    Process { update: StatusUpdate },
}

pub fn stopped_recording_step(elapsed_ms: u64) -> (step: StoppedStep)
    ensures
        elapsed_ms < MIN_RECORDING_MS ==> (step matches StoppedStep::Discard { update }
            && is_idle_update(update, too_short_message())),
        elapsed_ms >= MIN_RECORDING_MS ==> (step matches StoppedStep::Process { update }
            && update.is_recording == Some(false) && update.is_processing == Some(true)
            && update.mic_level == Some(0u8) && update.message@ == processing_message()),
{
    if elapsed_ms < MIN_RECORDING_MS {
        StoppedStep::Discard {
            update: idle_update("Recording too short — hold hotkey and speak longer.".to_string()),
        }
    } else {
        StoppedStep::Process {
            update: StatusUpdate {
                is_recording: Some(false),
                is_processing: Some(true),
                mic_level: Some(0),
                message: "Transcribing and formatting...".to_string(),
            },
        }
    }
}

/// A recording in progress: the app's handle on the audio capture, and what
/// the pipeline needs once the recording stops.
pub struct RecordingSession<H> {
    pub handle: H,
    pub recording_mode: String,
    pub pre_recording_clipboard_context: Option<String>,
    pub insertion_target_app: Option<String>,
}

/// A recording that was stopped: what the capture left behind (its file),
/// how long it ran, and what the session knew.
pub struct StoppedSession<P> {
    pub capture: P,
    pub elapsed_ms: u64,
    pub recording_mode: String,
    pub pre_recording_clipboard_context: Option<String>,
    pub insertion_target_app: Option<String>,
}

/// What a press of the record control led to.
pub enum ToggleOutcome<P> {
    /// A recording started.
    Started,
    /// The recording stopped and was too short: its file is to be deleted.
    Discarded(StoppedSession<P>),
    /// The recording stopped and goes through the pipeline.
    Processing(StoppedSession<P>),
}

/// The stopped session carries over what the running one knew.
pub open spec fn carries_over<H, P>(stopped: StoppedSession<P>, session: RecordingSession<H>) -> bool {
    &&& stopped.recording_mode == session.recording_mode
    &&& stopped.pre_recording_clipboard_context == session.pre_recording_clipboard_context
    &&& stopped.insertion_target_app == session.insertion_target_app
}

/// A press of the record control in `mode`. With no recording running,
/// `start` is asked to start the capture (told whether to copy the selection
/// first) and hands back the capture with the copied context and the target
/// application; the session is recorded and the status shows the recording.
/// With a recording running, the session is removed and `stop` ends its
/// capture; a recording under 400 ms is discarded, a longer one goes to
/// processing, and the status says which. The call fails only when `start`
/// or `stop` fails, with that error and the status unchanged.
pub fn toggle_recording_with_mode<H, P, FS, FT>(
    recorder: &mut Option<RecordingSession<H>>,
    status: &mut RuntimeStatus,
    mode: RecordingModeKind,
    include_clipboard_context: bool,
    start: FS,
    stop: FT,
) -> (r: Result<ToggleOutcome<P>, String>) where
    FS: FnOnce(bool) -> Result<(H, Option<String>, Option<String>), String>,
    FT: FnOnce(H) -> Result<(P, u64), String>,

    requires
        forall|b: bool| call_requires(start, (b,)),
        forall|h: H| call_requires(stop, (h,)),
    ensures
        (*old(recorder)) is Some ==> (*final(recorder)) is None,
        (*old(recorder)) is None ==> (r is Ok <==> (*final(recorder)) is Some),
        r is Err ==> *final(status) == *old(status),
        match *old(recorder) {
            Some(session) => r matches Err(e) ==> call_ensures(stop, (session.handle,), Err(e)),
            None => r matches Err(e) ==> call_ensures(start, (include_clipboard_context,), Err(e)),
        },
        match *old(recorder) {
            Some(session) => match r {
                Ok(ToggleOutcome::Discarded(stopped)) => {
                    &&& call_ensures(stop, (session.handle,), Ok((stopped.capture, stopped.elapsed_ms)))
                    &&& stopped.elapsed_ms < MIN_RECORDING_MS
                    &&& carries_over(stopped, session)
                    &&& !final(status).is_recording
                    &&& !final(status).is_processing
                    &&& final(status).mic_level == 0
                    &&& final(status).last_message@ == too_short_message()
                },
                Ok(ToggleOutcome::Processing(stopped)) => {
                    &&& call_ensures(stop, (session.handle,), Ok((stopped.capture, stopped.elapsed_ms)))
                    &&& stopped.elapsed_ms >= MIN_RECORDING_MS
                    &&& carries_over(stopped, session)
                    &&& !final(status).is_recording
                    &&& final(status).is_processing
                    &&& final(status).mic_level == 0
                    &&& final(status).last_message@ == processing_message()
                },
                Ok(ToggleOutcome::Started) => false,
                Err(_) => true,
            },
            None => match r {
                Ok(ToggleOutcome::Started) => match *final(recorder) {
                    Some(session) => {
                        &&& call_ensures(
                            start,
                            (include_clipboard_context,),
                            Ok(
                                (
                                    session.handle,
                                    session.pre_recording_clipboard_context,
                                    session.insertion_target_app,
                                ),
                            ),
                        )
                        &&& session.recording_mode@ == mode.name()
                        &&& final(status).is_recording
                        &&& !final(status).is_processing
                        &&& final(status).mic_level == 0
                        &&& final(status).last_message@ == mode.spec_start_hint()
                    },
                    None => false,
                },
                Ok(_) => false,
                Err(_) => true,
            },
        },
{
    let current = recorder.take();
    match current {
        Some(session) => {
            let RecordingSession {
                handle,
                recording_mode,
                pre_recording_clipboard_context,
                insertion_target_app,
            } = session;
            match stop(handle) {
                Err(e) => Err(e),
                Ok((capture, elapsed_ms)) => {
                    let stopped = StoppedSession {
                        capture,
                        elapsed_ms,
                        recording_mode,
                        pre_recording_clipboard_context,
                        insertion_target_app,
                    };
                    match stopped_recording_step(elapsed_ms) {
                        StoppedStep::Discard { update } => {
                            apply_status_update(status, update);
                            Ok(ToggleOutcome::Discarded(stopped))
                        },
                        StoppedStep::Process { update } => {
                            apply_status_update(status, update);
                            Ok(ToggleOutcome::Processing(stopped))
                        },
                    }
                },
            }
        },
        None => {
            match start(include_clipboard_context) {
                Err(e) => Err(e),
                Ok((handle, pre_recording_clipboard_context, insertion_target_app)) => {
                    *recorder = Some(
                        RecordingSession {
                            handle,
                            recording_mode: mode.as_str().to_string(),
                            pre_recording_clipboard_context,
                            insertion_target_app,
                        },
                    );
                    apply_status_update(status, recording_started_update(mode));
                    Ok(ToggleOutcome::Started)
                },
            }
        },
    }
}

pub open spec fn draft_hint() -> Seq<char> {
    " Draft saved. In Dictation tab, click ‘Copy draft’ to restore."@
}

/// The status after the pipeline failed: idle, with the error and, when a
/// draft of the transcript was kept, a hint on restoring it. The error sound
/// plays.
pub fn pipeline_failed_update(error: &str, draft_saved: bool) -> (u: StatusUpdate)
    ensures
        is_idle_update(
            u,
            "Failed: "@ + error@ + if draft_saved {
                draft_hint()
            } else {
                Seq::<char>::empty()
            },
        ),
{
    let mut v: Vec<char> = Vec::new();
    append_str(&mut v, "Failed: ");
    append_str(&mut v, error);
    if draft_saved {
        append_str(&mut v, " Draft saved. In Dictation tab, click ‘Copy draft’ to restore.");
    }
    idle_update(string_of(&v))
}

// ---------------------------------------------------------------------------
// The pipeline
// ---------------------------------------------------------------------------

pub open spec fn missing_api_key_message() -> Seq<char> {
    "Missing API key. Save it in settings first."@
}

/// The pipeline refuses to run without an API key.
pub fn check_api_key(api_key: &str) -> (r: Result<(), String>)
    ensures
        r is Ok <==> api_key@.len() > 0,
        r matches Err(e) ==> e@ == missing_api_key_message(),
{
    if chars_of(api_key).len() == 0 {
        Err("Missing API key. Save it in settings first.".to_string())
    } else {
        Ok(())
    }
}

/// Where the clipboard context for the formatter comes from.
pub enum ClipboardSource {
    /// Clipboard context is switched off.
    Off,
    /// The selection copied when the recording started.
    PreRecording(String),
    /// Nothing was copied then: read the clipboard now.
    ReadNow,
}

pub fn clipboard_source(include_clipboard_context: bool, pre_recording: Option<String>) -> (r:
    ClipboardSource)
    ensures
        !include_clipboard_context ==> r is Off,
        include_clipboard_context ==> match pre_recording {
            Some(s) => r matches ClipboardSource::PreRecording(t) && t == s,
            None => r is ReadNow,
        },
{
    if !include_clipboard_context {
        return ClipboardSource::Off;
    }
    match pre_recording {
        Some(s) => ClipboardSource::PreRecording(s),
        None => ClipboardSource::ReadNow,
    }
}

/// How the transcript reaches the target app.
#[derive(Clone, Copy, PartialEq, Eq, Structural, Debug)]
pub enum OutputRoute {
    /// The target is a terminal and the settings skip formatting there.
    RawForTerminal,
    /// The transcript goes through the formatter.
    Formatted,
    /// Formatting is switched off.
    RawUnformatted,
}

pub open spec fn spec_output_route(
    target_app: Option<Seq<char>>,
    skip_formatter_in_terminals: bool,
    format_enabled: bool,
) -> OutputRoute {
    let terminal = match target_app {
        Some(a) => spec_is_terminal_like(a),
        None => false,
    };
    if terminal && skip_formatter_in_terminals {
        OutputRoute::RawForTerminal
    } else if format_enabled {
        OutputRoute::Formatted
    } else {
        OutputRoute::RawUnformatted
    }
}

pub fn output_route(
    target_app: Option<&str>,
    skip_formatter_in_terminals: bool,
    format_enabled: bool,
) -> (r: OutputRoute)
    ensures
        r == spec_output_route(opt_view(target_app), skip_formatter_in_terminals, format_enabled),
{
    let terminal = match target_app {
        Some(a) => is_terminal_like_app(a),
        None => false,
    };
    if terminal && skip_formatter_in_terminals {
        OutputRoute::RawForTerminal
    } else if format_enabled {
        OutputRoute::Formatted
    } else {
        OutputRoute::RawUnformatted
    }
}

/// The name the messages use for the target app.
pub open spec fn destination_name(target_app: Option<Seq<char>>) -> Seq<char> {
    match target_app {
        Some(a) => a,
        None => "focused app"@,
    }
}

/// The message shown once the text is inserted.
pub open spec fn spec_inserted_message(
    route: OutputRoute,
    used_raw_fallback: bool,
    destination: Seq<char>,
) -> Seq<char> {
    match route {
        OutputRoute::RawForTerminal => "Inserted raw transcript into "@ + destination
            + " (LLM formatter skipped)."@,
        OutputRoute::Formatted => if used_raw_fallback {
            "Inserted raw transcript into "@ + destination
                + " (formatter output failed safety check)."@
        } else {
            "Inserted text into "@ + destination + "."@
        },
        OutputRoute::RawUnformatted => "Inserted raw transcript into "@ + destination + "."@,
    }
}

pub fn inserted_message(route: OutputRoute, used_raw_fallback: bool, target_app: Option<&str>) -> (s:
    String)
    ensures
        s@ == spec_inserted_message(route, used_raw_fallback, destination_name(opt_view(target_app))),
{
    let mut v: Vec<char> = Vec::new();
    let dest = match target_app {
        Some(a) => a,
        None => "focused app",
    };
    match route {
        OutputRoute::RawForTerminal => {
            append_str(&mut v, "Inserted raw transcript into ");
            append_str(&mut v, dest);
            append_str(&mut v, " (LLM formatter skipped).");
        },
        OutputRoute::Formatted => {
            if used_raw_fallback {
                append_str(&mut v, "Inserted raw transcript into ");
                append_str(&mut v, dest);
                append_str(&mut v, " (formatter output failed safety check).");
            } else {
                append_str(&mut v, "Inserted text into ");
                append_str(&mut v, dest);
                append_str(&mut v, ".");
            }
        },
        OutputRoute::RawUnformatted => {
            append_str(&mut v, "Inserted raw transcript into ");
            append_str(&mut v, dest);
            append_str(&mut v, ".");
        },
    }
    string_of(&v)
}

/// The status after a successful dictation: idle, with the insertion message
/// and the processing time. The success sound plays.
pub fn pipeline_succeeded_update(inserted_message: &str, latency_ms: u64) -> (u: StatusUpdate)
    ensures
        is_idle_update(u, inserted_message@ + " "@ + decimal(latency_ms as nat) + "ms"@),
{
    let mut v: Vec<char> = Vec::new();
    append_str(&mut v, inserted_message);
    append_str(&mut v, " ");
    push_decimal(&mut v, latency_ms);
    append_str(&mut v, "ms");
    idle_update(string_of(&v))
}

/// The pipeline deletes its audio file whatever happened. A failed deletion
/// is reported only when the file is still there and the pipeline itself
/// succeeded; otherwise the pipeline's own result stands.
pub fn cleanup_failure_message(
    removed: bool,
    still_exists: bool,
    pipeline_succeeded: bool,
    error: &str,
) -> (r: Option<String>)
    ensures
        r is Some <==> (!removed && still_exists && pipeline_succeeded),
        r matches Some(s) ==> s@ == "Finished processing, but failed to delete temp file: "@
            + error@,
{
    if !removed && still_exists && pipeline_succeeded {
        let mut v: Vec<char> = Vec::new();
        append_str(&mut v, "Finished processing, but failed to delete temp file: ");
        append_str(&mut v, error);
        Some(string_of(&v))
    } else {
        None
    }
}

// ---------------------------------------------------------------------------
// Captured audio
// ---------------------------------------------------------------------------

/// A sample's magnitude as a fraction of full scale, clamped to full scale
/// (only `i16::MIN` exceeds it).
pub open spec fn sample_magnitude(s: i16) -> nat {
    let a = if s < 0 {
        -(s as int)
    } else {
        s as int
    };
    if a > SAMPLE_FULL_SCALE {
        SAMPLE_FULL_SCALE as nat
    } else {
        a as nat
    }
}

/// The largest magnitude in the samples.
pub open spec fn peak_magnitude(s: Seq<i16>) -> nat
    decreases s.len(),
{
    if s.len() == 0 {
        0
    } else {
        let p = peak_magnitude(s.drop_last());
        let m = sample_magnitude(s.last());
        if m > p {
            m
        } else {
            p
        }
    }
}

/// The sum of the squared magnitudes.
pub open spec fn sum_of_squares(s: Seq<i16>) -> nat
    decreases s.len(),
{
    if s.len() == 0 {
        0
    } else {
        sum_of_squares(s.drop_last()) + sample_magnitude(s.last()) * sample_magnitude(s.last())
    }
}

/// The length in milliseconds of `sample_count` interleaved samples: whole
/// frames times 1000 (saturating at `u64::MAX`) divided by the rate, a
/// channel count or rate of 0 counting as 1.
pub open spec fn capture_duration_ms(sample_count: nat, channels: u16, sample_rate: u32) -> nat {
    let ch: nat = if channels == 0 {
        1
    } else {
        channels as nat
    };
    let rate: nat = if sample_rate == 0 {
        1
    } else {
        sample_rate as nat
    };
    let frames = sample_count / ch;
    let scaled: nat = if frames * 1000 > u64::MAX {
        u64::MAX as nat
    } else {
        frames * 1000
    };
    scaled / rate
}

/// Measurements of a capture, in sample units: its length, the peak
/// magnitude and the sum of squared magnitudes (so the RMS level is
/// `sqrt(sum_squares / sample_count) / 32767`).
#[derive(Clone, Copy, Debug)]
pub struct AudioCaptureStats {
    pub duration_ms: u64,
    pub sample_count: u64,
    pub peak: u16,
    pub sum_squares: u128,
}

pub open spec fn stats_of(s: AudioCaptureStats, samples: Seq<i16>, channels: u16, sample_rate: u32) -> bool {
    &&& s.sample_count == samples.len()
    &&& s.duration_ms == capture_duration_ms(samples.len(), channels, sample_rate)
    &&& s.peak == peak_magnitude(samples)
    &&& s.sum_squares == sum_of_squares(samples)
}

proof fn lemma_capture_bounds(s: Seq<i16>)
    ensures
        peak_magnitude(s) <= SAMPLE_FULL_SCALE,
        sum_of_squares(s) <= s.len() * (SAMPLE_FULL_SCALE as nat * SAMPLE_FULL_SCALE as nat),
    decreases s.len(),
{
    if s.len() > 0 {
        lemma_capture_bounds(s.drop_last());
        let m = sample_magnitude(s.last());
        assert(m * m <= SAMPLE_FULL_SCALE as nat * SAMPLE_FULL_SCALE as nat) by (nonlinear_arith)
            requires
                m <= SAMPLE_FULL_SCALE,
        ;
        assert(s.drop_last().len() * (SAMPLE_FULL_SCALE as nat * SAMPLE_FULL_SCALE as nat) + (
        SAMPLE_FULL_SCALE as nat * SAMPLE_FULL_SCALE as nat) == s.len() * (SAMPLE_FULL_SCALE as nat
            * SAMPLE_FULL_SCALE as nat)) by (nonlinear_arith)
            requires
                s.drop_last().len() + 1 == s.len(),
        ;
    }
}

/// Measures a capture given its interleaved 16-bit samples, channel count
/// and sample rate.
pub fn analyze_wav_capture(samples: &[i16], channels: u16, sample_rate: u32) -> (r:
    AudioCaptureStats)
    requires
        samples@.len() <= u64::MAX,
    ensures
        stats_of(r, samples@, channels, sample_rate),
{
    let n = samples.len();
    let mut peak: u16 = 0;
    let mut sum: u128 = 0;
    let mut i: usize = 0;
    while i < n
        invariant
            i <= n == samples@.len(),
            n <= u64::MAX,
            peak == peak_magnitude(samples@.take(i as int)),
            sum == sum_of_squares(samples@.take(i as int)),
        decreases n - i,
    {
        proof {
            assert(samples@.take(i + 1).drop_last() =~= samples@.take(i as int));
            lemma_capture_bounds(samples@.take(i + 1));
            assert(i + 1 <= u64::MAX);
            assert((i + 1) * (SAMPLE_FULL_SCALE as nat * SAMPLE_FULL_SCALE as nat) <= 0x1_0000_0000_0000_0000
                * 0x4000_0000) by (nonlinear_arith)
                requires
                    i + 1 <= 0x1_0000_0000_0000_0000nat,
            ;
        }
        let s = samples[i];
        let a: u16 = if s < 0 {
            if s == i16::MIN {
                SAMPLE_FULL_SCALE
            } else {
                (-s) as u16
            }
        } else {
            s as u16
        };
        if a > peak {
            peak = a;
        }
        sum = sum + (a as u128) * (a as u128);
        i += 1;
    }
    assert(samples@.take(n as int) =~= samples@);
    let count = n as u64;
    let ch: u64 = if channels == 0 {
        1
    } else {
        channels as u64
    };
    let rate: u64 = if sample_rate == 0 {
        1
    } else {
        sample_rate as u64
    };
    let frames = count / ch;
    let scaled: u64 = if frames > u64::MAX / 1000 {
        u64::MAX
    } else {
        frames * 1000
    };
    AudioCaptureStats { duration_ms: scaled / rate, sample_count: count, peak, sum_squares: sum }
}

/// The RMS level is under 0.0015 of full scale: `sum / n < (0.0015 * 32767)^2`,
/// in integers.
pub open spec fn rms_below_floor(sum_squares: nat, sample_count: nat) -> bool {
    sum_squares * 100_000_000 < sample_count * 225 * (SAMPLE_FULL_SCALE as nat * SAMPLE_FULL_SCALE as nat)
}

/// The peak is under 0.01 of full scale.
pub open spec fn peak_below_floor(peak: nat) -> bool {
    peak * 100 < SAMPLE_FULL_SCALE
}

pub open spec fn no_audio_message(app_name: Seq<char>) -> Seq<char> {
    "No microphone audio was captured. Check macOS Microphone permission for "@ + app_name
        + ", then try again."@
}

pub open spec fn no_speech_message() -> Seq<char> {
    "No speech detected. Check the selected microphone and macOS Microphone permission, then try again."@
}

/// Rejects a capture that holds no audio (nothing, or under 250 ms) or only
/// silence (both RMS and peak under their floors); otherwise hands back its
/// measurements.
pub fn validate_audio_capture(
    samples: &[i16],
    channels: u16,
    sample_rate: u32,
    app_name: &str,
) -> (r: Result<AudioCaptureStats, String>)
    requires
        samples@.len() <= u64::MAX,
    ensures
        samples@.len() == 0 || capture_duration_ms(samples@.len(), channels, sample_rate)
            < MIN_CAPTURED_AUDIO_MS ==> (r matches Err(e) && e@ == no_audio_message(app_name@)),
        !(samples@.len() == 0 || capture_duration_ms(samples@.len(), channels, sample_rate)
            < MIN_CAPTURED_AUDIO_MS) && rms_below_floor(sum_of_squares(samples@), samples@.len())
            && peak_below_floor(peak_magnitude(samples@)) ==> (r matches Err(e) && e@
            == no_speech_message()),
        !(samples@.len() == 0 || capture_duration_ms(samples@.len(), channels, sample_rate)
            < MIN_CAPTURED_AUDIO_MS) && !(rms_below_floor(sum_of_squares(samples@), samples@.len())
            && peak_below_floor(peak_magnitude(samples@))) ==> (r matches Ok(s) && stats_of(
            s,
            samples@,
            channels,
            sample_rate,
        )),
{
    let stats = analyze_wav_capture(samples, channels, sample_rate);
    if stats.sample_count == 0 || stats.duration_ms < MIN_CAPTURED_AUDIO_MS {
        let mut v: Vec<char> = Vec::new();
        append_str(&mut v, "No microphone audio was captured. Check macOS Microphone permission for ");
        append_str(&mut v, app_name);
        append_str(&mut v, ", then try again.");
        return Err(string_of(&v));
    }
    proof {
        lemma_capture_bounds(samples@);
        assert(sum_of_squares(samples@) * 100_000_000 <= 0x1_0000_0000_0000_0000 * 0x4000_0000
            * 100_000_000) by (nonlinear_arith)
            requires
                sum_of_squares(samples@) <= samples@.len() * (SAMPLE_FULL_SCALE as nat
                    * SAMPLE_FULL_SCALE as nat),
                samples@.len() <= 0xffff_ffff_ffff_ffffnat,
        ;
        assert((stats.sample_count as nat) * 225 * (SAMPLE_FULL_SCALE as nat * SAMPLE_FULL_SCALE as nat)
            <= 0x1_0000_0000_0000_0000 * 225 * 0x4000_0000) by (nonlinear_arith)
            requires
                stats.sample_count <= 0xffff_ffff_ffff_ffffnat,
        ;
    }
    let full: u128 = SAMPLE_FULL_SCALE as u128;
    let rms_low = stats.sum_squares * 100_000_000 < (stats.sample_count as u128) * 225 * (full
        * full);
    let peak_low = (stats.peak as u32) * 100 < (SAMPLE_FULL_SCALE as u32);
    if rms_low && peak_low {
        return Err(
            "No speech detected. Check the selected microphone and macOS Microphone permission, then try again."
                .to_string(),
        );
    }
    Ok(stats)
}


/// A capture of nothing but zero samples is always taken for silence.
pub proof fn lemma_silence_is_below_floors(samples: Seq<i16>)
    requires
        forall|i: int| 0 <= i < samples.len() ==> samples[i] == 0,
    ensures
        sum_of_squares(samples) == 0,
        peak_magnitude(samples) == 0,
        samples.len() > 0 ==> rms_below_floor(sum_of_squares(samples), samples.len()),
        peak_below_floor(peak_magnitude(samples)),
    decreases samples.len(),
{
    if samples.len() > 0 {
        let init = samples.drop_last();
        assert forall|i: int| 0 <= i < init.len() implies init[i] == 0 by {
            assert(init[i] == samples[i]);
        }
        lemma_silence_is_below_floors(init);
        assert(samples.last() == 0);
        assert(sample_magnitude(samples.last()) == 0);
        assert(sample_magnitude(samples.last()) * sample_magnitude(samples.last()) == 0);
        assert(samples.len() * 225 * (SAMPLE_FULL_SCALE as nat * SAMPLE_FULL_SCALE as nat) > 0) by (
        nonlinear_arith)
            requires
                samples.len() > 0,
        ;
    }
}

/// A transcript for a terminal target (its name, lower-cased, contains a
/// known terminal marker) skips the formatter whenever the settings say so,
/// whether or not formatting is on; otherwise it is formatted exactly when
/// formatting is on.
pub proof fn lemma_terminal_targets_skip_formatting(
    app_name: Seq<char>,
    marker: Seq<char>,
    format_enabled: bool,
)
    requires
        known_terminal_marker(marker),
        contains_seq(lower_seq(app_name), marker),
    ensures
        spec_output_route(Some(app_name), true, format_enabled) == OutputRoute::RawForTerminal,
        spec_output_route(Some(app_name), false, format_enabled) == if format_enabled {
            OutputRoute::Formatted
        } else {
            OutputRoute::RawUnformatted
        },
{
    lemma_terminal_apps_are_typed_into(app_name, marker, false);
}

} // verus!
