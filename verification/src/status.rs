//! The runtime status shown in the tray, the overlay and the settings window,
//! and the sound cues that accompany its changes.
use vstd::prelude::*;

use crate::hotkeys::Platform;
use crate::text::{append_str, string_of};

verus! {

/// Largest value the microphone meter shows.
pub const MIC_LEVEL_MAX: u8 = 100;

/// What the UI shows about the recorder.
#[derive(Clone, Debug)]
pub struct RuntimeStatus {
    pub is_recording: bool,
    pub is_processing: bool,
    pub mic_level: u8,
    pub last_message: String,
}

impl RuntimeStatus {
    /// The meter never shows more than full scale.
    pub open spec fn well_formed(&self) -> bool {
        self.mic_level <= MIC_LEVEL_MAX
    }

    /// The status at start-up.
    pub fn initial() -> (s: RuntimeStatus)
        ensures
            !s.is_recording,
            !s.is_processing,
            s.mic_level == 0,
            s.last_message@ == "Ready"@,
            s.well_formed(),
    {
        RuntimeStatus {
            is_recording: false,
            is_processing: false,
            mic_level: 0,
            last_message: "Ready".to_string(),
        }
    }

    /// The status reported when the shared status cannot be read.
    pub fn unavailable() -> (s: RuntimeStatus)
        ensures
            !s.is_recording,
            !s.is_processing,
            s.mic_level == 0,
            s.last_message@ == "State unavailable"@,
            s.well_formed(),
    {
        RuntimeStatus {
            is_recording: false,
            is_processing: false,
            mic_level: 0,
            last_message: "State unavailable".to_string(),
        }
    }

    /// Applies a status change: each flag or level that is given replaces the
    /// current one (the level capped at full scale), the message always does.
    pub fn set_status(
        &mut self,
        is_recording: Option<bool>,
        is_processing: Option<bool>,
        mic_level: Option<u8>,
        message: String,
    )
        ensures
            final(self).is_recording == match is_recording {
                Some(v) => v,
                None => old(self).is_recording,
            },
            final(self).is_processing == match is_processing {
                Some(v) => v,
                None => old(self).is_processing,
            },
            final(self).mic_level == match mic_level {
                Some(v) => if v <= MIC_LEVEL_MAX {
                    v
                } else {
                    MIC_LEVEL_MAX
                },
                None => old(self).mic_level,
            },
            final(self).last_message == message,
            old(self).well_formed() ==> final(self).well_formed(),
    {
        if let Some(v) = is_recording {
            self.is_recording = v;
        }
        if let Some(v) = is_processing {
            self.is_processing = v;
        }
        if let Some(v) = mic_level {
            self.mic_level = if v <= MIC_LEVEL_MAX {
                v
            } else {
                MIC_LEVEL_MAX
            };
        }
        self.last_message = message;
    }

    /// Records a new meter reading. Readings arrive only while recording;
    /// outside a recording the status is left alone and nothing is sent.
    /// Returns whether the status changed and is to be sent to the UI.
    pub fn emit_mic_level(&mut self, mic_level: u8) -> (sent: bool)
        ensures
            sent == old(self).is_recording,
            final(self).is_recording == old(self).is_recording,
            final(self).is_processing == old(self).is_processing,
            final(self).last_message == old(self).last_message,
            final(self).mic_level == if sent {
                if mic_level <= MIC_LEVEL_MAX {
                    mic_level
                } else {
                    MIC_LEVEL_MAX
                }
            } else {
                old(self).mic_level
            },
            old(self).well_formed() ==> final(self).well_formed(),
    {
        if !self.is_recording {
            return false;
        }
        self.mic_level = if mic_level <= MIC_LEVEL_MAX {
            mic_level
        } else {
            MIC_LEVEL_MAX
        };
        true
    }

    pub open spec fn spec_tray_label(&self) -> Seq<char> {
        if self.is_recording {
            "Recording"@
        } else if self.is_processing {
            "Processing"@
        } else {
            "Idle"@
        }
    }

    /// The overlay is on screen while recording or processing.
    pub fn overlay_visible(&self) -> (b: bool)
        ensures
            b == (self.is_recording || self.is_processing),
    {
        self.is_recording || self.is_processing
    }
}

/// The word the tray shows for the recorder's state.
pub fn tray_state_label(status: &RuntimeStatus) -> (s: &'static str)
    ensures
        s@ == status.spec_tray_label(),
{
    if status.is_recording {
        "Recording"
    } else if status.is_processing {
        "Processing"
    } else {
        "Idle"
    }
}

/// The tray tooltip: the app's name, a dash and the state.
pub fn tray_tooltip(display_name: &str, status: &RuntimeStatus) -> (s: String)
    ensures
        s@ == display_name@ + " - "@ + status.spec_tray_label(),
{
    let mut v: Vec<char> = Vec::new();
    append_str(&mut v, display_name);
    append_str(&mut v, " - ");
    append_str(&mut v, tray_state_label(status));
    string_of(&v)
}

// ---------------------------------------------------------------------------
// Sound cues
// ---------------------------------------------------------------------------

/// The short sounds played when a recording starts, succeeds or fails.
#[derive(Clone, Copy, PartialEq, Eq, Structural, Debug)]
pub enum Earcon {
    Start,
    Success,
    Error,
}

impl Earcon {
    pub open spec fn sound_name(self) -> Seq<char> {
        match self {
            Earcon::Start => "Hero"@,
            Earcon::Success => "Glass"@,
            Earcon::Error => "Basso"@,
        }
    }
}

pub open spec fn system_sound_path(name: Seq<char>) -> Seq<char> {
    "/System/Library/Sounds/"@ + name + ".aiff"@
}

/// The system sound file that stands for an earcon, where the platform has
/// one (macOS); elsewhere nothing is played.
pub fn play_earcon(earcon: Earcon, platform: Platform) -> (path: Option<String>)
    ensures
        match path {
            Some(p) => platform.is_mac() && p@ == system_sound_path(earcon.sound_name()),
            None => !platform.is_mac(),
        },
{
    if !platform.mac() {
        return None;
    }
    let name = match earcon {
        Earcon::Start => "Hero",
        Earcon::Success => "Glass",
        Earcon::Error => "Basso",
    };
    let mut v: Vec<char> = Vec::new();
    append_str(&mut v, "/System/Library/Sounds/");
    append_str(&mut v, name);
    append_str(&mut v, ".aiff");
    Some(string_of(&v))
}

/// The sound to play for an earcon given the user's sound-cue setting.
pub fn play_earcon_if_enabled(enabled: bool, earcon: Earcon, platform: Platform) -> (path: Option<
    String,
>)
    ensures
        match path {
            Some(p) => enabled && platform.is_mac() && p@ == system_sound_path(earcon.sound_name()),
            None => !enabled || !platform.is_mac(),
        },
{
    if enabled {
        play_earcon(earcon, platform)
    } else {
        None
    }
}

// ---------------------------------------------------------------------------
// Branding
// ---------------------------------------------------------------------------

/// Names the build is branded with: read from a bundled JSON file, with these
/// defaults when the file is missing or malformed.
#[derive(Clone, Debug)]
pub struct AppConfig {
    pub display_name: String,
    pub log_prefix: String,
    pub temp_file_prefix: String,
}

impl AppConfig {
    pub fn default_config() -> (c: AppConfig)
        ensures
            c.display_name@ == "Desktop Dictation"@,
            c.log_prefix@ == "app"@,
            c.temp_file_prefix@ == "app"@,
    {
        AppConfig {
            display_name: "Desktop Dictation".to_string(),
            log_prefix: "app".to_string(),
            temp_file_prefix: "app".to_string(),
        }
    }
}

/// The configuration in use: the parsed file, or the defaults when it could
/// not be parsed.
pub fn app_config(parsed: Option<AppConfig>) -> (c: AppConfig)
    ensures
        match parsed {
            Some(p) => c == p,
            None => c.display_name@ == "Desktop Dictation"@ && c.log_prefix@ == "app"@
                && c.temp_file_prefix@ == "app"@,
        },
{
    match parsed {
        Some(p) => p,
        None => AppConfig::default_config(),
    }
}

pub fn app_display_name(config: &AppConfig) -> (s: &str)
    ensures
        s@ == config.display_name@,
{
    config.display_name.as_str()
}

pub fn app_log_prefix(config: &AppConfig) -> (s: &str)
    ensures
        s@ == config.log_prefix@,
{
    config.log_prefix.as_str()
}

pub fn app_temp_file_prefix(config: &AppConfig) -> (s: &str)
    ensures
        s@ == config.temp_file_prefix@,
{
    config.temp_file_prefix.as_str()
}

} // verus!
