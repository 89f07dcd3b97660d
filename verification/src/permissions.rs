//! What the settings window is told about the Accessibility and Microphone
//! permissions, from the outcome of the system checks.
use vstd::prelude::*;

use crate::hotkeys::Platform;
use crate::text::{append_str, string_of};

verus! {

/// A permission's state as shown to the user.
pub struct PermissionStatus {
    pub platform: String,
    pub is_supported: bool,
    pub is_granted: bool,
    pub status: String,
    pub guidance: String,
}

pub open spec fn status_is(
    s: PermissionStatus,
    platform: Seq<char>,
    is_supported: bool,
    is_granted: bool,
    status: Seq<char>,
    guidance: Seq<char>,
) -> bool {
    &&& s.platform@ == platform
    &&& s.is_supported == is_supported
    &&& s.is_granted == is_granted
    &&& s.status@ == status
    &&& s.guidance@ == guidance
}

fn make_status(
    platform: &str,
    is_supported: bool,
    is_granted: bool,
    status: &str,
    guidance: String,
) -> (s: PermissionStatus)
    ensures
        status_is(s, platform@, is_supported, is_granted, status@, guidance@),
{
    PermissionStatus {
        platform: platform.to_string(),
        is_supported,
        is_granted,
        status: status.to_string(),
        guidance,
    }
}

fn concat3(a: &str, b: &str, c: &str) -> (s: String)
    ensures
        s@ == a@ + b@ + c@,
{
    let mut v: Vec<char> = Vec::new();
    append_str(&mut v, a);
    append_str(&mut v, b);
    append_str(&mut v, c);
    string_of(&v)
}

pub open spec fn accessibility_missing_guidance(app_name: Seq<char>) -> Seq<char> {
    "Accessibility permission is not granted. Open System Settings > Privacy & Security > Accessibility and enable "@
        + app_name + "."@
}

/// The Accessibility permission, checked on macOS only; `os_name` names the
/// platform elsewhere.
pub fn accessibility_permission_status(
    platform: Platform,
    os_name: &str,
    is_trusted: bool,
    app_name: &str,
) -> (s: PermissionStatus)
    ensures
        platform.is_mac() && is_trusted ==> status_is(
            s,
            "macOS"@,
            true,
            true,
            "granted"@,
            "Accessibility permission is granted."@,
        ),
        platform.is_mac() && !is_trusted ==> status_is(
            s,
            "macOS"@,
            true,
            false,
            "missing"@,
            accessibility_missing_guidance(app_name@),
        ),
        !platform.is_mac() ==> status_is(
            s,
            os_name@,
            false,
            false,
            "unsupported"@,
            "Accessibility permission checks are currently implemented for macOS only."@,
        ),
{
    if platform.mac() {
        if is_trusted {
            make_status(
                "macOS",
                true,
                true,
                "granted",
                "Accessibility permission is granted.".to_string(),
            )
        } else {
            make_status(
                "macOS",
                true,
                false,
                "missing",
                concat3(
                    "Accessibility permission is not granted. Open System Settings > Privacy & Security > Accessibility and enable ",
                    app_name,
                    ".",
                ),
            )
        }
    } else {
        make_status(
            os_name,
            false,
            false,
            "unsupported",
            "Accessibility permission checks are currently implemented for macOS only.".to_string(),
        )
    }
}

/// How the microphone check went: the recorder was busy, the default input
/// could not be opened (and why), or it ran briefly and delivered this many
/// samples.
pub enum MicrophoneProbe {
    Busy,
    NoInputDevice,
    NoInputConfig,
    /// The input's sample format, as the audio library names it.
    UnsupportedFormat(String),
    /// Building or starting the input stream failed with this error.
    StreamFailed(String),
    Finished { samples_received: u64 },
}

pub open spec fn microphone_missing_guidance(app_name: Seq<char>, error: Seq<char>) -> Seq<char> {
    "Microphone permission is not granted. Open System Settings > Privacy & Security > Microphone and enable "@
        + app_name + ". ("@ + error + ")"@
}

pub open spec fn microphone_silent_guidance(app_name: Seq<char>) -> Seq<char> {
    "No microphone input was received. Open System Settings > Privacy & Security > Microphone and enable "@
        + app_name + "."@
}

/// The Microphone permission as the probe of the default input found it.
pub fn microphone_permission_status(os_name: &str, app_name: &str, probe: MicrophoneProbe) -> (s:
    PermissionStatus)
    ensures
        s.platform@ == os_name@,
        s.is_supported,
        match probe {
            MicrophoneProbe::Busy => status_is(
                s,
                os_name@,
                true,
                false,
                "busy"@,
                "Microphone is already in use by the current recording."@,
            ),
            MicrophoneProbe::NoInputDevice => status_is(
                s,
                os_name@,
                true,
                false,
                "unavailable"@,
                "No default microphone input device was found."@,
            ),
            MicrophoneProbe::NoInputConfig => status_is(
                s,
                os_name@,
                true,
                false,
                "unavailable"@,
                "No default microphone input configuration was found."@,
            ),
            MicrophoneProbe::UnsupportedFormat(f) => status_is(
                s,
                os_name@,
                true,
                false,
                "unsupported"@,
                "Unsupported microphone sample format: "@ + f@ + "."@,
            ),
            MicrophoneProbe::StreamFailed(e) => status_is(
                s,
                os_name@,
                true,
                false,
                "missing"@,
                microphone_missing_guidance(app_name@, e@),
            ),
            MicrophoneProbe::Finished { samples_received } => if samples_received > 0 {
                status_is(
                    s,
                    os_name@,
                    true,
                    true,
                    "granted"@,
                    "Microphone permission is granted."@,
                )
            } else {
                status_is(
                    s,
                    os_name@,
                    true,
                    false,
                    "missing"@,
                    microphone_silent_guidance(app_name@),
                )
            },
        },
{
    match probe {
        MicrophoneProbe::Busy => make_status(
            os_name,
            true,
            false,
            "busy",
            "Microphone is already in use by the current recording.".to_string(),
        ),
        MicrophoneProbe::NoInputDevice => make_status(
            os_name,
            true,
            false,
            "unavailable",
            "No default microphone input device was found.".to_string(),
        ),
        MicrophoneProbe::NoInputConfig => make_status(
            os_name,
            true,
            false,
            "unavailable",
            "No default microphone input configuration was found.".to_string(),
        ),
        MicrophoneProbe::UnsupportedFormat(f) => make_status(
            os_name,
            true,
            false,
            "unsupported",
            concat3("Unsupported microphone sample format: ", f.as_str(), "."),
        ),
        MicrophoneProbe::StreamFailed(e) => {
            let mut v: Vec<char> = Vec::new();
            append_str(
                &mut v,
                "Microphone permission is not granted. Open System Settings > Privacy & Security > Microphone and enable ",
            );
            append_str(&mut v, app_name);
            append_str(&mut v, ". (");
            append_str(&mut v, e.as_str());
            append_str(&mut v, ")");
            make_status(os_name, true, false, "missing", string_of(&v))
        },
        MicrophoneProbe::Finished { samples_received } => {
            if samples_received > 0 {
                make_status(
                    os_name,
                    true,
                    true,
                    "granted",
                    "Microphone permission is granted.".to_string(),
                )
            } else {
                make_status(
                    os_name,
                    true,
                    false,
                    "missing",
                    concat3(
                        "No microphone input was received. Open System Settings > Privacy & Security > Microphone and enable ",
                        app_name,
                        ".",
                    ),
                )
            }
        },
    }
}

/// The two privacy panes the app can open.
#[derive(Clone, Copy, PartialEq, Eq, Structural, Debug)]
pub enum PrivacyPane {
    Accessibility,
    Microphone,
}

impl PrivacyPane {
    pub open spec fn name(self) -> Seq<char> {
        match self {
            PrivacyPane::Accessibility => "Accessibility"@,
            PrivacyPane::Microphone => "Microphone"@,
        }
    }

    pub fn as_str(self) -> (s: &'static str)
        ensures
            s@ == self.name(),
    {
        match self {
            PrivacyPane::Accessibility => "Accessibility",
            PrivacyPane::Microphone => "Microphone",
        }
    }

    /// System Settings URLs to try in turn: the pane itself, then the
    /// privacy section.
    pub fn settings_urls(self) -> (urls: Vec<&'static str>)
        ensures
            urls@.len() == 2,
            urls@[0]@ == "x-apple.systempreferences:com.apple.preference.security?Privacy_"@
                + self.name(),
            urls@[1]@ == "x-apple.systempreferences:com.apple.preference.security?Privacy"@,
    {
        let first = match self {
            PrivacyPane::Accessibility => "x-apple.systempreferences:com.apple.preference.security?Privacy_Accessibility",
            PrivacyPane::Microphone => "x-apple.systempreferences:com.apple.preference.security?Privacy_Microphone",
        };
        proof {
            reveal_strlit("x-apple.systempreferences:com.apple.preference.security?Privacy_Accessibility");
            reveal_strlit("x-apple.systempreferences:com.apple.preference.security?Privacy_Microphone");
            reveal_strlit("x-apple.systempreferences:com.apple.preference.security?Privacy_");
            reveal_strlit("Accessibility");
            reveal_strlit("Microphone");
        }
        assert(first@ == "x-apple.systempreferences:com.apple.preference.security?Privacy_"@
            + self.name());
        vec![first, "x-apple.systempreferences:com.apple.preference.security?Privacy"]
    }
}

/// The answer to a request to open a privacy pane: on macOS, whether one of
/// its URLs opened; elsewhere the request is not supported.
pub fn open_settings_result(pane: PrivacyPane, platform: Platform, opened: bool, app_name: &str) -> (r:
    Result<String, String>)
    ensures
        platform.is_mac() && opened ==> (r matches Ok(s) && s@
            == "Opened macOS Privacy settings. Enable "@ + pane.name() + " for "@ + app_name@ + "."@),
        platform.is_mac() && !opened ==> (r matches Err(e) && e@
            == "Failed to open macOS "@ + pane.name()
            + " settings automatically. Open System Settings > Privacy & Security > "@ + pane.name()
            + " manually."@),
        !platform.is_mac() ==> (r matches Err(e) && e@ == "Opening "@ + pane.name()
            + " settings is only supported on macOS in this app."@),
{
    let mut v: Vec<char> = Vec::new();
    if !platform.mac() {
        append_str(&mut v, "Opening ");
        append_str(&mut v, pane.as_str());
        append_str(&mut v, " settings is only supported on macOS in this app.");
        return Err(string_of(&v));
    }
    if opened {
        append_str(&mut v, "Opened macOS Privacy settings. Enable ");
        append_str(&mut v, pane.as_str());
        append_str(&mut v, " for ");
        append_str(&mut v, app_name);
        append_str(&mut v, ".");
        Ok(string_of(&v))
    } else {
        append_str(&mut v, "Failed to open macOS ");
        append_str(&mut v, pane.as_str());
        append_str(&mut v, " settings automatically. Open System Settings > Privacy & Security > ");
        append_str(&mut v, pane.as_str());
        append_str(&mut v, " manually.");
        Err(string_of(&v))
    }
}

} // verus!
