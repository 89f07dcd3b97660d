use verba::hotkeys::Platform;
use verba::permissions::{
    accessibility_permission_status, microphone_permission_status, open_settings_result,
    MicrophoneProbe, PrivacyPane,
};

#[test]
fn accessibility_status_on_mac() {
    let granted = accessibility_permission_status(Platform::MacOs, "macos", true, "Verba");
    assert_eq!(granted.platform, "macOS");
    assert!(granted.is_granted);
    assert_eq!(granted.status, "granted");
    let missing = accessibility_permission_status(Platform::MacOs, "macos", false, "Verba");
    assert_eq!(missing.status, "missing");
    assert_eq!(
        missing.guidance,
        "Accessibility permission is not granted. Open System Settings > Privacy & Security > Accessibility and enable Verba."
    );
    let other = accessibility_permission_status(Platform::Other, "linux", true, "Verba");
    assert_eq!(other.platform, "linux");
    assert!(!other.is_supported && !other.is_granted);
    assert_eq!(other.status, "unsupported");
}

#[test]
fn microphone_status_follows_the_probe() {
    let busy = microphone_permission_status("macos", "Verba", MicrophoneProbe::Busy);
    assert_eq!(busy.status, "busy");
    assert!(busy.is_supported && !busy.is_granted);
    let none = microphone_permission_status("macos", "Verba", MicrophoneProbe::NoInputDevice);
    assert_eq!(none.guidance, "No default microphone input device was found.");
    let format = microphone_permission_status(
        "macos",
        "Verba",
        MicrophoneProbe::UnsupportedFormat("I24".to_string()),
    );
    assert_eq!(format.status, "unsupported");
    assert_eq!(format.guidance, "Unsupported microphone sample format: I24.");
    let failed = microphone_permission_status(
        "macos",
        "Verba",
        MicrophoneProbe::StreamFailed("denied".to_string()),
    );
    assert_eq!(
        failed.guidance,
        "Microphone permission is not granted. Open System Settings > Privacy & Security > Microphone and enable Verba. (denied)"
    );
    let ok = microphone_permission_status(
        "macos",
        "Verba",
        MicrophoneProbe::Finished { samples_received: 480 },
    );
    assert!(ok.is_granted);
    assert_eq!(ok.guidance, "Microphone permission is granted.");
    let silent = microphone_permission_status(
        "macos",
        "Verba",
        MicrophoneProbe::Finished { samples_received: 0 },
    );
    assert_eq!(silent.status, "missing");
}

#[test]
fn privacy_panes_and_open_results() {
    assert_eq!(
        PrivacyPane::Microphone.settings_urls(),
        vec![
            "x-apple.systempreferences:com.apple.preference.security?Privacy_Microphone",
            "x-apple.systempreferences:com.apple.preference.security?Privacy"
        ]
    );
    assert_eq!(
        open_settings_result(PrivacyPane::Accessibility, Platform::MacOs, true, "Verba"),
        Ok("Opened macOS Privacy settings. Enable Accessibility for Verba.".to_string())
    );
    assert_eq!(
        open_settings_result(PrivacyPane::Microphone, Platform::MacOs, false, "Verba"),
        Err("Failed to open macOS Microphone settings automatically. Open System Settings > Privacy & Security > Microphone manually.".to_string())
    );
    assert_eq!(
        open_settings_result(PrivacyPane::Microphone, Platform::Other, false, "Verba"),
        Err("Opening Microphone settings is only supported on macOS in this app.".to_string())
    );
}
