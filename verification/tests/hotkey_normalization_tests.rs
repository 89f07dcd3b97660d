use verba::hotkeys::{normalize_requested_hotkey, normalize_requested_hotkeys, Platform};

fn strings(v: &[&str]) -> Vec<String> {
    v.iter().map(|s| s.to_string()).collect()
}

#[test]
fn normalizes_spacing_and_empty_parts() {
    assert_eq!(
        normalize_requested_hotkey("  Ctrl + +Space ", Platform::Other),
        "Ctrl+Space"
    );
    assert_eq!(normalize_requested_hotkey("   ", Platform::Other), "");
    assert_eq!(normalize_requested_hotkey("+", Platform::Other), "");
}

#[test]
fn canonicalizes_fn_only_on_mac() {
    assert_eq!(normalize_requested_hotkey("fN + space", Platform::MacOs), "Fn+space");
    assert_eq!(normalize_requested_hotkey("fN + space", Platform::Other), "fN+space");
}

#[test]
fn normalizing_twice_changes_nothing() {
    for input in [" ctrl+ shift +k", "fn+ +Space", "", " + ", "Alt+\tR "] {
        for platform in [Platform::MacOs, Platform::Other] {
            let once = normalize_requested_hotkey(input, platform);
            assert_eq!(normalize_requested_hotkey(&once, platform), once);
        }
    }
}

#[test]
fn list_drops_blanks_and_case_insensitive_duplicates() {
    let normalized = normalize_requested_hotkeys(
        &strings(&["Ctrl+Space", " ctrl + space", "", "Alt+R", "ALT+r", "Cmd+1"]),
        Platform::Other,
    );
    assert_eq!(normalized, strings(&["Ctrl+Space", "Alt+R", "Cmd+1"]));
    assert_eq!(normalize_requested_hotkeys(&normalized, Platform::Other), normalized);
}

#[test]
fn empty_list_stays_empty() {
    assert!(normalize_requested_hotkeys(&strings(&[" ", "+"]), Platform::MacOs).is_empty());
}
