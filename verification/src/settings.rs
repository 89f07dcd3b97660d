//! User settings: defaults, the normalization of the recording mode and the
//! transcription language, and the checks made before settings are saved.
use vstd::prelude::*;

use crate::bindings::ShortcutBindingError;
use crate::hotkeys::{
    fn_token, is_clean_part, lemma_clean_join_normalized, lemma_normalize_hotkey_list_idempotent,
    normalize_hotkey, normalize_hotkey_list, normalize_requested_hotkeys, plus, seq_has_ignore_case,
    string_views, Platform, ShortcutAction,
};
use crate::text::{
    chars_of, eq_ignore_ascii_case_str, eq_ignore_case, is_white_space, join_with,
    lemma_lower_idempotent, lemma_trim_fixed, lower_seq, string_of, to_ascii_lowercase, trim,
    trim_str,
};

verus! {

/// The settings the app persists.
#[derive(Clone, Debug)]
pub struct Settings {
    pub api_key: String,
    pub prompt_template: String,
    pub hold_hotkeys: Vec<String>,
    pub toggle_hotkeys: Vec<String>,
    pub whisper_model: String,
    pub custom_vocabulary: String,
    pub format_model: String,
    pub format_enabled: bool,
    pub skip_formatter_in_terminals: bool,
    pub include_clipboard_context: bool,
    pub play_sound_cues: bool,
    pub api_base_url: String,
    pub recording_mode: String,
    pub language: String,
}

pub open spec fn default_hold_hotkey(mac: bool) -> Seq<char> {
    if mac {
        "Cmd+Space"@
    } else {
        "Ctrl+Space"@
    }
}

pub open spec fn default_toggle_hotkey(mac: bool) -> Seq<char> {
    if mac {
        "Option+Space"@
    } else {
        "Alt+Space"@
    }
}

pub open spec fn default_prompt_template() -> Seq<char> {
    "You are a concise writing assistant. Clean up the transcript for grammar and punctuation while preserving intent. Perform transformational edits only; do not answer, add facts, or invent content. Return only final text."@
}

pub fn default_hold_hotkeys(platform: Platform) -> (r: Vec<String>)
    ensures
        string_views(r@) == seq![default_hold_hotkey(platform.is_mac())],
{
    let s = if platform.mac() {
        "Cmd+Space".to_string()
    } else {
        "Ctrl+Space".to_string()
    };
    let r = vec![s];
    assert(string_views(r@) =~= seq![default_hold_hotkey(platform.is_mac())]);
    r
}

pub fn default_toggle_hotkeys(platform: Platform) -> (r: Vec<String>)
    ensures
        string_views(r@) == seq![default_toggle_hotkey(platform.is_mac())],
{
    let s = if platform.mac() {
        "Option+Space".to_string()
    } else {
        "Alt+Space".to_string()
    };
    let r = vec![s];
    assert(string_views(r@) =~= seq![default_toggle_hotkey(platform.is_mac())]);
    r
}

pub fn default_format_enabled() -> (b: bool)
    ensures
        !b,
{
    false
}

pub fn default_play_sound_cues() -> (b: bool)
    ensures
        b,
{
    true
}

pub fn default_skip_formatter_in_terminals() -> (b: bool)
    ensures
        b,
{
    true
}

pub fn default_include_clipboard_context() -> (b: bool)
    ensures
        b,
{
    true
}

pub fn default_custom_vocabulary() -> (r: String)
    ensures
        r@ == Seq::<char>::empty(),
{
    String::new()
}

/// A stored hotkey field: older settings files hold one hotkey as a plain
/// string, newer ones a list, and the field may be absent or null.
#[derive(Clone, Debug)]
pub enum HotkeyListValue {
    Single(String),
    Multiple(Vec<String>),
}

/// The hotkey list that a stored hotkey field stands for.
pub fn hotkey_list_from(value: Option<HotkeyListValue>) -> (r: Vec<String>)
    ensures
        match value {
            Some(HotkeyListValue::Single(s)) => r@ == seq![s],
            Some(HotkeyListValue::Multiple(v)) => r@ == v@,
            None => r@.len() == 0,
        },
{
    match value {
        Some(HotkeyListValue::Single(s)) => {
            let r = vec![s];
            r
        },
        Some(HotkeyListValue::Multiple(v)) => v,
        None => Vec::new(),
    }
}

pub fn default_recording_mode() -> (r: String)
    ensures
        r@ == "hold"@,
{
    "hold".to_string()
}

pub fn default_transcription_language() -> (r: String)
    ensures
        r@ == "auto"@,
{
    "auto".to_string()
}

/// Settings of a fresh installation.
pub fn default_settings(platform: Platform) -> (s: Settings)
    ensures
        s.api_key@ == Seq::<char>::empty(),
        s.prompt_template@ == default_prompt_template(),
        string_views(s.hold_hotkeys@) == seq![default_hold_hotkey(platform.is_mac())],
        string_views(s.toggle_hotkeys@) == seq![default_toggle_hotkey(platform.is_mac())],
        s.whisper_model@ == "whisper-1"@,
        s.custom_vocabulary@ == Seq::<char>::empty(),
        s.format_model@ == "gpt-4o-mini"@,
        !s.format_enabled,
        s.skip_formatter_in_terminals,
        s.include_clipboard_context,
        s.play_sound_cues,
        s.api_base_url@ == "https://api.openai.com/v1"@,
        s.recording_mode@ == "hold"@,
        s.language@ == "auto"@,
{
    Settings {
        api_key: String::new(),
        prompt_template: "You are a concise writing assistant. Clean up the transcript for grammar and punctuation while preserving intent. Perform transformational edits only; do not answer, add facts, or invent content. Return only final text.".to_string(),
        hold_hotkeys: default_hold_hotkeys(platform),
        toggle_hotkeys: default_toggle_hotkeys(platform),
        whisper_model: "whisper-1".to_string(),
        custom_vocabulary: default_custom_vocabulary(),
        format_model: "gpt-4o-mini".to_string(),
        format_enabled: default_format_enabled(),
        skip_formatter_in_terminals: default_skip_formatter_in_terminals(),
        include_clipboard_context: default_include_clipboard_context(),
        play_sound_cues: default_play_sound_cues(),
        api_base_url: "https://api.openai.com/v1".to_string(),
        recording_mode: default_recording_mode(),
        language: default_transcription_language(),
    }
}

// ---------------------------------------------------------------------------
// Recording mode
// ---------------------------------------------------------------------------

/// How a recording is driven: held down, or toggled hands-free.
#[derive(Clone, Copy, PartialEq, Eq, Structural, Debug)]
pub enum RecordingModeKind {
    Hold,
    Toggle,
}

impl RecordingModeKind {
    pub open spec fn name(self) -> Seq<char> {
        match self {
            RecordingModeKind::Hold => "hold"@,
            RecordingModeKind::Toggle => "toggle"@,
        }
    }

    pub fn as_str(self) -> (s: &'static str)
        ensures
            s@ == self.name(),
    {
        match self {
            RecordingModeKind::Hold => "hold",
            RecordingModeKind::Toggle => "toggle",
        }
    }

    /// The status message shown while recording in this mode.
    pub open spec fn spec_start_hint(self) -> Seq<char> {
        match self {
            RecordingModeKind::Hold => "Recording... release the hold shortcut or click stop."@,
            RecordingModeKind::Toggle =>
                "Recording... press the toggle shortcut again or click stop."@,
        }
    }

    pub fn start_hint(self) -> (s: &'static str)
        ensures
            s@ == self.spec_start_hint(),
    {
        match self {
            RecordingModeKind::Hold => "Recording... release the hold shortcut or click stop.",
            RecordingModeKind::Toggle => "Recording... press the toggle shortcut again or click stop.",
        }
    }

    /// The recording mode a shortcut action drives.
    pub fn for_action(action: ShortcutAction) -> (m: RecordingModeKind)
        ensures
            action == ShortcutAction::Hold <==> m == RecordingModeKind::Hold,
    {
        match action {
            ShortcutAction::Hold => RecordingModeKind::Hold,
            ShortcutAction::Toggle => RecordingModeKind::Toggle,
        }
    }
}

/// A stored mode names the hands-free mode when it is `toggle` up to ASCII
/// case and surrounding white space; anything else means hold.
pub open spec fn normalized_mode(mode: Seq<char>) -> Seq<char> {
    if eq_ignore_case(trim(mode), "toggle"@) {
        "toggle"@
    } else {
        "hold"@
    }
}

pub fn normalize_recording_mode(mode: &str) -> (r: String)
    ensures
        r@ == normalized_mode(mode@),
{
    let t = trim_str(mode);
    if eq_ignore_ascii_case_str(&t, "toggle") {
        "toggle".to_string()
    } else {
        "hold".to_string()
    }
}

/// The settings select the hands-free mode (the stored mode is `toggle` up
/// to ASCII case).
pub open spec fn spec_is_toggle_mode(settings: Settings) -> bool {
    eq_ignore_case(settings.recording_mode@, "toggle"@)
}

pub fn is_toggle_mode(settings: &Settings) -> (b: bool)
    ensures
        b == spec_is_toggle_mode(*settings),
{
    let m = chars_of(settings.recording_mode.as_str());
    eq_ignore_ascii_case_str(&m, "toggle")
}

pub fn recording_mode_from_settings(settings: &Settings) -> (m: RecordingModeKind)
    ensures
        (m == RecordingModeKind::Toggle) == spec_is_toggle_mode(*settings),
{
    if is_toggle_mode(settings) {
        RecordingModeKind::Toggle
    } else {
        RecordingModeKind::Hold
    }
}

/// The mode of the recording in progress (if any), from the mode name it was
/// started with.
pub fn active_recording_mode(session_mode: Option<&str>) -> (r: Option<RecordingModeKind>)
    ensures
        match session_mode {
            None => r is None,
            Some(m) => r == Some(
                if eq_ignore_case(m@, "toggle"@) {
                    RecordingModeKind::Toggle
                } else {
                    RecordingModeKind::Hold
                },
            ),
        },
{
    match session_mode {
        None => None,
        Some(m) => {
            let c = chars_of(m);
            if eq_ignore_ascii_case_str(&c, "toggle") {
                Some(RecordingModeKind::Toggle)
            } else {
                Some(RecordingModeKind::Hold)
            }
        },
    }
}

// ---------------------------------------------------------------------------
// Transcription language
// ---------------------------------------------------------------------------

/// The language codes the transcription accepts, compared ignoring ASCII case.
pub open spec fn is_allowed_language(t: Seq<char>) -> bool {
    ||| eq_ignore_case(t, "auto"@)
    ||| eq_ignore_case(t, "en"@)
    ||| eq_ignore_case(t, "zh"@)
    ||| eq_ignore_case(t, "zh-TW"@)
    ||| eq_ignore_case(t, "ja"@)
    ||| eq_ignore_case(t, "ko"@)
    ||| eq_ignore_case(t, "es"@)
    ||| eq_ignore_case(t, "fr"@)
    ||| eq_ignore_case(t, "de"@)
}

/// A stored language, normalized: an allowed code in its canonical spelling
/// (`zh-TW`, otherwise lower case), or `auto` for anything else.
pub open spec fn normalized_language(language: Seq<char>) -> Seq<char> {
    let t = trim(language);
    if is_allowed_language(t) {
        if eq_ignore_case(t, "zh-tw"@) {
            "zh-TW"@
        } else {
            lower_seq(t)
        }
    } else {
        "auto"@
    }
}

pub fn normalize_transcription_language(language: &str) -> (r: String)
    ensures
        r@ == normalized_language(language@),
{
    let t = trim_str(language);
    let allowed = eq_ignore_ascii_case_str(&t, "auto") || eq_ignore_ascii_case_str(&t, "en")
        || eq_ignore_ascii_case_str(&t, "zh") || eq_ignore_ascii_case_str(&t, "zh-TW")
        || eq_ignore_ascii_case_str(&t, "ja") || eq_ignore_ascii_case_str(&t, "ko")
        || eq_ignore_ascii_case_str(&t, "es") || eq_ignore_ascii_case_str(&t, "fr")
        || eq_ignore_ascii_case_str(&t, "de");
    if allowed {
        if eq_ignore_ascii_case_str(&t, "zh-tw") {
            "zh-TW".to_string()
        } else {
            let lower = to_ascii_lowercase(&t);
            string_of(&lower)
        }
    } else {
        "auto".to_string()
    }
}

// ---------------------------------------------------------------------------
// Saving
// ---------------------------------------------------------------------------

/// Settings as they are stored after a save: hotkey lists, mode and language
/// normalized, everything else as given.
pub open spec fn saved_form(before: Settings, after: Settings, mac: bool) -> bool {
    &&& string_views(after.hold_hotkeys@) == normalize_hotkey_list(
        string_views(before.hold_hotkeys@),
        mac,
    )
    &&& string_views(after.toggle_hotkeys@) == normalize_hotkey_list(
        string_views(before.toggle_hotkeys@),
        mac,
    )
    &&& after.recording_mode@ == normalized_mode(before.recording_mode@)
    &&& after.language@ == normalized_language(before.language@)
    &&& after.api_key == before.api_key
    &&& after.prompt_template == before.prompt_template
    &&& after.whisper_model == before.whisper_model
    &&& after.custom_vocabulary == before.custom_vocabulary
    &&& after.format_model == before.format_model
    &&& after.format_enabled == before.format_enabled
    &&& after.skip_formatter_in_terminals == before.skip_formatter_in_terminals
    &&& after.include_clipboard_context == before.include_clipboard_context
    &&& after.play_sound_cues == before.play_sound_cues
    &&& after.api_base_url == before.api_base_url
}

/// The settings a save request stores, or the error it is refused with when
/// a hotkey list is empty after normalization (the hold list is checked
/// first).
pub fn normalize_settings_for_save(settings: Settings, platform: Platform) -> (r: Result<
    Settings,
    ShortcutBindingError,
>)
    ensures
        match r {
            Ok(s) => saved_form(settings, s, platform.is_mac()) && s.hold_hotkeys@.len() > 0
                && s.toggle_hotkeys@.len() > 0,
            Err(e) => {
                ||| (normalize_hotkey_list(string_views(settings.hold_hotkeys@), platform.is_mac()).len()
                    == 0 && e == ShortcutBindingError::EmptyShortcut(ShortcutAction::Hold))
                ||| (normalize_hotkey_list(string_views(settings.hold_hotkeys@), platform.is_mac()).len()
                    > 0 && normalize_hotkey_list(
                    string_views(settings.toggle_hotkeys@),
                    platform.is_mac(),
                ).len() == 0 && e == ShortcutBindingError::EmptyShortcut(ShortcutAction::Toggle))
            },
        },
{
    let hold = normalize_requested_hotkeys(settings.hold_hotkeys.as_slice(), platform);
    let toggle = normalize_requested_hotkeys(settings.toggle_hotkeys.as_slice(), platform);
    if hold.len() == 0 {
        return Err(ShortcutBindingError::EmptyShortcut(ShortcutAction::Hold));
    }
    if toggle.len() == 0 {
        return Err(ShortcutBindingError::EmptyShortcut(ShortcutAction::Toggle));
    }
    let recording_mode = normalize_recording_mode(settings.recording_mode.as_str());
    let language = normalize_transcription_language(settings.language.as_str());
    Ok(Settings {
        hold_hotkeys: hold,
        toggle_hotkeys: toggle,
        recording_mode,
        language,
        ..settings
    })
}


// ---------------------------------------------------------------------------
// Normalization laws
// ---------------------------------------------------------------------------

/// A stored mode always normalizes to `hold` or `toggle`, and normalizing
/// again changes nothing.
pub proof fn lemma_normalized_mode_idempotent(mode: Seq<char>)
    ensures
        normalized_mode(mode) == "hold"@ || normalized_mode(mode) == "toggle"@,
        normalized_mode(normalized_mode(mode)) == normalized_mode(mode),
{
    reveal_strlit("hold");
    reveal_strlit("toggle");
    let h = "hold"@;
    let t = "toggle"@;
    lemma_trim_fixed(h);
    lemma_trim_fixed(t);
    assert(lower_seq(h).len() != lower_seq(t).len());
}

/// A stored language always normalizes to an allowed code, and normalizing
/// again changes nothing.
pub proof fn lemma_normalized_language_idempotent(language: Seq<char>)
    ensures
        is_allowed_language(normalized_language(language)),
        normalized_language(normalized_language(language)) == normalized_language(language),
{
    reveal_strlit("auto");
    reveal_strlit("en");
    reveal_strlit("zh");
    reveal_strlit("zh-TW");
    reveal_strlit("zh-tw");
    reveal_strlit("ja");
    reveal_strlit("ko");
    reveal_strlit("es");
    reveal_strlit("fr");
    reveal_strlit("de");
    let t = trim(language);
    let n = normalized_language(language);
    assert(lower_seq("auto"@) =~= "auto"@);
    assert(lower_seq("en"@) =~= "en"@);
    assert(lower_seq("zh"@) =~= "zh"@);
    assert(lower_seq("zh-TW"@) =~= "zh-tw"@);
    assert(lower_seq("zh-tw"@) =~= "zh-tw"@);
    assert(lower_seq("ja"@) =~= "ja"@);
    assert(lower_seq("ko"@) =~= "ko"@);
    assert(lower_seq("es"@) =~= "es"@);
    assert(lower_seq("fr"@) =~= "fr"@);
    assert(lower_seq("de"@) =~= "de"@);
    if is_allowed_language(t) && !eq_ignore_case(t, "zh-tw"@) {
        lemma_lower_idempotent(t);
        assert(n == lower_seq(t));
        assert(lower_seq(n) == n);
        assert(n == "auto"@ || n == "en"@ || n == "zh"@ || n == "ja"@ || n == "ko"@ || n == "es"@
            || n == "fr"@ || n == "de"@);
    }
    lemma_trim_fixed(n);
    assert(trim(n) == n);
}

/// Settings as a save stores them are stored unchanged by a second save:
/// both hotkey lists stay non-empty and every field keeps its value.
pub proof fn lemma_saved_settings_are_stable(
    requested: Settings,
    saved: Settings,
    resaved: Settings,
    mac: bool,
)
    requires
        saved_form(requested, saved, mac),
        saved_form(saved, resaved, mac),
    ensures
        string_views(resaved.hold_hotkeys@) == string_views(saved.hold_hotkeys@),
        string_views(resaved.toggle_hotkeys@) == string_views(saved.toggle_hotkeys@),
        resaved.recording_mode@ == saved.recording_mode@,
        resaved.language@ == saved.language@,
        resaved.api_key == saved.api_key,
        resaved.prompt_template == saved.prompt_template,
        resaved.whisper_model == saved.whisper_model,
        resaved.custom_vocabulary == saved.custom_vocabulary,
        resaved.format_model == saved.format_model,
        resaved.format_enabled == saved.format_enabled,
        resaved.skip_formatter_in_terminals == saved.skip_formatter_in_terminals,
        resaved.include_clipboard_context == saved.include_clipboard_context,
        resaved.play_sound_cues == saved.play_sound_cues,
        resaved.api_base_url == saved.api_base_url,
{
    lemma_normalize_hotkey_list_idempotent(string_views(requested.hold_hotkeys@), mac);
    lemma_normalize_hotkey_list_idempotent(string_views(requested.toggle_hotkeys@), mac);
    lemma_normalized_mode_idempotent(requested.recording_mode@);
    lemma_normalized_language_idempotent(requested.language@);
}


proof fn lemma_word_is_clean_part(w: Seq<char>, mac: bool)
    requires
        w.len() > 0,
        forall|i: int| 0 <= i < w.len() ==> !is_white_space(#[trigger] w[i]) && w[i] != '+',
        w.len() != 2,
    ensures
        is_clean_part(w, mac),
{
    lemma_trim_fixed(w);
    assert(lower_seq(w).len() != lower_seq(fn_token()).len());
}

proof fn lemma_two_word_hotkey_normalized(a: Seq<char>, b: Seq<char>, mac: bool)
    requires
        is_clean_part(a, mac),
        is_clean_part(b, mac),
    ensures
        normalize_hotkey_list(seq![a + "+"@ + b], mac) == seq![a + "+"@ + b],
{
    reveal_strlit("+");
    let parts = seq![a, b];
    assert(join_with(parts.drop_last(), plus()) == a);
    assert(join_with(parts, plus()) =~= a + "+"@ + b);
    lemma_clean_join_normalized(parts, mac);
    let h = a + "+"@ + b;
    let l = seq![h];
    assert(l.drop_last() =~= Seq::<Seq<char>>::empty());
    assert(l.last() == h);
    assert(normalize_hotkey(h, mac) == h);
    assert(h.len() > 0);
    assert(normalize_hotkey_list(Seq::<Seq<char>>::empty(), mac) == Seq::<Seq<char>>::empty());
    assert(!seq_has_ignore_case(Seq::<Seq<char>>::empty(), h));
    assert(Seq::<Seq<char>>::empty().push(h) =~= l);
}

/// The default shortcut lists are already normalized (so a fresh install
/// saves them unchanged), and the hold default differs from the hands-free
/// default, also ignoring ASCII case.
pub proof fn lemma_default_hotkeys_consistent(mac: bool)
    ensures
        normalize_hotkey_list(seq![default_hold_hotkey(mac)], mac) == seq![default_hold_hotkey(mac)],
        normalize_hotkey_list(seq![default_toggle_hotkey(mac)], mac) == seq![
            default_toggle_hotkey(mac),
        ],
        !eq_ignore_case(default_hold_hotkey(mac), default_toggle_hotkey(mac)),
{
    reveal_strlit("Cmd+Space");
    reveal_strlit("Ctrl+Space");
    reveal_strlit("Option+Space");
    reveal_strlit("Alt+Space");
    reveal_strlit("Cmd");
    reveal_strlit("Ctrl");
    reveal_strlit("Option");
    reveal_strlit("Alt");
    reveal_strlit("Space");
    reveal_strlit("+");
    lemma_word_is_clean_part("Cmd"@, mac);
    lemma_word_is_clean_part("Ctrl"@, mac);
    lemma_word_is_clean_part("Option"@, mac);
    lemma_word_is_clean_part("Alt"@, mac);
    lemma_word_is_clean_part("Space"@, mac);
    assert("Cmd+Space"@ =~= "Cmd"@ + "+"@ + "Space"@);
    assert("Ctrl+Space"@ =~= "Ctrl"@ + "+"@ + "Space"@);
    assert("Option+Space"@ =~= "Option"@ + "+"@ + "Space"@);
    assert("Alt+Space"@ =~= "Alt"@ + "+"@ + "Space"@);
    lemma_two_word_hotkey_normalized("Cmd"@, "Space"@, mac);
    lemma_two_word_hotkey_normalized("Ctrl"@, "Space"@, mac);
    lemma_two_word_hotkey_normalized("Option"@, "Space"@, mac);
    lemma_two_word_hotkey_normalized("Alt"@, "Space"@, mac);
    assert(lower_seq(default_hold_hotkey(mac)).len() != lower_seq(default_toggle_hotkey(mac)).len());
}

} // verus!
