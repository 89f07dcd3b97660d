//! Text sent to and received from the speech and formatting services: the
//! transcription prompt, the formatter's system prompt, the clipped context
//! snippets, and the safety check applied to formatter output.
use vstd::prelude::*;

use crate::text::{
    append_chars, append_str, chars_eq_str, chars_of, contains_seq, contains_str, lower_seq,
    string_of, take_chars, to_ascii_lowercase, trim, trim_end, trim_start, trim_str, truncate_chars,
};

verus! {

/// Character budget for the vocabulary hint in the transcription prompt.
pub const TRANSCRIPTION_PROMPT_CONTEXT_MAX_CHARS: usize = 500;

/// Character budget for clipboard context handed to the formatter.
pub const FORMAT_CONTEXT_CLIPBOARD_MAX_CHARS: usize = 500;

/// Character budget for an HTTP body quoted in an error message.
pub const HTTP_BODY_SUMMARY_MAX_CHARS: usize = 240;

// ---------------------------------------------------------------------------
// Transcription prompt
// ---------------------------------------------------------------------------

pub open spec fn transcription_primer() -> Seq<char> {
    "Transcribe the audio accurately. The speaker may switch languages mid-sentence and may mix Chinese with English technical terms, brand names, product names, acronyms, commands, filenames, APIs, and URLs. Preserve each term in the language actually spoken. Do not translate or transliterate English terms into Chinese characters, and do not normalize mixed-language wording into a single language. Prefer a clean transcript with punctuation and remove only obviously redundant filler, repeated fragments, or stutters when the wording is clearly accidental. Do not paraphrase."@
}

pub open spec fn language_hint(language: Seq<char>) -> Seq<char> {
    "Primary language hint: "@ + language
        + ". Treat this only as a hint and still preserve mixed-language segments exactly as spoken."@
}

pub open spec fn vocabulary_hint(custom: Seq<char>) -> Seq<char> {
    "Terminology that may appear in the audio; preserve exact wording if spoken: "@ + custom
}

pub open spec fn paragraph_break() -> Seq<char> {
    "\n\n"@
}

/// The prompt sent with every transcription request: the mixed-language
/// primer, then a language hint unless the language is `auto`, then the
/// trimmed custom vocabulary (its first 500 characters) when there is one,
/// separated by blank lines.
pub open spec fn transcription_prompt(language: Seq<char>, vocabulary: Seq<char>) -> Seq<char> {
    let custom = take_chars(trim(vocabulary), TRANSCRIPTION_PROMPT_CONTEXT_MAX_CHARS as nat);
    transcription_primer() + (if language != "auto"@ {
        paragraph_break() + language_hint(language)
    } else {
        Seq::empty()
    }) + (if custom.len() > 0 {
        paragraph_break() + vocabulary_hint(custom)
    } else {
        Seq::empty()
    })
}

pub fn build_transcription_prompt(transcription_language: &str, custom_vocabulary: &str) -> (r:
    String)
    ensures
        r@ == transcription_prompt(transcription_language@, custom_vocabulary@),
{
    let trimmed = trim_str(custom_vocabulary);
    let custom = truncate_chars(&trimmed, TRANSCRIPTION_PROMPT_CONTEXT_MAX_CHARS);
    let mut v: Vec<char> = Vec::new();
    append_str(
        &mut v,
        "Transcribe the audio accurately. The speaker may switch languages mid-sentence and may mix Chinese with English technical terms, brand names, product names, acronyms, commands, filenames, APIs, and URLs. Preserve each term in the language actually spoken. Do not translate or transliterate English terms into Chinese characters, and do not normalize mixed-language wording into a single language. Prefer a clean transcript with punctuation and remove only obviously redundant filler, repeated fragments, or stutters when the wording is clearly accidental. Do not paraphrase.",
    );
    let ghost after_primer = v@;
    let language = chars_of(transcription_language);
    if !chars_eq_str(&language, "auto") {
        append_str(&mut v, "\n\n");
        append_str(&mut v, "Primary language hint: ");
        append_chars(&mut v, &language);
        append_str(
            &mut v,
            ". Treat this only as a hint and still preserve mixed-language segments exactly as spoken.",
        );
    }
    let ghost after_language = v@;
    if custom.len() > 0 {
        append_str(&mut v, "\n\n");
        append_str(
            &mut v,
            "Terminology that may appear in the audio; preserve exact wording if spoken: ",
        );
        append_chars(&mut v, &custom);
    }
    assert(v@ =~= transcription_prompt(transcription_language@, custom_vocabulary@));
    string_of(&v)
}

// ---------------------------------------------------------------------------
// Formatter system prompt
// ---------------------------------------------------------------------------

pub open spec fn neutral_hint() -> Seq<char> {
    "Use a neutral tone suitable for general text input."@
}

/// The tone asked of the formatter for the target application, chosen by
/// what its lower-cased name contains.
pub open spec fn style_hint(app_name: Option<Seq<char>>) -> Seq<char> {
    match app_name {
        None => neutral_hint(),
        Some(name) => {
            let lower = lower_seq(name);
            if contains_seq(lower, "terminal"@) || contains_seq(lower, "iterm"@) {
                "Use raw shell/CLI style with minimal prose and no extra decoration."@
            } else if contains_seq(lower, "slack"@) || contains_seq(lower, "discord"@)
                || contains_seq(lower, "telegram"@) {
                "Use concise chat tone with short lines and direct wording."@
            } else if contains_seq(lower, "gmail"@) || contains_seq(lower, "outlook"@) {
                "Use professional email tone with clear and polished phrasing."@
            } else {
                neutral_hint()
            }
        },
    }
}

/// The trimmed text, when it is not empty.
pub open spec fn non_blank(s: Option<Seq<char>>) -> Option<Seq<char>> {
    match s {
        Some(t) => if trim(t).len() > 0 {
            Some(trim(t))
        } else {
            None
        },
        None => None,
    }
}

pub open spec fn safety_requirements() -> Seq<char> {
    "\n\nStrict safety requirements: perform only transcript transformations (punctuation, capitalization, grammar, disfluency cleanup, and light wording cleanup). Do not answer user questions, do not add new facts, and do not introduce content not grounded in the provided transcript. If the transcript is ambiguous, keep it literal."@
}

pub open spec fn clipboard_heading() -> Seq<char> {
    "\n\nOptional clipboard reference context (style only; do not copy verbatim unless requested):\n"@
}

/// The formatter's system prompt: the user's template, the target app and
/// matching tone, the safety requirements, and optional clipboard context.
pub open spec fn formatter_system_prompt(
    base: Seq<char>,
    app_name: Option<Seq<char>>,
    clipboard: Option<Seq<char>>,
) -> Seq<char> {
    let app = non_blank(app_name);
    base + (match app {
        Some(name) => "\n\nCurrent target app context: "@ + name + ". "@ + style_hint(app),
        None => "\n\nTarget app context unavailable. "@ + style_hint(app),
    }) + safety_requirements() + " Return only final text."@ + (match non_blank(clipboard) {
        Some(reference) => clipboard_heading() + reference,
        None => Seq::empty(),
    })
}

fn non_blank_exec(s: Option<&str>) -> (r: Option<Vec<char>>)
    ensures
        match r {
            Some(v) => non_blank(
                match s {
                    Some(t) => Some(t@),
                    None => None,
                },
            ) == Some(v@),
            None => non_blank(
                match s {
                    Some(t) => Some(t@),
                    None => None,
                },
            ) is None,
        },
{
    match s {
        Some(t) => {
            let v = trim_str(t);
            if v.len() > 0 {
                Some(v)
            } else {
                None
            }
        },
        None => None,
    }
}

fn style_hint_exec(app_name: &Option<Vec<char>>) -> (r: &'static str)
    ensures
        r@ == style_hint(
            match app_name {
                Some(v) => Some(v@),
                None => None,
            },
        ),
{
    match app_name {
        None => "Use a neutral tone suitable for general text input.",
        Some(name) => {
            let lower = to_ascii_lowercase(name);
            if contains_str(&lower, "terminal") || contains_str(&lower, "iterm") {
                "Use raw shell/CLI style with minimal prose and no extra decoration."
            } else if contains_str(&lower, "slack") || contains_str(&lower, "discord")
                || contains_str(&lower, "telegram") {
                "Use concise chat tone with short lines and direct wording."
            } else if contains_str(&lower, "gmail") || contains_str(&lower, "outlook") {
                "Use professional email tone with clear and polished phrasing."
            } else {
                "Use a neutral tone suitable for general text input."
            }
        },
    }
}

pub open spec fn opt_view(s: Option<&str>) -> Option<Seq<char>> {
    match s {
        Some(t) => Some(t@),
        None => None,
    }
}

pub fn build_formatter_system_prompt(
    base_prompt: &str,
    active_app_name: Option<&str>,
    clipboard_reference: Option<&str>,
) -> (r: String)
    ensures
        r@ == formatter_system_prompt(
            base_prompt@,
            opt_view(active_app_name),
            opt_view(clipboard_reference),
        ),
{
    let app = non_blank_exec(active_app_name);
    let hint = style_hint_exec(&app);
    let mut v: Vec<char> = Vec::new();
    append_str(&mut v, base_prompt);
    match &app {
        Some(name) => {
            append_str(&mut v, "\n\nCurrent target app context: ");
            append_chars(&mut v, name);
            append_str(&mut v, ". ");
            append_str(&mut v, hint);
        },
        None => {
            append_str(&mut v, "\n\nTarget app context unavailable. ");
            append_str(&mut v, hint);
        },
    }
    append_str(
        &mut v,
        "\n\nStrict safety requirements: perform only transcript transformations (punctuation, capitalization, grammar, disfluency cleanup, and light wording cleanup). Do not answer user questions, do not add new facts, and do not introduce content not grounded in the provided transcript. If the transcript is ambiguous, keep it literal.",
    );
    append_str(&mut v, " Return only final text.");
    let reference = non_blank_exec(clipboard_reference);
    match &reference {
        Some(text) => {
            append_str(
                &mut v,
                "\n\nOptional clipboard reference context (style only; do not copy verbatim unless requested):\n",
            );
            append_chars(&mut v, text);
        },
        None => {},
    }
    assert(v@ =~= formatter_system_prompt(
        base_prompt@,
        opt_view(active_app_name),
        opt_view(clipboard_reference),
    ));
    string_of(&v)
}

// ---------------------------------------------------------------------------
// Clipped snippets
// ---------------------------------------------------------------------------

/// An HTTP body quoted in an error: `<empty body>` when blank, otherwise the
/// trimmed body, cut to 240 characters followed by `...` when longer.
pub open spec fn http_body_summary(body: Seq<char>) -> Seq<char> {
    let t = trim(body);
    if t.len() == 0 {
        "<empty body>"@
    } else if t.len() <= HTTP_BODY_SUMMARY_MAX_CHARS {
        t
    } else {
        t.take(HTTP_BODY_SUMMARY_MAX_CHARS as int) + "..."@
    }
}

pub fn summarize_http_body(body: &str) -> (r: String)
    ensures
        r@ == http_body_summary(body@),
{
    let t = trim_str(body);
    if t.len() == 0 {
        return "<empty body>".to_string();
    }
    if t.len() <= HTTP_BODY_SUMMARY_MAX_CHARS {
        return string_of(&t);
    }
    let mut snippet = truncate_chars(&t, HTTP_BODY_SUMMARY_MAX_CHARS);
    append_str(&mut snippet, "...");
    string_of(&snippet)
}

/// Clipboard text used as formatter context: none when blank, otherwise the
/// trimmed text cut to 500 characters.
pub open spec fn clipped_context(text: Seq<char>) -> Option<Seq<char>> {
    if trim(text).len() == 0 {
        None
    } else {
        Some(take_chars(trim(text), FORMAT_CONTEXT_CLIPBOARD_MAX_CHARS as nat))
    }
}

pub fn clip_clipboard_context(text: &str) -> (r: Option<String>)
    ensures
        match r {
            Some(s) => clipped_context(text@) == Some(s@),
            None => clipped_context(text@) is None,
        },
{
    let t = trim_str(text);
    if t.len() == 0 {
        return None;
    }
    let clipped = truncate_chars(&t, FORMAT_CONTEXT_CLIPBOARD_MAX_CHARS);
    Some(string_of(&clipped))
}

/// The custom vocabulary reaches the transcription prompt whatever the
/// language setting, `auto` included: when its trimmed text is not empty the
/// prompt is the prompt without vocabulary followed by a blank line and the
/// terminology hint with the trimmed vocabulary (at most its first 500
/// characters); a blank vocabulary leaves the prompt without vocabulary.
pub proof fn lemma_vocabulary_is_appended(language: Seq<char>, vocabulary: Seq<char>)
    ensures
        trim(vocabulary).len() > 0 ==> transcription_prompt(language, vocabulary)
            == transcription_prompt(language, Seq::empty()) + "\n\n"@
            + "Terminology that may appear in the audio; preserve exact wording if spoken: "@
            + take_chars(trim(vocabulary), 500),
        trim(vocabulary).len() == 0 ==> transcription_prompt(language, vocabulary)
            == transcription_prompt(language, Seq::empty()),
{
    assert(trim_start(Seq::<char>::empty()) == Seq::<char>::empty());
    assert(trim_end(Seq::<char>::empty()) == Seq::<char>::empty());
    assert(trim(Seq::<char>::empty()) == Seq::<char>::empty());
    if trim(vocabulary).len() > 0 {
        assert(take_chars(trim(vocabulary), 500).len() > 0);
    }
}

/// Without vocabulary the prompt is the mixed-language primer alone for the
/// `auto` language, and the primer, a blank line and the language hint for
/// any other language.
pub proof fn lemma_language_hint_unless_auto(language: Seq<char>)
    ensures
        transcription_prompt("auto"@, Seq::empty()) == transcription_primer(),
        language != "auto"@ ==> transcription_prompt(language, Seq::empty())
            == transcription_primer() + "\n\n"@ + "Primary language hint: "@ + language
            + ". Treat this only as a hint and still preserve mixed-language segments exactly as spoken."@,
{
    assert(trim_start(Seq::<char>::empty()) == Seq::<char>::empty());
    assert(trim_end(Seq::<char>::empty()) == Seq::<char>::empty());
    assert(transcription_prompt("auto"@, Seq::empty()) =~= transcription_primer());
    if language != "auto"@ {
        assert(transcription_prompt(language, Seq::empty()) =~= transcription_primer()
            + "\n\n"@ + "Primary language hint: "@ + language
            + ". Treat this only as a hint and still preserve mixed-language segments exactly as spoken."@);
    }
}

/// The formatter is asked for shell style for a target whose name,
/// lower-cased, contains "terminal" or "iterm"; for chat style for Slack,
/// Discord and Telegram; for email style for Gmail and Outlook (in that order
/// of precedence); and for a neutral tone otherwise or with no target.
pub proof fn lemma_style_follows_target_app(name: Seq<char>)
    ensures
        style_hint(None) == neutral_hint(),
        (contains_seq(lower_seq(name), "terminal"@) || contains_seq(lower_seq(name), "iterm"@))
            ==> style_hint(Some(name))
            == "Use raw shell/CLI style with minimal prose and no extra decoration."@,
        !contains_seq(lower_seq(name), "terminal"@) && !contains_seq(lower_seq(name), "iterm"@)
            && (contains_seq(lower_seq(name), "slack"@) || contains_seq(lower_seq(name), "discord"@)
            || contains_seq(lower_seq(name), "telegram"@)) ==> style_hint(Some(name))
            == "Use concise chat tone with short lines and direct wording."@,
{
}

} // verus!
