use verba::prompts::build_transcription_prompt;

#[test]
fn prompt_always_primes_mixed_language_transcription() {
    let prompt = build_transcription_prompt("auto", "");
    assert!(prompt.contains("switch languages mid-sentence"));
    assert!(prompt.contains("Do not translate or transliterate English terms"));
    assert!(prompt.contains("remove only obviously redundant filler"));
}

#[test]
fn prompt_includes_language_and_term_hints_without_losing_primer() {
    let prompt = build_transcription_prompt("zh-TW", "OpenAI Whisper, TypeScript, pnpm");
    assert!(prompt.contains("Primary language hint: zh-TW"));
    assert!(prompt.contains("Terminology that may appear in the audio"));
    assert!(prompt.contains("Preserve each term in the language actually spoken"));
}

#[test]
fn transcription_prompt_does_not_include_clipboard_reference() {
    let prompt = build_transcription_prompt("auto", "Monarch, Envio");
    assert!(!prompt.contains("Reference text for terminology only"));
}
