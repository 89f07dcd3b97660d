//! Talking to the speech and formatting service: which requests are sent,
//! when a failed request is retried and after how long, how replies become
//! results, and the messages shown when something goes wrong.
use vstd::prelude::*;

use crate::prompts::{
    build_formatter_system_prompt, build_transcription_prompt, formatter_system_prompt,
    http_body_summary, opt_view, summarize_http_body, transcription_prompt,
};
use crate::safety::{formatter_output_passes_safety_check, passes_safety_check};
use crate::settings::{normalize_transcription_language, normalized_language, Settings};
use crate::text::{
    append_chars, append_str, chars_eq_str, chars_of, decimal, push_decimal, string_of, trim,
    trim_str,
};

verus! {

/// Attempts made for one request before giving up.
pub const API_RETRY_MAX_ATTEMPTS: u32 = 3;

/// Wait before the first retry; it doubles for each later one.
pub const API_RETRY_BASE_BACKOFF_MS: u64 = 350;

/// Time limit of the connection test.
pub const API_TEST_TIMEOUT_SECS: u64 = 6;

// ---------------------------------------------------------------------------
// Status codes
// ---------------------------------------------------------------------------

/// The reason phrase registered for an HTTP status code, if any.
pub uninterp spec fn http_reason_phrase(code: u16) -> Option<Seq<char>>;

/// `http::StatusCode::from_u16` followed by `StatusCode::canonical_reason`
/// (reqwest re-exports `http::StatusCode`): the registered reason phrase of
/// the code. `from_u16` accepts exactly the codes 100 to 999.
#[verifier::external_body]
fn canonical_reason(code: u16) -> (r: Option<&'static str>)
    requires
        100 <= code <= 999,
    ensures
        opt_view(r) == http_reason_phrase(code),
{
    match reqwest::StatusCode::from_u16(code) {
        Ok(status) => status.canonical_reason(),
        Err(_) => None,
    }
}

/// How an HTTP status code is written in messages: the number, a space, and
/// the reason phrase (or a placeholder for an unregistered code).
pub open spec fn status_display(code: u16) -> Seq<char> {
    decimal(code as nat) + " "@ + match http_reason_phrase(code) {
        Some(r) => r,
        None => "<unknown status code>"@,
    }
}

pub fn status_text(code: u16) -> (s: String)
    requires
        100 <= code <= 999,
    ensures
        s@ == status_display(code),
{
    let v = status_chars(code);
    string_of(&v)
}

fn status_chars(code: u16) -> (v: Vec<char>)
    requires
        100 <= code <= 999,
    ensures
        v@ == status_display(code),
{
    let mut v: Vec<char> = Vec::new();
    push_decimal(&mut v, code as u64);
    append_str(&mut v, " ");
    match canonical_reason(code) {
        Some(r) => append_str(&mut v, r),
        None => append_str(&mut v, "<unknown status code>"),
    }
    v
}

pub open spec fn is_success_code(code: u16) -> bool {
    200 <= code < 300
}

/// Too many requests, or a server error.
pub open spec fn spec_is_retryable_status(code: u16) -> bool {
    code == 429 || (500 <= code < 600)
}

pub fn is_retryable_status(status: u16) -> (b: bool)
    ensures
        b == spec_is_retryable_status(status),
{
    status == 429 || (500 <= status && status < 600)
}

// ---------------------------------------------------------------------------
// Retries
// ---------------------------------------------------------------------------

/// The wait before retrying after failed attempt number `attempt` (counted
/// from 0): the base wait doubled once per earlier attempt, doubling at most
/// five times.
pub open spec fn retry_backoff(attempt: u32) -> nat {
    API_RETRY_BASE_BACKOFF_MS as nat * vstd::arithmetic::power2::pow2(
        if attempt < 5 {
            attempt as nat
        } else {
            5
        },
    )
}

pub fn retry_backoff_ms(attempt: u32) -> (ms: u64)
    ensures
        ms == retry_backoff(attempt),
{
    proof {
        vstd::arithmetic::power2::lemma2_to64();
    }
    let factor: u64 = if attempt == 0 {
        1
    } else if attempt == 1 {
        2
    } else if attempt == 2 {
        4
    } else if attempt == 3 {
        8
    } else if attempt == 4 {
        16
    } else {
        32
    };
    API_RETRY_BASE_BACKOFF_MS * factor
}

/// Why an attempt failed: the service answered with a status other than
/// success, or the request did not get an answer.
#[derive(Clone, Copy, PartialEq, Eq, Structural, Debug)]
pub enum AttemptFailure {
    Status(u16),
    Transport { is_timeout: bool, is_connect: bool },
}

/// Failures that another attempt may cure: a retryable status, a time-out,
/// or a failed connection.
pub open spec fn spec_is_retryable_failure(failure: AttemptFailure) -> bool {
    match failure {
        AttemptFailure::Status(code) => spec_is_retryable_status(code),
        AttemptFailure::Transport { is_timeout, is_connect } => is_timeout || is_connect,
    }
}

/// What to do after a failed attempt.
#[derive(Clone, Copy, PartialEq, Eq, Structural, Debug)]
pub enum RetryStep {
    RetryAfterMs(u64),
    GiveUp,
}

/// After failed attempt number `attempt` (from 0): retry after the backoff
/// when the failure is retryable and attempts remain, else give up.
pub open spec fn spec_next_retry_step(attempt: u32, failure: AttemptFailure) -> RetryStep {
    if spec_is_retryable_failure(failure) && attempt + 1 < API_RETRY_MAX_ATTEMPTS {
        RetryStep::RetryAfterMs(retry_backoff(attempt) as u64)
    } else {
        RetryStep::GiveUp
    }
}

pub fn next_retry_step(attempt: u32, failure: AttemptFailure) -> (step: RetryStep)
    ensures
        step == spec_next_retry_step(attempt, failure),
{
    let retryable = match failure {
        AttemptFailure::Status(code) => is_retryable_status(code),
        AttemptFailure::Transport { is_timeout, is_connect } => is_timeout || is_connect,
    };
    if retryable && attempt < API_RETRY_MAX_ATTEMPTS - 1 {
        RetryStep::RetryAfterMs(retry_backoff_ms(attempt))
    } else {
        RetryStep::GiveUp
    }
}

// ---------------------------------------------------------------------------
// Requests
// ---------------------------------------------------------------------------

/// The two calls the pipeline makes.
#[derive(Clone, Copy, PartialEq, Eq, Structural, Debug)]
pub enum ApiOperation {
    Transcription,
    Formatting,
}

impl ApiOperation {
    pub open spec fn label(self) -> Seq<char> {
        match self {
            ApiOperation::Transcription => "Transcription"@,
            ApiOperation::Formatting => "Formatting"@,
        }
    }

    pub fn as_str(self) -> (s: &'static str)
        ensures
            s@ == self.label(),
    {
        match self {
            ApiOperation::Transcription => "Transcription",
            ApiOperation::Formatting => "Formatting",
        }
    }
}

/// The error reported when the service answers a request with a status that
/// is not retried (or no attempts remain).
pub open spec fn http_failure_message(op: ApiOperation, code: u16, body: Seq<char>) -> Seq<char> {
    op.label() + " failed ("@ + status_display(code) + "): "@ + body
}

pub fn api_failure_message(op: ApiOperation, status: u16, body: &str) -> (s: String)
    requires
        100 <= status <= 999,
    ensures
        s@ == http_failure_message(op, status, body@),
{
    let mut v: Vec<char> = Vec::new();
    append_str(&mut v, op.as_str());
    append_str(&mut v, " failed (");
    let st = status_chars(status);
    append_chars(&mut v, &st);
    append_str(&mut v, "): ");
    append_str(&mut v, body);
    string_of(&v)
}

/// The error reported when every attempt ended without a usable reply.
pub open spec fn exhausted_message(op: ApiOperation) -> Seq<char> {
    op.label() + " failed after retries."@
}

pub fn retries_exhausted_message(op: ApiOperation) -> (s: String)
    ensures
        s@ == exhausted_message(op),
{
    let mut v: Vec<char> = Vec::new();
    append_str(&mut v, op.as_str());
    append_str(&mut v, " failed after retries.");
    string_of(&v)
}

/// `base` followed by `path`.
pub fn endpoint_url(base: &str, path: &str) -> (s: String)
    ensures
        s@ == base@ + path@,
{
    let mut v = chars_of(base);
    append_str(&mut v, path);
    string_of(&v)
}

/// The fields of a transcription request.
pub struct TranscriptionRequest {
    pub url: String,
    pub model: String,
    /// Sent only when a language is chosen; `auto` leaves it to the service.
    pub language: Option<String>,
    pub prompt: String,
}

pub fn transcription_request(settings: &Settings) -> (r: TranscriptionRequest)
    ensures
        r.url@ == settings.api_base_url@ + "/audio/transcriptions"@,
        r.model@ == settings.whisper_model@,
        match r.language {
            Some(l) => normalized_language(settings.language@) != "auto"@ && l@ == normalized_language(
                settings.language@,
            ),
            None => normalized_language(settings.language@) == "auto"@,
        },
        r.prompt@ == transcription_prompt(
            normalized_language(settings.language@),
            settings.custom_vocabulary@,
        ),
{
    let url = endpoint_url(settings.api_base_url.as_str(), "/audio/transcriptions");
    let language = normalize_transcription_language(settings.language.as_str());
    let lang_chars = chars_of(language.as_str());
    let prompt = build_transcription_prompt(
        language.as_str(),
        settings.custom_vocabulary.as_str(),
    );
    let language = if chars_eq_str(&lang_chars, "auto") {
        None
    } else {
        Some(language)
    };
    TranscriptionRequest { url, model: settings.whisper_model.clone(), language, prompt }
}

/// The fields of a formatting request: a system message with the
/// instructions and a user message with the transcript, at temperature 0.
pub struct FormattingRequest {
    pub url: String,
    pub model: String,
    pub system_prompt: String,
    pub user_content: String,
}

pub fn formatting_request(
    settings: &Settings,
    transcript: &str,
    active_app_name: Option<&str>,
    clipboard_reference: Option<&str>,
) -> (r: FormattingRequest)
    ensures
        r.url@ == settings.api_base_url@ + "/chat/completions"@,
        r.model@ == settings.format_model@,
        r.system_prompt@ == formatter_system_prompt(
            settings.prompt_template@,
            opt_view(active_app_name),
            opt_view(clipboard_reference),
        ),
        r.user_content@ == transcript@,
{
    FormattingRequest {
        url: endpoint_url(settings.api_base_url.as_str(), "/chat/completions"),
        model: settings.format_model.clone(),
        system_prompt: build_formatter_system_prompt(
            settings.prompt_template.as_str(),
            active_app_name,
            clipboard_reference,
        ),
        user_content: transcript.to_string(),
    }
}

// ---------------------------------------------------------------------------
// Formatter replies
// ---------------------------------------------------------------------------

/// The text that ends up inserted after formatting, and whether it is the
/// raw transcript because the formatter's output failed the safety check.
pub struct FormatterResult {
    pub text: String,
    pub used_raw_fallback: bool,
}

pub open spec fn no_formatter_output_message() -> Seq<char> {
    "No formatter output text received"@
}

/// Turns the content of the formatter's first choice (if there was one) into
/// the result: the trimmed content when it is not blank and passes the safety
/// check, the transcript itself when it is not blank but fails it, and an
/// error when there is no content or only white space.
pub fn formatter_result_from_reply(transcript: &str, first_choice_content: Option<&str>) -> (r:
    Result<FormatterResult, String>)
    ensures
        match first_choice_content {
            None => r matches Err(e) && e@ == no_formatter_output_message(),
            Some(c) => if trim(c@).len() == 0 {
                r matches Err(e) && e@ == no_formatter_output_message()
            } else if passes_safety_check(transcript@, trim(c@)) {
                r matches Ok(f) && f.text@ == trim(c@) && !f.used_raw_fallback
            } else {
                r matches Ok(f) && f.text@ == transcript@ && f.used_raw_fallback
            },
        },
{
    let content = match first_choice_content {
        None => {
            return Err("No formatter output text received".to_string());
        },
        Some(c) => trim_str(c),
    };
    if content.len() == 0 {
        return Err("No formatter output text received".to_string());
    }
    let content = string_of(&content);
    if formatter_output_passes_safety_check(transcript, content.as_str()) {
        Ok(FormatterResult { text: content, used_raw_fallback: false })
    } else {
        Ok(FormatterResult { text: transcript.to_string(), used_raw_fallback: true })
    }
}

// ---------------------------------------------------------------------------
// Connection test
// ---------------------------------------------------------------------------

/// `str::trim_end_matches` for one character: drops every trailing `c`.
pub open spec fn trim_end_char(s: Seq<char>, c: char) -> Seq<char>
    decreases s.len(),
{
    if s.len() > 0 && s.last() == c {
        trim_end_char(s.drop_last(), c)
    } else {
        s
    }
}

fn trim_end_char_exec(s: &[char], c: char) -> (r: Vec<char>)
    ensures
        r@ == trim_end_char(s@, c),
{
    let mut j: usize = s.len();
    assert(s@.subrange(0, j as int) =~= s@);
    while j > 0 && s[j - 1] == c
        invariant
            j <= s@.len(),
            trim_end_char(s@, c) == trim_end_char(s@.subrange(0, j as int), c),
        decreases j,
    {
        assert(s@.subrange(0, j as int).drop_last() =~= s@.subrange(0, j - 1));
        j -= 1;
    }
    let mut r: Vec<char> = Vec::new();
    let mut i: usize = 0;
    while i < j
        invariant
            i <= j <= s@.len(),
            r@ == s@.subrange(0, i as int),
        decreases j - i,
    {
        r.push(s[i]);
        assert(s@.subrange(0, i + 1) =~= s@.subrange(0, i as int).push(s@[i as int]));
        i += 1;
    }
    r
}

pub open spec fn missing_key_message() -> Seq<char> {
    "API key is missing. Add your API key and save settings first."@
}

pub open spec fn missing_base_url_message() -> Seq<char> {
    "API base URL is missing. Set it (example: https://api.openai.com/v1)."@
}

/// The base URL as the connection test uses it: trimmed, without trailing
/// slashes.
pub open spec fn test_base_url(api_base_url: Seq<char>) -> Seq<char> {
    trim_end_char(trim(api_base_url), '/')
}

/// What the connection test sends: the key it authenticates with and the
/// URL of the model listing.
pub struct ConnectionTestTarget {
    pub api_key: String,
    pub url: String,
}

/// Checks the saved key and base URL before any request is made. The key is
/// used trimmed; the URL is the trimmed base without trailing slashes
/// followed by `/models`.
pub fn connection_test_target(api_key: &str, api_base_url: &str) -> (r: Result<
    ConnectionTestTarget,
    String,
>)
    ensures
        trim(api_key@).len() == 0 ==> (r matches Err(e) && e@ == missing_key_message()),
        trim(api_key@).len() > 0 && test_base_url(api_base_url@).len() == 0 ==> (r matches Err(e)
            && e@ == missing_base_url_message()),
        trim(api_key@).len() > 0 && test_base_url(api_base_url@).len() > 0 ==> (r matches Ok(t)
            && t.api_key@ == trim(api_key@) && t.url@ == test_base_url(api_base_url@) + "/models"@),
{
    let key = trim_str(api_key);
    if key.len() == 0 {
        return Err("API key is missing. Add your API key and save settings first.".to_string());
    }
    let base_trimmed = trim_str(api_base_url);
    let mut base = trim_end_char_exec(&base_trimmed, '/');
    if base.len() == 0 {
        return Err(
            "API base URL is missing. Set it (example: https://api.openai.com/v1).".to_string(),
        );
    }
    append_str(&mut base, "/models");
    Ok(ConnectionTestTarget { api_key: string_of(&key), url: string_of(&base) })
}

pub open spec fn unauthorized_message() -> Seq<char> {
    "Connection failed (401 Unauthorized). Your API key looks invalid. Double-check it and save again."@
}

pub open spec fn not_found_message() -> Seq<char> {
    "Connection failed (404 Not Found). API base URL is likely incorrect. Check it includes the right version path (for OpenAI: https://api.openai.com/v1)."@
}

/// The connection test's answer for the status the model listing returned
/// and its body.
pub open spec fn connection_test_outcome(code: u16, body: Seq<char>) -> Result<Seq<char>, Seq<char>> {
    if is_success_code(code) {
        Ok("API connection successful."@)
    } else if code == 401 {
        Err(unauthorized_message())
    } else if code == 404 {
        Err(not_found_message())
    } else {
        Err("Connection failed ("@ + status_display(code) + "). API response: "@ + http_body_summary(
            body,
        ))
    }
}

pub fn connection_test_result(status: u16, body: &str) -> (r: Result<String, String>)
    requires
        100 <= status <= 999,
    ensures
        match r {
            Ok(s) => connection_test_outcome(status, body@) == Ok::<Seq<char>, Seq<char>>(s@),
            Err(e) => connection_test_outcome(status, body@) == Err::<Seq<char>, Seq<char>>(e@),
        },
{
    if 200 <= status && status < 300 {
        return Ok("API connection successful.".to_string());
    }
    if status == 401 {
        return Err(
            "Connection failed (401 Unauthorized). Your API key looks invalid. Double-check it and save again."
                .to_string(),
        );
    }
    if status == 404 {
        return Err(
            "Connection failed (404 Not Found). API base URL is likely incorrect. Check it includes the right version path (for OpenAI: https://api.openai.com/v1)."
                .to_string(),
        );
    }
    let mut v: Vec<char> = Vec::new();
    append_str(&mut v, "Connection failed (");
    let st = status_chars(status);
    append_chars(&mut v, &st);
    append_str(&mut v, "). API response: ");
    let summary = summarize_http_body(body);
    append_str(&mut v, summary.as_str());
    Err(string_of(&v))
}

/// What is known of a request that got no answer.
pub struct TransportError {
    pub is_timeout: bool,
    pub is_connect: bool,
    pub is_request: bool,
    /// The error's own description.
    pub text: String,
}

pub open spec fn timeout_message() -> Seq<char> {
    "Connection timed out after "@ + decimal(API_TEST_TIMEOUT_SECS as nat)
        + "s. Check your network, firewall/VPN settings, and API base URL."@
}

pub open spec fn unreachable_message() -> Seq<char> {
    "Could not reach the API host. Verify your internet connection and API base URL."@
}

/// The connection test's message for a request that got no answer.
pub fn map_test_connection_error(error: &TransportError) -> (s: String)
    ensures
        error.is_timeout ==> s@ == timeout_message(),
        !error.is_timeout && (error.is_connect || error.is_request) ==> s@ == unreachable_message(),
        !error.is_timeout && !error.is_connect && !error.is_request ==> s@
            == "Connection test failed: "@ + error.text@,
{
    if error.is_timeout {
        let mut v: Vec<char> = Vec::new();
        append_str(&mut v, "Connection timed out after ");
        push_decimal(&mut v, API_TEST_TIMEOUT_SECS);
        append_str(&mut v, "s. Check your network, firewall/VPN settings, and API base URL.");
        return string_of(&v);
    }
    if error.is_connect || error.is_request {
        return "Could not reach the API host. Verify your internet connection and API base URL."
            .to_string();
    }
    let mut v: Vec<char> = Vec::new();
    append_str(&mut v, "Connection test failed: ");
    append_str(&mut v, error.text.as_str());
    string_of(&v)
}


/// The wait before a retry never shrinks from one attempt to the next and
/// never exceeds 32 times the base wait.
pub proof fn lemma_backoff_monotone(attempt: u32)
    requires
        attempt < u32::MAX,
    ensures
        retry_backoff(attempt) <= retry_backoff((attempt + 1) as u32),
        retry_backoff(attempt) <= 32 * API_RETRY_BASE_BACKOFF_MS,
{
    vstd::arithmetic::power2::lemma2_to64();
}

/// A request is sent at most three times: after the third failed attempt
/// nothing is retried, whatever the failure.
pub proof fn lemma_at_most_three_attempts(attempt: u32, failure: AttemptFailure)
    requires
        attempt + 1 >= API_RETRY_MAX_ATTEMPTS,
    ensures
        !(spec_is_retryable_failure(failure) && attempt + 1 < API_RETRY_MAX_ATTEMPTS),
{
}

/// The retry policy: after a failed attempt that is not the last of three,
/// a request that timed out, could not connect, or was answered with 429 or
/// a 5xx status is sent again after 350 ms doubled once per earlier attempt
/// (350 ms after the first attempt, 700 ms after the second); any other
/// failure, and any failure of the third attempt, ends the retries.
pub proof fn lemma_retry_policy(attempt: u32, failure: AttemptFailure)
    ensures
        ({
            let retried = match failure {
                AttemptFailure::Status(code) => code == 429 || (500 <= code && code < 600),
                AttemptFailure::Transport { is_timeout, is_connect } => is_timeout || is_connect,
            };
            &&& retried && attempt < 2 ==> spec_next_retry_step(attempt, failure)
                == RetryStep::RetryAfterMs(if attempt == 0 {
                350u64
            } else {
                700u64
            })
            &&& !(retried && attempt < 2) ==> spec_next_retry_step(attempt, failure)
                == RetryStep::GiveUp
        }),
{
    vstd::arithmetic::power2::lemma2_to64();
}

} // verus!
