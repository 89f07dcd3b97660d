//! Transcript history, the durable draft kept while a dictation is being
//! processed, and the bounded debug log.
use vstd::prelude::*;

use crate::settings::{
    normalize_recording_mode, normalize_transcription_language, normalized_language,
    normalized_mode,
};
use crate::text::{string_of, trim, trim_str};

verus! {

/// At most this many transcripts are kept, newest first.
pub const TRANSCRIPT_HISTORY_LIMIT: usize = 500;

/// The low bits of an entry id that hold the per-millisecond sequence number.
pub const HISTORY_ID_SEQUENCE_MASK: u64 = 0x3ff;

/// At most this many debug log lines are kept, newest last.
pub const DEBUG_LOG_LIMIT: usize = 200;

/// One dictation result in the history.
#[derive(Clone, Debug)]
pub struct TranscriptHistoryEntry {
    pub id: u64,
    pub created_at_ms: u64,
    pub final_output: String,
    pub recording_mode: String,
    pub language: String,
    pub source_app: Option<String>,
    pub source: String,
    pub processing_latency_ms: Option<u64>,
}

/// A transcript waiting to be inserted; kept until the dictation finishes so
/// that it can be recovered after a failure.
#[derive(Clone, Debug)]
pub struct DurableDraft {
    pub text: String,
    pub created_at_ms: u64,
    pub recording_mode: String,
    pub language: String,
    pub source_app: Option<String>,
}

pub fn default_history_recording_mode() -> (r: String)
    ensures
        r@ == "hold"@,
{
    "hold".to_string()
}

pub fn default_history_language() -> (r: String)
    ensures
        r@ == "auto"@,
{
    "auto".to_string()
}

pub fn default_history_source() -> (r: String)
    ensures
        r@ == "dictation"@,
{
    "dictation".to_string()
}

/// What a finished dictation reports for the history.
pub struct TranscriptHistoryRecord<'a> {
    pub final_output: &'a str,
    pub source: &'a str,
    pub recording_mode: &'a str,
    pub language: &'a str,
    pub source_app: Option<&'a str>,
    pub processing_latency_ms: Option<u64>,
}

/// The id of an entry: the creation time in milliseconds, shifted left by
/// ten bits, with the low ten bits of the sequence number below it.
pub open spec fn history_entry_id(now_ms: u64, sequence: u64) -> u64 {
    (now_ms << 10u64) | (sequence & HISTORY_ID_SEQUENCE_MASK)
}

pub open spec fn opt_str_view(s: Option<&str>) -> Option<Seq<char>> {
    match s {
        Some(t) => Some(t@),
        None => None,
    }
}

pub open spec fn opt_string_view(s: Option<String>) -> Option<Seq<char>> {
    match s {
        Some(t) => Some(t@),
        None => None,
    }
}

/// The entry a record becomes.
pub open spec fn entry_from_record(
    e: TranscriptHistoryEntry,
    record: TranscriptHistoryRecord,
    now_ms: u64,
    sequence: u64,
) -> bool {
    &&& e.id == history_entry_id(now_ms, sequence)
    &&& e.created_at_ms == now_ms
    &&& e.final_output@ == trim(record.final_output@)
    &&& e.recording_mode@ == normalized_mode(record.recording_mode@)
    &&& e.language@ == normalized_language(record.language@)
    &&& opt_string_view(e.source_app) == opt_str_view(record.source_app)
    &&& e.source@ == record.source@
    &&& e.processing_latency_ms == record.processing_latency_ms
}

fn opt_to_string(s: Option<&str>) -> (r: Option<String>)
    ensures
        opt_string_view(r) == opt_str_view(s),
{
    match s {
        Some(t) => Some(t.to_string()),
        None => None,
    }
}

/// Adds a finished dictation to the front of the history, keeping the
/// newest 500 entries. A record whose output is blank is not added; the
/// result tells whether the history changed.
pub fn push_transcript_history_entry(
    entries: &mut Vec<TranscriptHistoryEntry>,
    record: &TranscriptHistoryRecord,
    now_ms: u64,
    sequence: u64,
) -> (added: bool)
    ensures
        added == (trim(record.final_output@).len() > 0),
        !added ==> final(entries)@ == old(entries)@,
        added ==> {
            &&& final(entries)@.len() == if old(entries)@.len() + 1 <= TRANSCRIPT_HISTORY_LIMIT {
                old(entries)@.len() + 1int
            } else {
                TRANSCRIPT_HISTORY_LIMIT as int
            }
            &&& entry_from_record(final(entries)@[0], *record, now_ms, sequence)
            &&& forall|i: int|
                1 <= i < final(entries)@.len() ==> final(entries)@[i] == old(entries)@[i - 1]
        },
{
    let trimmed = trim_str(record.final_output);
    if trimmed.len() == 0 {
        return false;
    }
    let entry_id = (now_ms << 10u64) | (sequence & HISTORY_ID_SEQUENCE_MASK);
    let entry = TranscriptHistoryEntry {
        id: entry_id,
        created_at_ms: now_ms,
        final_output: string_of(&trimmed),
        recording_mode: normalize_recording_mode(record.recording_mode),
        language: normalize_transcription_language(record.language),
        source_app: opt_to_string(record.source_app),
        source: record.source.to_string(),
        processing_latency_ms: record.processing_latency_ms,
    };
    entries.insert(0, entry);
    entries.truncate(TRANSCRIPT_HISTORY_LIMIT);
    true
}

/// The durable draft saved as soon as a transcription arrives.
pub fn durable_draft_for(
    text: &str,
    created_at_ms: u64,
    recording_mode: &str,
    language: &str,
    source_app: Option<&str>,
) -> (d: DurableDraft)
    ensures
        d.text@ == text@,
        d.created_at_ms == created_at_ms,
        d.recording_mode@ == normalized_mode(recording_mode@),
        d.language@ == normalized_language(language@),
        opt_string_view(d.source_app) == opt_str_view(source_app),
{
    DurableDraft {
        text: text.to_string(),
        created_at_ms,
        recording_mode: normalize_recording_mode(recording_mode),
        language: normalize_transcription_language(language),
        source_app: opt_to_string(source_app),
    }
}

/// The lines kept after appending `line`: the newest 200.
pub open spec fn debug_log_after(old_lines: Seq<String>, line: String) -> Seq<String> {
    let all = old_lines.push(line);
    if all.len() > DEBUG_LOG_LIMIT {
        all.skip(all.len() - DEBUG_LOG_LIMIT)
    } else {
        all
    }
}

/// Appends a line to the debug log, dropping the oldest lines beyond 200.
pub fn push_debug_log_line(entries: &mut Vec<String>, line: String)
    ensures
        final(entries)@ == debug_log_after(old(entries)@, line),
{
    let ghost all = old(entries)@.push(line);
    entries.push(line);
    let ghost mut dropped: int = 0;
    while entries.len() > DEBUG_LOG_LIMIT
        invariant
            0 <= dropped <= all.len(),
            entries@ == all.skip(dropped),
            dropped > 0 ==> all.len() - dropped >= DEBUG_LOG_LIMIT,
        decreases entries.len(),
    {
        entries.remove(0);
        proof {
            assert(all.skip(dropped).subrange(1, all.skip(dropped).len() as int) =~= all.skip(
                dropped + 1,
            ));
            dropped = dropped + 1;
        }
    }
    proof {
        if all.len() > DEBUG_LOG_LIMIT {
            assert(dropped == all.len() - DEBUG_LOG_LIMIT);
        } else {
            assert(all.skip(0) =~= all);
        }
    }
}


/// Entries made in the same millisecond with different sequence numbers
/// (modulo 1024) get different ids, and an entry made in a later
/// millisecond gets a larger id (as long as the time fits in 54 bits,
/// which holds for millisecond timestamps for the next half million years).
pub proof fn lemma_history_ids_distinct(now_a: u64, seq_a: u64, now_b: u64, seq_b: u64)
    requires
        now_a < 0x40_0000_0000_0000,
        now_b < 0x40_0000_0000_0000,
    ensures
        now_a == now_b && (seq_a & 0x3ff) != (seq_b & 0x3ff) ==> history_entry_id(now_a, seq_a)
            != history_entry_id(now_b, seq_b),
        now_a < now_b ==> history_entry_id(now_a, seq_a) < history_entry_id(now_b, seq_b),
{
    assert(now_a < 0x40_0000_0000_0000 && now_b < 0x40_0000_0000_0000 ==> (now_a == now_b && (seq_a
        & 0x3ff) != (seq_b & 0x3ff) ==> ((now_a << 10u64) | (seq_a & 0x3ff)) != ((now_b << 10u64) | (
    seq_b & 0x3ff)))) by (bit_vector);
    assert(now_a < 0x40_0000_0000_0000 && now_b < 0x40_0000_0000_0000 ==> (now_a < now_b ==> ((now_a
        << 10u64) | (seq_a & 0x3ff)) < ((now_b << 10u64) | (seq_b & 0x3ff)))) by (bit_vector);
}

/// The debug log never holds more than 200 lines, and the newest line is
/// always the last one.
pub proof fn lemma_debug_log_bounded(old_lines: Seq<String>, line: String)
    ensures
        debug_log_after(old_lines, line).len() <= DEBUG_LOG_LIMIT,
        debug_log_after(old_lines, line).last() == line,
        old_lines.len() < DEBUG_LOG_LIMIT ==> debug_log_after(old_lines, line) == old_lines.push(
            line,
        ),
{
}

} // verus!
