//! The check that keeps formatter output only when it is plausibly a
//! transformation of the transcript: similar length, and enough shared words.
use vstd::prelude::*;

use crate::text::{
    ascii_lower_char, chars_eq, eq_ignore_ascii_case, eq_ignore_case, is_ascii_alnum,
    is_ascii_alphanumeric, is_white_space, is_whitespace, lower_seq, trim, trim_str,
};

verus! {

// ---------------------------------------------------------------------------
// Words and tokens
// ---------------------------------------------------------------------------

/// `str::split_whitespace`: the maximal runs of non-white-space characters.
pub open spec fn ws_words(s: Seq<char>) -> Seq<Seq<char>>
    decreases s.len(),
{
    if s.len() == 0 {
        Seq::empty()
    } else {
        let p = s.drop_last();
        let c = s.last();
        let w = ws_words(p);
        if is_white_space(c) {
            w
        } else if p.len() > 0 && !is_white_space(p.last()) {
            w.update(w.len() - 1, w.last().push(c))
        } else {
            w.push(seq![c])
        }
    }
}

pub proof fn lemma_ws_words_nonempty(s: Seq<char>)
    requires
        s.len() > 0,
        !is_white_space(s.last()),
    ensures
        ws_words(s).len() > 0,
    decreases s.len(),
{
    let p = s.drop_last();
    if p.len() > 0 && !is_white_space(p.last()) {
        lemma_ws_words_nonempty(p);
    }
}

/// A character that survives in an overlap token.
pub open spec fn is_token_char(c: char) -> bool {
    is_ascii_alnum(c) || c == '\''
}

pub open spec fn keep_token_chars(w: Seq<char>) -> Seq<char>
    decreases w.len(),
{
    if w.len() == 0 {
        Seq::empty()
    } else if is_token_char(w.last()) {
        keep_token_chars(w.drop_last()).push(w.last())
    } else {
        keep_token_chars(w.drop_last())
    }
}

/// The overlap token of a word: its ASCII letters, digits and apostrophes,
/// lower-cased.
pub open spec fn word_token(w: Seq<char>) -> Seq<char> {
    lower_seq(keep_token_chars(w))
}

/// The distinct non-empty tokens of the words, in order of first appearance.
pub open spec fn distinct_tokens(words: Seq<Seq<char>>) -> Seq<Seq<char>>
    decreases words.len(),
{
    if words.len() == 0 {
        Seq::empty()
    } else {
        let prev = distinct_tokens(words.drop_last());
        let t = word_token(words.last());
        if t.len() > 0 && !prev.contains(t) {
            prev.push(t)
        } else {
            prev
        }
    }
}

/// The tokens compared by the overlap check (as a set: each appears once).
pub open spec fn token_list(text: Seq<char>) -> Seq<Seq<char>> {
    distinct_tokens(ws_words(text))
}

pub open spec fn chars_views(v: Seq<Vec<char>>) -> Seq<Seq<char>> {
    v.map_values(|w: Vec<char>| w@)
}

fn split_whitespace(s: &[char]) -> (r: Vec<Vec<char>>)
    ensures
        chars_views(r@) == ws_words(s@),
{
    let mut words: Vec<Vec<char>> = Vec::new();
    let mut cur: Vec<char> = Vec::new();
    let mut in_word = false;
    for i in 0..s.len()
        invariant
            in_word == (i > 0 && !is_white_space(s@[i - 1])),
            in_word ==> ws_words(s@.take(i as int)) == chars_views(words@).push(cur@),
            !in_word ==> ws_words(s@.take(i as int)) == chars_views(words@),
    {
        let c = s[i];
        let ghost prev = s@.take(i as int);
        assert(s@.take(i + 1).drop_last() =~= prev);
        assert(s@.take(i + 1).last() == c);
        if i > 0 {
            assert(prev.last() == s@[i - 1]);
        }
        if is_whitespace(c) {
            if in_word {
                let done = cur;
                words.push(done);
                cur = Vec::new();
                assert(chars_views(words@) =~= ws_words(prev));
            }
            in_word = false;
        } else {
            if in_word {
                let ghost before = cur@;
                cur.push(c);
                assert(chars_views(words@).push(cur@) =~= ws_words(prev).update(
                    ws_words(prev).len() - 1,
                    before.push(c),
                ));
            } else {
                cur = Vec::new();
                cur.push(c);
                assert(cur@ =~= seq![c]);
            }
            in_word = true;
        }
    }
    assert(s@.take(s.len() as int) =~= s@);
    if in_word {
        words.push(cur);
    }
    words
}

fn word_token_exec(w: &[char]) -> (r: Vec<char>)
    ensures
        r@ == word_token(w@),
{
    let mut r: Vec<char> = Vec::new();
    for i in 0..w.len()
        invariant
            r@ == word_token(w@.take(i as int)),
    {
        let c = w[i];
        assert(w@.take(i + 1).drop_last() =~= w@.take(i as int));
        if is_ascii_alphanumeric(c) || c == '\'' {
            let ghost before = r@;
            r.push(ascii_lower_char(c));
            assert(r@ =~= word_token(w@.take(i + 1)));
        } else {
            assert(r@ =~= word_token(w@.take(i + 1)));
        }
    }
    assert(w@.take(w.len() as int) =~= w@);
    r
}

fn contains_chars_vec(items: &Vec<Vec<char>>, t: &[char]) -> (b: bool)
    ensures
        b == chars_views(items@).contains(t@),
{
    for i in 0..items.len()
        invariant
            forall|j: int| 0 <= j < i ==> chars_views(items@)[j] != t@,
    {
        if chars_eq(&items[i], t) {
            assert(chars_views(items@)[i as int] == t@);
            return true;
        }
    }
    false
}

/// The distinct overlap tokens of a text, in order of first appearance.
pub fn tokenize_for_overlap(text: &[char]) -> (r: Vec<Vec<char>>)
    ensures
        chars_views(r@) == token_list(text@),
{
    let words = split_whitespace(text);
    let ghost wv = chars_views(words@);
    let mut out: Vec<Vec<char>> = Vec::new();
    for i in 0..words.len()
        invariant
            wv == chars_views(words@),
            chars_views(out@) == distinct_tokens(wv.take(i as int)),
    {
        assert(wv.take(i + 1).drop_last() =~= wv.take(i as int));
        let t = word_token_exec(&words[i]);
        if t.len() > 0 && !contains_chars_vec(&out, &t) {
            let ghost before = chars_views(out@);
            out.push(t);
            assert(chars_views(out@) =~= before.push(word_token(wv[i as int])));
        }
    }
    assert(wv.take(words.len() as int) =~= wv);
    out
}

/// No token occurs twice, and the tokens are exactly the non-empty tokens of
/// the words: the list is the token set.
pub proof fn lemma_distinct_tokens_is_set(words: Seq<Seq<char>>)
    ensures
        distinct_tokens(words).no_duplicates(),
        forall|t: Seq<char>|
            distinct_tokens(words).contains(t) <==> (t.len() > 0 && exists|j: int|
                0 <= j < words.len() && word_token(#[trigger] words[j]) == t),
    decreases words.len(),
{
    if words.len() > 0 {
        let p = words.drop_last();
        lemma_distinct_tokens_is_set(p);
        let prev = distinct_tokens(p);
        let t = word_token(words.last());
        let d = distinct_tokens(words);
        let added = t.len() > 0 && !prev.contains(t);
        if added {
            assert(d == prev.push(t));
            assert forall|a: int, b: int| 0 <= a < d.len() && 0 <= b < d.len() && a != b implies d[a]
                != d[b] by {
                if a == d.len() - 1 {
                    assert(d[b] == prev[b]);
                } else if b == d.len() - 1 {
                    assert(d[a] == prev[a]);
                } else {
                    assert(d[a] == prev[a] && d[b] == prev[b]);
                }
            }
        } else {
            assert(d == prev);
        }
        assert forall|u: Seq<char>|
            d.contains(u) <==> (u.len() > 0 && exists|j: int|
                0 <= j < words.len() && word_token(#[trigger] words[j]) == u) by {
            if d.contains(u) {
                let k = choose|k: int| 0 <= k < d.len() && d[k] == u;
                if added && k == d.len() - 1 {
                    assert(u == t);
                    assert(word_token(words[words.len() - 1]) == u);
                } else {
                    assert(prev[k] == u);
                    assert(prev.contains(u));
                    let j = choose|j: int| 0 <= j < p.len() && word_token(#[trigger] p[j]) == u;
                    assert(words[j] == p[j]);
                }
            }
            if u.len() > 0 && exists|j: int|
                0 <= j < words.len() && word_token(#[trigger] words[j]) == u {
                let j = choose|j: int| 0 <= j < words.len() && word_token(#[trigger] words[j]) == u;
                if j < words.len() - 1 {
                    assert(p[j] == words[j]);
                    assert(prev.contains(u));
                    if added {
                        assert(d[prev.index_of(u)] == u);
                    }
                } else {
                    assert(u == t);
                    if added {
                        assert(d[d.len() - 1] == u);
                    }
                }
            }
        }
    }
}

// ---------------------------------------------------------------------------
// The check
// ---------------------------------------------------------------------------

/// Formatted length within the accepted ratio of the transcript length:
/// 0.45 to 2.2 for transcripts of 80 characters or more, else 0.30 to 3.0.
pub open spec fn length_ratio_ok(transcript_len: nat, formatted_len: nat) -> bool {
    if transcript_len >= 80 {
        100 * formatted_len >= 45 * transcript_len && 10 * formatted_len <= 22 * transcript_len
    } else {
        100 * formatted_len >= 30 * transcript_len && formatted_len <= 3 * transcript_len
    }
}

/// How many of the tokens in `b` also occur in `a`.
pub open spec fn shared_count(a: Seq<Seq<char>>, b: Seq<Seq<char>>) -> nat
    decreases b.len(),
{
    if b.len() == 0 {
        0
    } else {
        shared_count(a, b.drop_last()) + if a.contains(b.last()) {
            1nat
        } else {
            0nat
        }
    }
}

/// Formatter output is kept when, after trimming, both texts are non-empty
/// and either equal ignoring ASCII case, or of similar length with enough
/// shared tokens: at least 35% of the output's tokens and 20% of the
/// transcript's tokens are shared (short texts, under four tokens, only need
/// the length check).
pub open spec fn passes_safety_check(transcript: Seq<char>, formatted: Seq<char>) -> bool {
    let tt = trim(transcript);
    let ft = trim(formatted);
    if tt.len() == 0 || ft.len() == 0 {
        false
    } else if eq_ignore_case(tt, ft) {
        true
    } else if !length_ratio_ok(tt.len(), ft.len()) {
        false
    } else {
        let ta = token_list(tt);
        let fa = token_list(ft);
        if ta.len() == 0 || fa.len() == 0 {
            false
        } else if ta.len() < 4 || fa.len() < 4 {
            true
        } else {
            let shared = shared_count(ta, fa);
            100 * shared >= 35 * fa.len() && 100 * shared >= 20 * ta.len()
        }
    }
}

pub proof fn lemma_shared_count_bound(a: Seq<Seq<char>>, b: Seq<Seq<char>>)
    ensures
        shared_count(a, b) <= b.len(),
    decreases b.len(),
{
    if b.len() > 0 {
        lemma_shared_count_bound(a, b.drop_last());
    }
}

pub fn formatter_output_passes_safety_check(transcript: &str, formatted: &str) -> (b: bool)
    ensures
        b == passes_safety_check(transcript@, formatted@),
{
    let tt = trim_str(transcript);
    let ft = trim_str(formatted);
    if tt.len() == 0 || ft.len() == 0 {
        return false;
    }
    if eq_ignore_ascii_case(&tt, &ft) {
        return true;
    }
    let tl = tt.len() as u128;
    let fl = ft.len() as u128;
    let ratio_ok = if tl >= 80 {
        100 * fl >= 45 * tl && 10 * fl <= 22 * tl
    } else {
        100 * fl >= 30 * tl && fl <= 3 * tl
    };
    if !ratio_ok {
        return false;
    }
    let ta = tokenize_for_overlap(&tt);
    let fa = tokenize_for_overlap(&ft);
    if ta.len() == 0 || fa.len() == 0 {
        return false;
    }
    if ta.len() < 4 || fa.len() < 4 {
        return true;
    }
    let mut shared: usize = 0;
    for i in 0..fa.len()
        invariant
            shared == shared_count(chars_views(ta@), chars_views(fa@).take(i as int)),
            shared <= i,
    {
        assert(chars_views(fa@).take(i + 1).drop_last() =~= chars_views(fa@).take(i as int));
        if contains_chars_vec(&ta, &fa[i]) {
            shared += 1;
        }
    }
    assert(chars_views(fa@).take(fa.len() as int) =~= chars_views(fa@));
    let s = shared as u128;
    100 * s >= 35 * (fa.len() as u128) && 100 * s >= 20 * (ta.len() as u128)
}


/// Output that matches the transcript up to ASCII case and surrounding white
/// space is kept exactly when the transcript is not blank.
pub proof fn lemma_same_text_passes(transcript: Seq<char>, formatted: Seq<char>)
    requires
        eq_ignore_case(trim(transcript), trim(formatted)),
    ensures
        passes_safety_check(transcript, formatted) <==> trim(transcript).len() > 0,
{
    assert(lower_seq(trim(transcript)).len() == trim(transcript).len());
    assert(lower_seq(trim(formatted)).len() == trim(formatted).len());
}

/// Blank output never passes.
pub proof fn lemma_blank_output_fails(transcript: Seq<char>, formatted: Seq<char>)
    requires
        trim(formatted).len() == 0,
    ensures
        !passes_safety_check(transcript, formatted),
{
}

} // verus!
