//! Hotkey strings: normalization, parsing into bindings, the shortcut policy,
//! and the registration plan that turns two hotkey lists into the registered
//! hold / hands-free bindings.
use vstd::prelude::*;

use crate::text::{
    chars_of, eq_ignore_ascii_case, eq_ignore_case, is_white_space, join_chars, join_with, lacks,
    lemma_join_ends, lemma_split_join, lemma_split_pieces_lack, lemma_trim_fixed,
    lemma_trim_idempotent, lemma_trim_lacks, lemma_trimmed_ends, lower_seq, split_chars, split_on, string_of,
    trim, trim_chars, trim_str,
};

verus! {

/// The operating system the shortcut rules are evaluated for. macOS adds the
/// `Fn` key (handled by a native event tap) to the accepted bindings.
#[derive(Clone, Copy, PartialEq, Eq, Structural, Debug)]
pub enum Platform {
    MacOs,
    Other,
}

impl Platform {
    pub open spec fn is_mac(self) -> bool {
        self is MacOs
    }

    pub fn mac(&self) -> (b: bool)
        ensures
            b == self.is_mac(),
    {
        match self {
            Platform::MacOs => true,
            Platform::Other => false,
        }
    }
}

/// Which recording action a shortcut drives.
#[derive(Clone, Copy, PartialEq, Eq, Structural, Debug)]
pub enum ShortcutAction {
    Hold,
    Toggle,
}

impl ShortcutAction {
    pub fn as_str(self) -> (s: &'static str)
        ensures
            s@ == (match self {
                ShortcutAction::Hold => "hold"@,
                ShortcutAction::Toggle => "toggle"@,
            }),
    {
        match self {
            ShortcutAction::Hold => "hold",
            ShortcutAction::Toggle => "toggle",
        }
    }

    pub fn shortcut_label(self) -> (s: &'static str)
        ensures
            s@ == self.label(),
    {
        match self {
            ShortcutAction::Hold => "Hold to speak shortcut",
            ShortcutAction::Toggle => "Hands-free shortcut",
        }
    }

    pub open spec fn label(self) -> Seq<char> {
        match self {
            ShortcutAction::Hold => "Hold to speak shortcut"@,
            ShortcutAction::Toggle => "Hands-free shortcut"@,
        }
    }
}

// ---------------------------------------------------------------------------
// Normalization of requested hotkey strings
// ---------------------------------------------------------------------------

/// The canonical spelling of the macOS Fn key.
pub open spec fn fn_token() -> Seq<char> {
    seq!['F', 'n']
}

/// A part is the Fn key when it equals `Fn` ignoring ASCII case.
pub open spec fn is_fn_part(p: Seq<char>) -> bool {
    eq_ignore_case(p, fn_token())
}

/// One `+`-separated part after trimming; on macOS any spelling of Fn is
/// written `Fn`.
pub open spec fn canonical_part(p: Seq<char>, mac: bool) -> Seq<char> {
    if mac && is_fn_part(trim(p)) {
        fn_token()
    } else {
        trim(p)
    }
}

/// The canonical parts that are not empty, in order.
pub open spec fn kept_parts(parts: Seq<Seq<char>>, mac: bool) -> Seq<Seq<char>>
    decreases parts.len(),
{
    if parts.len() == 0 {
        Seq::empty()
    } else {
        let prev = kept_parts(parts.drop_last(), mac);
        let c = canonical_part(parts.last(), mac);
        if c.len() > 0 {
            prev.push(c)
        } else {
            prev
        }
    }
}

pub open spec fn plus() -> Seq<char> {
    seq!['+']
}

/// A requested hotkey, normalized: trimmed, split on `+`, each part trimmed
/// (and Fn canonicalized on macOS), empty parts dropped, joined with `+`.
pub open spec fn normalize_hotkey(s: Seq<char>, mac: bool) -> Seq<char> {
    join_with(kept_parts(split_on(trim(s), '+'), mac), plus())
}

fn canonical_part_exec(part: &[char], platform: Platform) -> (r: Vec<char>)
    ensures
        r@ == canonical_part(part@, platform.is_mac()),
{
    let t = trim_chars(part);
    if platform.mac() && eq_ignore_ascii_case(&t, &['F', 'n']) {
        assert(['F', 'n']@ =~= fn_token());
        let r = vec!['F', 'n'];
        assert(r@ =~= fn_token());
        r
    } else {
        proof {
            if platform.is_mac() {
                assert(['F', 'n']@ =~= fn_token());
            }
        }
        t
    }
}

pub fn normalize_requested_hotkey(input: &str, platform: Platform) -> (r: String)
    ensures
        r@ == normalize_hotkey(input@, platform.is_mac()),
{
    let trimmed = trim_str(input);
    let parts = split_chars(&trimmed, '+');
    let ghost views = parts@.map_values(|p: Vec<char>| p@);
    let mut kept: Vec<Vec<char>> = Vec::new();
    for i in 0..parts.len()
        invariant
            views == parts@.map_values(|p: Vec<char>| p@),
            kept@.map_values(|p: Vec<char>| p@) == kept_parts(
                views.take(i as int),
                platform.is_mac(),
            ),
    {
        let c = canonical_part_exec(&parts[i], platform);
        assert(views.take(i + 1).drop_last() =~= views.take(i as int));
        if c.len() > 0 {
            let ghost before = kept@.map_values(|p: Vec<char>| p@);
            kept.push(c);
            assert(kept@.map_values(|p: Vec<char>| p@) =~= before.push(
                canonical_part(views[i as int], platform.is_mac()),
            ));
        }
    }
    assert(views.take(parts.len() as int) =~= views);
    let joined = join_chars(&kept, "+");
    proof {
        reveal_strlit("+");
        assert("+"@ =~= plus());
    }
    string_of(&joined)
}

/// The requested hotkey list after normalization: each hotkey normalized,
/// empty results dropped, and a hotkey dropped when an earlier kept one equals
/// it ignoring ASCII case.
pub open spec fn normalize_hotkey_list(hs: Seq<Seq<char>>, mac: bool) -> Seq<Seq<char>>
    decreases hs.len(),
{
    if hs.len() == 0 {
        Seq::empty()
    } else {
        let prev = normalize_hotkey_list(hs.drop_last(), mac);
        let v = normalize_hotkey(hs.last(), mac);
        if v.len() > 0 && !seq_has_ignore_case(prev, v) {
            prev.push(v)
        } else {
            prev
        }
    }
}

/// Some element of `items` equals `v` ignoring ASCII case.
pub open spec fn seq_has_ignore_case(items: Seq<Seq<char>>, v: Seq<char>) -> bool {
    exists|i: int| 0 <= i < items.len() && eq_ignore_case(#[trigger] items[i], v)
}

pub open spec fn string_views(v: Seq<String>) -> Seq<Seq<char>> {
    v.map_values(|s: String| s@)
}

fn has_ignore_case(items: &Vec<String>, v: &[char]) -> (r: bool)
    ensures
        r == seq_has_ignore_case(string_views(items@), v@),
{
    for i in 0..items.len()
        invariant
            forall|j: int|
                0 <= j < i ==> !eq_ignore_case(#[trigger] string_views(items@)[j], v@),
    {
        let existing = chars_of(items[i].as_str());
        if eq_ignore_ascii_case(&existing, v) {
            assert(eq_ignore_case(string_views(items@)[i as int], v@));
            return true;
        }
    }
    false
}

pub fn normalize_requested_hotkeys(hotkeys: &[String], platform: Platform) -> (r: Vec<String>)
    ensures
        string_views(r@) == normalize_hotkey_list(string_views(hotkeys@), platform.is_mac()),
{
    let ghost input = string_views(hotkeys@);
    let mut normalized: Vec<String> = Vec::new();
    for i in 0..hotkeys.len()
        invariant
            input == string_views(hotkeys@),
            string_views(normalized@) == normalize_hotkey_list(
                input.take(i as int),
                platform.is_mac(),
            ),
    {
        let value = normalize_requested_hotkey(hotkeys[i].as_str(), platform);
        assert(input.take(i + 1).drop_last() =~= input.take(i as int));
        assert(input.take(i + 1).last() == hotkeys@[i as int]@);
        let value_chars = chars_of(value.as_str());
        if value_chars.len() > 0 && !has_ignore_case(&normalized, &value_chars) {
            let ghost before = string_views(normalized@);
            normalized.push(value);
            assert(string_views(normalized@) =~= before.push(value_chars@));
        }
    }
    assert(input.take(hotkeys.len() as int) =~= input);
    normalized
}


// ---------------------------------------------------------------------------
// Normalization is a projection
// ---------------------------------------------------------------------------

/// A part as it stands in a normalized hotkey: non-empty, trimmed, in its
/// canonical spelling, without `+`.
pub open spec fn is_clean_part(p: Seq<char>, mac: bool) -> bool {
    &&& p.len() > 0
    &&& trim(p) == p
    &&& canonical_part(p, mac) == p
    &&& lacks(p, '+')
}

proof fn lemma_canonical_part_clean(p: Seq<char>, mac: bool)
    requires
        lacks(p, '+'),
    ensures
        canonical_part(p, mac).len() > 0 ==> is_clean_part(canonical_part(p, mac), mac),
{
    lemma_trim_idempotent(p);
    lemma_trim_lacks(p, '+');
    if mac && is_fn_part(trim(p)) {
        let f = fn_token();
        assert(!is_white_space(f[0]) && !is_white_space(f.last()));
        lemma_trim_fixed(f);
        assert(is_fn_part(f));
    }
}

proof fn lemma_kept_parts_clean(parts: Seq<Seq<char>>, mac: bool)
    requires
        forall|k: int| 0 <= k < parts.len() ==> lacks(#[trigger] parts[k], '+'),
    ensures
        forall|k: int|
            0 <= k < kept_parts(parts, mac).len() ==> is_clean_part(
                #[trigger] kept_parts(parts, mac)[k],
                mac,
            ),
    decreases parts.len(),
{
    if parts.len() > 0 {
        let init = parts.drop_last();
        assert forall|k: int| 0 <= k < init.len() implies lacks(#[trigger] init[k], '+') by {
            assert(init[k] == parts[k]);
        }
        lemma_kept_parts_clean(init, mac);
        assert(lacks(parts.last(), '+'));
        lemma_canonical_part_clean(parts.last(), mac);
        let prev = kept_parts(init, mac);
        let c = canonical_part(parts.last(), mac);
        let out = kept_parts(parts, mac);
        assert forall|k: int| 0 <= k < out.len() implies is_clean_part(#[trigger] out[k], mac) by {
            if k < prev.len() {
                assert(out[k] == prev[k]);
            } else {
                assert(out[k] == c);
            }
        }
    }
}

proof fn lemma_kept_parts_of_clean(parts: Seq<Seq<char>>, mac: bool)
    requires
        forall|k: int| 0 <= k < parts.len() ==> is_clean_part(#[trigger] parts[k], mac),
    ensures
        kept_parts(parts, mac) == parts,
    decreases parts.len(),
{
    if parts.len() > 0 {
        let init = parts.drop_last();
        assert forall|k: int| 0 <= k < init.len() implies is_clean_part(#[trigger] init[k], mac) by {
            assert(init[k] == parts[k]);
        }
        lemma_kept_parts_of_clean(init, mac);
        assert(is_clean_part(parts.last(), mac));
        assert(init.push(parts.last()) =~= parts);
    }
}

/// Normalizing a hotkey that is already normalized leaves it unchanged.
pub proof fn lemma_normalize_hotkey_idempotent(s: Seq<char>, mac: bool)
    ensures
        normalize_hotkey(normalize_hotkey(s, mac), mac) == normalize_hotkey(s, mac),
{
    let parts = split_on(trim(s), '+');
    lemma_split_pieces_lack(trim(s), '+');
    let k = kept_parts(parts, mac);
    lemma_kept_parts_clean(parts, mac);
    let n = join_with(k, plus());
    assert(plus() =~= seq!['+']);
    if k.len() == 0 {
        assert(n =~= Seq::<char>::empty());
        assert(trim(n) =~= n);
        let e = Seq::<char>::empty();
        assert(split_on(e, '+') == seq![e]);
        assert(lower_seq(e).len() == 0);
        assert(lower_seq(fn_token()).len() == 2);
        assert(!is_fn_part(e));
        assert(canonical_part(e, mac) =~= e);
        assert(seq![e].drop_last() =~= Seq::<Seq<char>>::empty());
        assert(seq![e].last() == e);
        assert(kept_parts(Seq::<Seq<char>>::empty(), mac) =~= Seq::<Seq<char>>::empty());
        assert(kept_parts(seq![e], mac) =~= Seq::<Seq<char>>::empty());
    } else {
        assert(is_clean_part(k[0], mac));
        assert(is_clean_part(k.last(), mac));
        lemma_trimmed_ends(k[0]);
        lemma_trimmed_ends(k.last());
        lemma_join_ends(k, plus());
        lemma_trim_fixed(n);
        assert forall|i: int| 0 <= i < k.len() implies lacks(#[trigger] k[i], '+') by {
            assert(is_clean_part(k[i], mac));
        }
        lemma_split_join(k, '+');
        lemma_kept_parts_of_clean(k, mac);
    }
}

/// Every `+`-separated part of a non-empty normalized hotkey is non-empty
/// and trimmed, and on macOS a part that is Fn ignoring ASCII case is spelled
/// `Fn`; an empty result has no parts at all (the input had none).
pub proof fn lemma_normalized_hotkey_parts(s: Seq<char>, mac: bool)
    ensures
        ({
            let n = normalize_hotkey(s, mac);
            &&& n.len() == 0 <==> kept_parts(split_on(trim(s), '+'), mac).len() == 0
            &&& n.len() > 0 ==> forall|k: int|
                0 <= k < split_on(n, '+').len() ==> {
                    let p = #[trigger] split_on(n, '+')[k];
                    &&& p.len() > 0
                    &&& trim(p) == p
                    &&& (mac && is_fn_part(p) ==> p == fn_token())
                }
        }),
{
    let parts = split_on(trim(s), '+');
    lemma_split_pieces_lack(trim(s), '+');
    let k = kept_parts(parts, mac);
    lemma_kept_parts_clean(parts, mac);
    let n = join_with(k, plus());
    assert(plus() =~= seq!['+']);
    if k.len() > 0 {
        assert(is_clean_part(k[0], mac));
        assert(is_clean_part(k.last(), mac));
        lemma_join_ends(k, plus());
        assert forall|i: int| 0 <= i < k.len() implies lacks(#[trigger] k[i], '+') by {
            assert(is_clean_part(k[i], mac));
        }
        lemma_split_join(k, '+');
        assert forall|i: int| 0 <= i < split_on(n, '+').len() implies {
            let p = #[trigger] split_on(n, '+')[i];
            &&& p.len() > 0
            &&& trim(p) == p
            &&& (mac && is_fn_part(p) ==> p == fn_token())
        } by {
            assert(is_clean_part(k[i], mac));
        }
    } else {
        assert(n =~= Seq::<char>::empty());
    }
}

/// Joining clean parts with `+` gives a hotkey that normalization leaves
/// unchanged.
pub proof fn lemma_clean_join_normalized(parts: Seq<Seq<char>>, mac: bool)
    requires
        parts.len() > 0,
        forall|k: int| 0 <= k < parts.len() ==> is_clean_part(#[trigger] parts[k], mac),
    ensures
        normalize_hotkey(join_with(parts, plus()), mac) == join_with(parts, plus()),
{
    let j = join_with(parts, plus());
    assert(plus() =~= seq!['+']);
    assert(is_clean_part(parts[0], mac));
    assert(is_clean_part(parts.last(), mac));
    lemma_trimmed_ends(parts[0]);
    lemma_trimmed_ends(parts.last());
    lemma_join_ends(parts, plus());
    lemma_trim_fixed(j);
    assert forall|i: int| 0 <= i < parts.len() implies lacks(#[trigger] parts[i], '+') by {
        assert(is_clean_part(parts[i], mac));
    }
    lemma_split_join(parts, '+');
    lemma_kept_parts_of_clean(parts, mac);
}

/// No two entries are equal ignoring ASCII case.
pub open spec fn distinct_ignoring_case(xs: Seq<Seq<char>>) -> bool {
    forall|i: int, j: int| 0 <= i < j < xs.len() ==> !eq_ignore_case(#[trigger] xs[i], #[trigger] xs[j])
}

/// A normalized hotkey list: every entry non-empty and normalized, and no
/// two entries equal ignoring ASCII case.
pub open spec fn is_normalized_list(xs: Seq<Seq<char>>, mac: bool) -> bool {
    &&& distinct_ignoring_case(xs)
    &&& forall|k: int|
        0 <= k < xs.len() ==> (#[trigger] xs[k]).len() > 0 && normalize_hotkey(xs[k], mac) == xs[k]
}

/// The list normalization produces has no empty entry, no entry that
/// normalization would change, and no two entries equal ignoring ASCII case.
pub proof fn lemma_normalize_hotkey_list_shape(hs: Seq<Seq<char>>, mac: bool)
    ensures
        is_normalized_list(normalize_hotkey_list(hs, mac), mac),
    decreases hs.len(),
{
    if hs.len() > 0 {
        lemma_normalize_hotkey_list_shape(hs.drop_last(), mac);
        let prev = normalize_hotkey_list(hs.drop_last(), mac);
        let v = normalize_hotkey(hs.last(), mac);
        lemma_normalize_hotkey_idempotent(hs.last(), mac);
        if v.len() > 0 && !seq_has_ignore_case(prev, v) {
            let out = prev.push(v);
            assert forall|i: int, j: int| 0 <= i < j < out.len() implies !eq_ignore_case(
                #[trigger] out[i],
                #[trigger] out[j],
            ) by {
                if j == prev.len() {
                    assert(out[i] == prev[i]);
                    assert(!eq_ignore_case(prev[i], v));
                } else {
                    assert(out[i] == prev[i] && out[j] == prev[j]);
                }
            }
            assert forall|k: int| 0 <= k < out.len() implies (#[trigger] out[k]).len() > 0
                && normalize_hotkey(out[k], mac) == out[k] by {
                if k < prev.len() {
                    assert(out[k] == prev[k]);
                }
            }
        }
    }
}

proof fn lemma_normalized_list_fixed(xs: Seq<Seq<char>>, mac: bool)
    requires
        is_normalized_list(xs, mac),
    ensures
        normalize_hotkey_list(xs, mac) == xs,
    decreases xs.len(),
{
    if xs.len() > 0 {
        let init = xs.drop_last();
        assert forall|i: int, j: int| 0 <= i < j < init.len() implies !eq_ignore_case(
            #[trigger] init[i],
            #[trigger] init[j],
        ) by {
            assert(init[i] == xs[i] && init[j] == xs[j]);
        }
        assert forall|k: int| 0 <= k < init.len() implies (#[trigger] init[k]).len() > 0
            && normalize_hotkey(init[k], mac) == init[k] by {
            assert(init[k] == xs[k]);
        }
        lemma_normalized_list_fixed(init, mac);
        let v = xs.last();
        assert(xs[xs.len() - 1].len() > 0);
        assert(normalize_hotkey(xs[xs.len() - 1], mac) == xs[xs.len() - 1]);
        assert(!seq_has_ignore_case(init, v)) by {
            assert forall|i: int| 0 <= i < init.len() implies !eq_ignore_case(
                #[trigger] init[i],
                v,
            ) by {
                assert(init[i] == xs[i]);
                assert(!eq_ignore_case(xs[i], xs[xs.len() - 1]));
            }
        }
        assert(init.push(v) =~= xs);
    }
}

/// Normalizing a normalized hotkey list leaves it unchanged: saving the
/// shortcuts that were saved is a no-op.
pub proof fn lemma_normalize_hotkey_list_idempotent(hs: Seq<Seq<char>>, mac: bool)
    ensures
        normalize_hotkey_list(normalize_hotkey_list(hs, mac), mac) == normalize_hotkey_list(hs, mac),
{
    lemma_normalize_hotkey_list_shape(hs, mac);
    lemma_normalized_list_fixed(normalize_hotkey_list(hs, mac), mac);
}

} // verus!
