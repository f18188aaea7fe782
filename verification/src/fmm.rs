//! Forward maximum matching (FMM): the text is split after each delimiter
//! (and, when IDS are kept, around each complete IDS), and every segment is
//! scanned left to right; at each position the longest phrase that some
//! dictionary of the round holds is replaced (dictionaries are consulted in
//! order, the first that holds the phrase wins), and a character that starts
//! no phrase is kept as it is.

use vstd::prelude::*;
use crate::delimiter::{is_delimiter, is_delimiter_exec};
use crate::ids::{ids_arity, ids_end, ids_range_at, is_complete_ids, lemma_ids_end_bounds};
use crate::lexicon::Lexicon;

verus! {

/// The phrase maps of one conversion round, in precedence order.
pub type Round = Seq<Map<Seq<char>, Seq<char>>>;

/// The phrase maps of a list of dictionaries.
pub open spec fn round_view(r: Seq<&Lexicon>) -> Round {
    r.map_values(|l: &Lexicon| l@)
}

/// Every dictionary of the round is well formed and keeps keys within `cap`.
pub open spec fn round_wf(r: Seq<&Lexicon>, cap: nat) -> bool {
    forall|i: int| 0 <= i < r.len() ==> (#[trigger] r[i]).wf() && r[i].max_key_len() <= cap
}

/// The replacement that the first dictionary holding `key` gives.
pub open spec fn round_lookup(round: Round, key: Seq<char>) -> Option<Seq<char>>
    decreases round.len(),
{
    if round.len() == 0 {
        None
    } else if round[0].dom().contains(key) {
        Some(round[0][key])
    } else {
        round_lookup(round.drop_first(), key)
    }
}

/// The longest phrase of length at most `len` starting at `pos`, with its
/// replacement.
pub open spec fn longest_match(round: Round, s: Seq<char>, pos: int, len: int) -> Option<
    (int, Seq<char>),
>
    decreases len,
{
    if len <= 0 {
        None
    } else {
        match round_lookup(round, s.subrange(pos, pos + len)) {
            Some(v) => Some((len, v)),
            None => longest_match(round, s, pos, len - 1),
        }
    }
}

/// Where a complete IDS starting at `pos` ends, when IDS are kept as they are.
pub open spec fn ids_step(ids: bool, s: Seq<char>, pos: int) -> Option<int> {
    if ids {
        match ids_end(s, pos) {
            Some(e) => if pos < e <= s.len() {
                Some(e)
            } else {
                None
            },
            None => None,
        }
    } else {
        None
    }
}

/// Maximum matching of `s` from `pos` on.
pub open spec fn fmm_from(round: Round, s: Seq<char>, pos: int) -> Seq<char>
    decreases s.len() - pos,
{
    if pos < 0 || pos >= s.len() {
        seq![]
    } else {
        match longest_match(round, s, pos, s.len() - pos) {
            Some(m) => if 0 < m.0 <= s.len() - pos {
                m.1 + fmm_from(round, s, pos + m.0)
            } else {
                seq![s[pos]] + fmm_from(round, s, pos + 1)
            },
            None => seq![s[pos]] + fmm_from(round, s, pos + 1),
        }
    }
}

/// The conversion of one segment: a lone delimiter, and (when IDS are kept)
/// a segment that is exactly one complete IDS, are kept as they are; any
/// other segment is maximum-matched.
pub open spec fn convert_segment(round: Round, ids: bool, seg: Seq<char>) -> Seq<char> {
    if seg.len() == 1 && is_delimiter(seg[0]) {
        seg
    } else if ids && ids_end(seg, 0) == Some(seg.len() as int) {
        seg
    } else {
        fmm_from(round, seg, 0)
    }
}

/// Whether splitting stops at `i`: a delimiter, or the start of a complete
/// IDS when IDS are kept.
pub open spec fn stops_at(ids: bool, s: Seq<char>, i: int) -> bool {
    ids_step(ids, s, i) is Some || is_delimiter(s[i])
}

/// The first position at or after `i` where splitting stops, or the end.
pub open spec fn scan_end(ids: bool, s: Seq<char>, i: int) -> int
    decreases s.len() - i,
{
    if i < 0 || i >= s.len() {
        s.len() as int
    } else if stops_at(ids, s, i) {
        i
    } else {
        scan_end(ids, s, i + 1)
    }
}

/// Where the segment starting at `k` ends: just after a delimiter; just
/// before a complete IDS (or just after it, for a segment that starts with
/// it); or at the end of the text.
pub open spec fn segment_end(ids: bool, s: Seq<char>, k: int) -> int {
    let j = scan_end(ids, s, k);
    if j >= s.len() {
        s.len() as int
    } else {
        match ids_step(ids, s, j) {
            Some(e) => if j > k {
                j
            } else {
                e
            },
            None => j + 1,
        }
    }
}

/// The conversion of `s` from `start` on, segment by segment.
pub open spec fn replace_from(round: Round, ids: bool, s: Seq<char>, start: int) -> Seq<char>
    decreases s.len() - start,
{
    if start < 0 || start >= s.len() {
        seq![]
    } else {
        let e = segment_end(ids, s, start);
        if start < e <= s.len() {
            convert_segment(round, ids, s.subrange(start, e)) + replace_from(round, ids, s, e)
        } else {
            seq![]
        }
    }
}

/// One conversion round over the whole text.
pub open spec fn segment_replace(round: Round, ids: bool, s: Seq<char>) -> Seq<char> {
    replace_from(round, ids, s, 0)
}

/// Positions that do not stop splitting can be skipped.
proof fn lemma_scan_end_skip(ids: bool, s: Seq<char>, k: int, i: int)
    requires
        0 <= k <= i <= s.len(),
        forall|j: int| k <= j < i ==> !#[trigger] stops_at(ids, s, j),
    ensures
        scan_end(ids, s, k) == scan_end(ids, s, i),
    decreases i - k,
{
    if k < i {
        lemma_scan_end_skip(ids, s, k + 1, i);
    }
}

/// A segment ends after its start and within the text.
proof fn lemma_segment_end_in_range(ids: bool, s: Seq<char>, k: int)
    requires
        0 <= k < s.len(),
    ensures
        k < segment_end(ids, s, k) <= s.len(),
{
    lemma_scan_end_bounds(ids, s, k);
    let j = scan_end(ids, s, k);
    if j < s.len() {
        if let Some(e) = ids_step(ids, s, j) {
            if j == k {
                assert(k < e <= s.len());
            }
        }
    }
}

proof fn lemma_scan_end_bounds(ids: bool, s: Seq<char>, i: int)
    requires
        0 <= i <= s.len(),
    ensures
        i <= scan_end(ids, s, i) <= s.len(),
        scan_end(ids, s, i) < s.len() ==> stops_at(ids, s, scan_end(ids, s, i)),
    decreases s.len() - i,
{
    if i < s.len() && !stops_at(ids, s, i) {
        lemma_scan_end_bounds(ids, s, i + 1);
    }
}

/// A key found in the round is no longer than the round's bound.
proof fn lemma_round_lookup_bounded(r: Seq<&Lexicon>, cap: nat, key: Seq<char>)
    requires
        round_wf(r, cap),
        round_lookup(round_view(r), key) is Some,
    ensures
        key.len() <= cap,
    decreases r.len(),
{
    let rv = round_view(r);
    if rv[0].dom().contains(key) {
        assert(r[0].wf());
        r[0].lemma_keys_bounded(key);
    } else {
        let t = r.drop_first();
        assert(round_view(t) =~= rv.drop_first());
        assert forall|i: int| 0 <= i < t.len() implies (#[trigger] t[i]).wf() && t[i].max_key_len()
            <= cap by {
            assert(t[i] == r[i + 1]);
            assert(r[i + 1].wf() && r[i + 1].max_key_len() <= cap);
        }
        lemma_round_lookup_bounded(t, cap, key);
    }
}

/// Lengths at which no phrase is found do not change the longest match.
proof fn lemma_longest_match_skip(round: Round, s: Seq<char>, pos: int, a: int, b: int)
    requires
        0 <= a <= b,
        forall|len: int|
            a < len <= b ==> #[trigger] round_lookup(round, s.subrange(pos, pos + len)) is None,
    ensures
        longest_match(round, s, pos, b) == longest_match(round, s, pos, a),
    decreases b - a,
{
    if b > a {
        assert(round_lookup(round, s.subrange(pos, pos + b)) is None);
        lemma_longest_match_skip(round, s, pos, a, b - 1);
    }
}

/// A longest match has a length between one and the given bound.
proof fn lemma_longest_match_len(round: Round, s: Seq<char>, pos: int, len: int)
    ensures
        longest_match(round, s, pos, len) matches Some(m) ==> 0 < m.0 <= len,
    decreases len,
{
    if len > 0 {
        lemma_longest_match_len(round, s, pos, len - 1);
    }
}

/// A round whose dictionaries are all empty.
pub open spec fn round_is_empty(round: Round) -> bool {
    forall|i: int| 0 <= i < round.len() ==> #[trigger] round[i] == Map::<Seq<char>, Seq<char>>::empty()
}

proof fn lemma_empty_round_lookup(round: Round, key: Seq<char>)
    requires
        round_is_empty(round),
    ensures
        round_lookup(round, key) is None,
    decreases round.len(),
{
    if round.len() > 0 {
        assert(round[0] == Map::<Seq<char>, Seq<char>>::empty());
        let t = round.drop_first();
        assert forall|i: int| 0 <= i < t.len() implies #[trigger] t[i] == Map::<Seq<char>, Seq<char>>::empty() by {
            assert(t[i] == round[i + 1]);
        }
        lemma_empty_round_lookup(t, key);
    }
}

proof fn lemma_empty_round_fmm(round: Round, s: Seq<char>, pos: int)
    requires
        round_is_empty(round),
        0 <= pos <= s.len(),
    ensures
        fmm_from(round, s, pos) == s.subrange(pos, s.len() as int),
    decreases s.len() - pos,
{
    if pos < s.len() {
        assert forall|len: int| 0 < len <= s.len() - pos implies #[trigger] round_lookup(
            round,
            s.subrange(pos, pos + len),
        ) is None by {
            lemma_empty_round_lookup(round, s.subrange(pos, pos + len));
        }
        lemma_longest_match_skip(round, s, pos, 0, s.len() - pos);
        lemma_empty_round_fmm(round, s, pos + 1);
        assert(seq![s[pos]] + s.subrange(pos + 1, s.len() as int) =~= s.subrange(pos, s.len() as int));
    } else {
        assert(s.subrange(pos, s.len() as int) =~= Seq::<char>::empty());
    }
}

proof fn lemma_empty_round_replace(round: Round, ids: bool, s: Seq<char>, start: int)
    requires
        round_is_empty(round),
        0 <= start <= s.len(),
    ensures
        replace_from(round, ids, s, start) == s.subrange(start, s.len() as int),
    decreases s.len() - start,
{
    if start < s.len() {
        lemma_segment_end_in_range(ids, s, start);
        let e = segment_end(ids, s, start);
        let seg = s.subrange(start, e);
        lemma_empty_round_fmm(round, seg, 0);
        assert(seg.subrange(0, seg.len() as int) =~= seg);
        lemma_empty_round_replace(round, ids, s, e);
        assert(seg + s.subrange(e, s.len() as int) =~= s.subrange(start, s.len() as int));
    } else {
        assert(s.subrange(start, s.len() as int) =~= Seq::<char>::empty());
    }
}

/// A round whose dictionaries are all empty leaves every text unchanged.
pub proof fn law_empty_round_is_identity(round: Round, ids: bool, s: Seq<char>)
    requires
        round_is_empty(round),
    ensures
        segment_replace(round, ids, s) == s,
{
    lemma_empty_round_replace(round, ids, s, 0);
    assert(s.subrange(0, s.len() as int) =~= s);
}

/// A text with no delimiter and no IDS operator that the round holds as a
/// whole phrase is replaced by that phrase's replacement.
pub proof fn law_whole_phrase_replaced(round: Round, ids: bool, s: Seq<char>, v: Seq<char>)
    requires
        s.len() > 0,
        forall|i: int| 0 <= i < s.len() ==> !is_delimiter(#[trigger] s[i]),
        forall|i: int| 0 <= i < s.len() ==> (#[trigger] ids_arity(s[i])) is None,
        round_lookup(round, s) == Some(v),
    ensures
        segment_replace(round, ids, s) == v,
{
    let n = s.len() as int;
    assert forall|j: int| 0 <= j < n implies !#[trigger] stops_at(ids, s, j) by {
        assert(ids_arity(s[j]) is None);
        assert(ids_end(s, j) is None);
        assert(!is_delimiter(s[j]));
    }
    lemma_scan_end_skip(ids, s, 0, n);
    assert(scan_end(ids, s, n) == n);
    assert(segment_end(ids, s, 0) == n);
    assert(s.subrange(0, n) =~= s);
    if s.len() == 1 {
        assert(!is_delimiter(s[0]));
    }
    assert(ids_arity(s[0]) is None);
    assert(ids_end(s, 0) is None);
    assert(longest_match(round, s, 0, n) == Some((n, v)));
    assert(fmm_from(round, s, n) == Seq::<char>::empty());
    assert(fmm_from(round, s, 0) == v + Seq::<char>::empty());
    assert(replace_from(round, ids, s, n) == Seq::<char>::empty());
    assert(v + Seq::<char>::empty() =~= v);
}

/// Before the last character of `a`, which is a delimiter, splitting `a + b`
/// stops where splitting `a` stops.
proof fn lemma_scan_end_prefix(a: Seq<char>, b: Seq<char>, k: int)
    requires
        0 <= k < a.len(),
        is_delimiter(a.last()),
    ensures
        scan_end(false, a + b, k) == scan_end(false, a, k),
        scan_end(false, a, k) < a.len(),
    decreases a.len() - k,
{
    let s = a + b;
    assert(s[k] == a[k]);
    if !stops_at(false, a, k) {
        assert(k != a.len() - 1);
        lemma_scan_end_prefix(a, b, k + 1);
    }
}

/// Splitting `a + b` inside `b` stops where splitting `b` stops, shifted.
proof fn lemma_scan_end_suffix(a: Seq<char>, b: Seq<char>, m: int)
    requires
        0 <= m <= b.len(),
    ensures
        scan_end(false, a + b, a.len() + m) == a.len() + scan_end(false, b, m),
    decreases b.len() - m,
{
    let s = a + b;
    if m < b.len() {
        assert(s[a.len() + m] == b[m]);
        if !stops_at(false, b, m) {
            lemma_scan_end_suffix(a, b, m + 1);
        }
    }
}

/// The conversion of `a + b` from a position inside `a` is that of `a` from
/// there, followed by the conversion of `a + b` from the end of `a`.
proof fn lemma_replace_prefix(round: Round, a: Seq<char>, b: Seq<char>, k: int)
    requires
        0 <= k <= a.len(),
        a.len() > 0,
        is_delimiter(a.last()),
    ensures
        replace_from(round, false, a + b, k) == replace_from(round, false, a, k) + replace_from(
            round,
            false,
            a + b,
            a.len() as int,
        ),
    decreases a.len() - k,
{
    let s = a + b;
    if k == a.len() {
        assert(replace_from(round, false, a, k) == Seq::<char>::empty());
        assert(Seq::<char>::empty() + replace_from(round, false, s, k) =~= replace_from(
            round,
            false,
            s,
            k,
        ));
    } else {
        lemma_scan_end_prefix(a, b, k);
        let e = segment_end(false, s, k);
        assert(segment_end(false, a, k) == e);
        lemma_segment_end_in_range(false, a, k);
        assert(s.subrange(k, e) =~= a.subrange(k, e));
        lemma_replace_prefix(round, a, b, e);
        let c = convert_segment(round, false, a.subrange(k, e));
        assert(replace_from(round, false, s, k) == c + replace_from(round, false, s, e));
        assert(replace_from(round, false, a, k) == c + replace_from(round, false, a, e));
        assert(c + (replace_from(round, false, a, e) + replace_from(round, false, s, a.len() as int))
            =~= (c + replace_from(round, false, a, e)) + replace_from(round, false, s, a.len() as int));
    }
}

/// The conversion of `a + b` from a position inside `b` is that of `b`.
proof fn lemma_replace_suffix(round: Round, a: Seq<char>, b: Seq<char>, m: int)
    requires
        0 <= m <= b.len(),
    ensures
        replace_from(round, false, a + b, a.len() + m) == replace_from(round, false, b, m),
    decreases b.len() - m,
{
    let s = a + b;
    if m < b.len() {
        lemma_scan_end_suffix(a, b, m);
        lemma_scan_end_bounds(false, b, m);
        let e = segment_end(false, b, m);
        assert(segment_end(false, s, a.len() + m) == a.len() + e);
        lemma_segment_end_in_range(false, b, m);
        assert(s.subrange(a.len() + m, a.len() + e) =~= b.subrange(m, e));
        lemma_replace_suffix(round, a, b, e);
    }
}

/// Segments are converted independently: when `a` ends with a delimiter and
/// IDS are not kept, converting `a + b` is converting `a`, then `b`.
pub proof fn law_segments_independent(round: Round, a: Seq<char>, b: Seq<char>)
    requires
        a.len() > 0,
        is_delimiter(a.last()),
    ensures
        segment_replace(round, false, a + b) == segment_replace(round, false, a) + segment_replace(
            round,
            false,
            b,
        ),
{
    lemma_replace_prefix(round, a, b, 0);
    lemma_replace_suffix(round, a, b, 0);
}

/// A text in which no character is an IDS operator.
pub open spec fn no_ids_ops(s: Seq<char>) -> bool {
    forall|i: int| 0 <= i < s.len() ==> (#[trigger] ids_arity(s[i])) is None
}

/// A round none of whose replacements holds an IDS operator.
pub open spec fn values_without_ops(round: Round) -> bool {
    forall|i: int, k: Seq<char>|
        0 <= i < round.len() && #[trigger] round[i].dom().contains(k) ==> no_ids_ops(round[i][k])
}

proof fn lemma_concat_no_ops(a: Seq<char>, b: Seq<char>)
    requires
        no_ids_ops(a),
        no_ids_ops(b),
    ensures
        no_ids_ops(a + b),
{
    assert forall|i: int| 0 <= i < (a + b).len() implies (#[trigger] ids_arity((a + b)[i])) is None by {
        if i < a.len() {
            assert((a + b)[i] == a[i]);
        } else {
            assert((a + b)[i] == b[i - a.len()]);
        }
    }
}

proof fn lemma_round_lookup_no_ops(round: Round, key: Seq<char>)
    requires
        values_without_ops(round),
        round_lookup(round, key) is Some,
    ensures
        no_ids_ops(round_lookup(round, key)->0),
    decreases round.len(),
{
    if round[0].dom().contains(key) {
        assert(no_ids_ops(round[0][key]));
    } else {
        let t = round.drop_first();
        assert forall|i: int, k: Seq<char>|
            0 <= i < t.len() && #[trigger] t[i].dom().contains(k) implies no_ids_ops(t[i][k]) by {
            assert(t[i] == round[i + 1]);
            assert(round[i + 1].dom().contains(k));
        }
        lemma_round_lookup_no_ops(t, key);
    }
}

proof fn lemma_longest_match_no_ops(round: Round, s: Seq<char>, pos: int, len: int)
    requires
        values_without_ops(round),
    ensures
        longest_match(round, s, pos, len) matches Some(m) ==> no_ids_ops(m.1),
    decreases len,
{
    if len > 0 {
        if round_lookup(round, s.subrange(pos, pos + len)) is Some {
            lemma_round_lookup_no_ops(round, s.subrange(pos, pos + len));
        } else {
            lemma_longest_match_no_ops(round, s, pos, len - 1);
        }
    }
}

proof fn lemma_fmm_no_ops(round: Round, s: Seq<char>, pos: int)
    requires
        values_without_ops(round),
        no_ids_ops(s),
        0 <= pos,
    ensures
        no_ids_ops(fmm_from(round, s, pos)),
    decreases s.len() - pos,
{
    if pos < s.len() {
        lemma_longest_match_no_ops(round, s, pos, s.len() - pos);
        assert(ids_arity(s[pos]) is None);
        assert(no_ids_ops(seq![s[pos]]));
        match longest_match(round, s, pos, s.len() - pos) {
            Some(m) => {
                if 0 < m.0 <= s.len() - pos {
                    lemma_fmm_no_ops(round, s, pos + m.0);
                    lemma_concat_no_ops(m.1, fmm_from(round, s, pos + m.0));
                } else {
                    lemma_fmm_no_ops(round, s, pos + 1);
                    lemma_concat_no_ops(seq![s[pos]], fmm_from(round, s, pos + 1));
                }
            },
            None => {
                lemma_fmm_no_ops(round, s, pos + 1);
                lemma_concat_no_ops(seq![s[pos]], fmm_from(round, s, pos + 1));
            },
        }
    }
}

proof fn lemma_scan_end_ids_flag(s: Seq<char>, i: int)
    requires
        no_ids_ops(s),
        0 <= i <= s.len(),
    ensures
        scan_end(true, s, i) == scan_end(false, s, i),
    decreases s.len() - i,
{
    if i < s.len() {
        assert(ids_arity(s[i]) is None);
        assert(ids_step(true, s, i) is None);
        if !stops_at(false, s, i) {
            lemma_scan_end_ids_flag(s, i + 1);
        }
    }
}

proof fn lemma_replace_ids_flag(round: Round, s: Seq<char>, k: int)
    requires
        no_ids_ops(s),
        0 <= k <= s.len(),
    ensures
        replace_from(round, true, s, k) == replace_from(round, false, s, k),
        values_without_ops(round) ==> no_ids_ops(replace_from(round, false, s, k)),
    decreases s.len() - k,
{
    if k < s.len() {
        lemma_scan_end_ids_flag(s, k);
        lemma_scan_end_bounds(false, s, k);
        let j = scan_end(false, s, k);
        if j < s.len() {
            assert(ids_arity(s[j]) is None);
            assert(ids_step(true, s, j) is None);
        }
        assert(segment_end(true, s, k) == segment_end(false, s, k));
        lemma_segment_end_in_range(false, s, k);
        let e = segment_end(false, s, k);
        let seg = s.subrange(k, e);
        assert(seg[0] == s[k]);
        assert(ids_arity(s[k]) is None);
        assert(ids_end(seg, 0) is None);
        assert(convert_segment(round, true, seg) == convert_segment(round, false, seg));
        assert(no_ids_ops(seg)) by {
            assert forall|i: int| 0 <= i < seg.len() implies (#[trigger] ids_arity(seg[i])) is None by {
                assert(seg[i] == s[k + i]);
            }
        }
        lemma_replace_ids_flag(round, s, e);
        if values_without_ops(round) {
            lemma_fmm_no_ops(round, seg, 0);
            lemma_concat_no_ops(convert_segment(round, false, seg), replace_from(round, false, s, e));
        }
    } else {
        assert(no_ids_ops(Seq::<char>::empty()));
    }
}

/// Keeping IDS changes nothing in one round over a text with no IDS
/// operator, whatever the dictionaries; and the result stays free of
/// operators when no replacement holds one.
pub proof fn law_ids_flag_without_operators(round: Round, s: Seq<char>)
    requires
        no_ids_ops(s),
    ensures
        segment_replace(round, true, s) == segment_replace(round, false, s),
        values_without_ops(round) ==> no_ids_ops(segment_replace(round, false, s)),
{
    lemma_replace_ids_flag(round, s, 0);
}

/// When IDS are kept, a text that is exactly one complete IDS comes out of
/// any round unchanged.
pub proof fn law_complete_ids_kept(round: Round, s: Seq<char>)
    requires
        ids_end(s, 0) == Some(s.len() as int),
    ensures
        segment_replace(round, true, s) == s,
{
    let n = s.len() as int;
    lemma_ids_end_bounds(s, 0);
    assert(ids_step(true, s, 0) == Some(n));
    assert(stops_at(true, s, 0));
    assert(scan_end(true, s, 0) == 0);
    assert(segment_end(true, s, 0) == n);
    assert(s.subrange(0, n) =~= s);
    assert(convert_segment(round, true, s) == s);
    assert(replace_from(round, true, s, n) == Seq::<char>::empty());
    assert(s + Seq::<char>::empty() =~= s);
}

/// The replacement for `key` from the first dictionary of the round that holds it.
pub fn round_get<'a>(round: &[&'a Lexicon], key: &[char]) -> (r: Option<&'a Vec<char>>)
    requires
        forall|i: int| 0 <= i < round@.len() ==> #[trigger] round@[i].wf(),
    ensures
        match (r, round_lookup(round_view(round@), key@)) {
            (Some(v), Some(w)) => v@ == w,
            (None, None) => true,
            _ => false,
        },
{
    let mut i: usize = 0;
    assert(round@.subrange(0, round@.len() as int) =~= round@);
    while i < round.len()
        invariant
            i <= round@.len(),
            forall|j: int| 0 <= j < round@.len() ==> #[trigger] round@[j].wf(),
            round_lookup(round_view(round@), key@) == round_lookup(
                round_view(round@.subrange(i as int, round@.len() as int)),
                key@,
            ),
        decreases round.len() - i,
    {
        let lex: &Lexicon = round[i];
        let ghost rest = round@.subrange(i as int, round@.len() as int);
        proof {
            assert(round_view(rest)[0] == lex@);
            assert(round_view(rest).drop_first() =~= round_view(
                round@.subrange(i + 1, round@.len() as int),
            ));
        }
        match lex.get(key) {
            Some(v) => {
                return Some(v);
            },
            None => {},
        }
        i = i + 1;
    }
    proof {
        assert(round_view(round@.subrange(i as int, round@.len() as int)).len() == 0);
    }
    None
}

/// The longest phrase of length at most `len` at `pos`, with its replacement.
fn longest_match_exec<'a>(round: &[&'a Lexicon], s: &[char], pos: usize, len: usize) -> (r: Option<
    (usize, &'a Vec<char>),
>)
    requires
        forall|i: int| 0 <= i < round@.len() ==> #[trigger] round@[i].wf(),
        pos + len <= s@.len(),
    ensures
        match (r, longest_match(round_view(round@), s@, pos as int, len as int)) {
            (Some(x), Some(y)) => x.0 == y.0 && x.1@ == y.1 && 0 < x.0 <= len,
            (None, None) => true,
            _ => false,
        },
{
    let n = s.len();
    let mut l: usize = len;
    while l > 0
        invariant
            l <= len,
            n == s@.len(),
            pos + len <= s@.len(),
            forall|i: int| 0 <= i < round@.len() ==> #[trigger] round@[i].wf(),
            longest_match(round_view(round@), s@, pos as int, len as int) == longest_match(
                round_view(round@),
                s@,
                pos as int,
                l as int,
            ),
        decreases l,
    {
        let key = vstd::slice::slice_subrange(s, pos, pos + l);
        match round_get(round, key) {
            Some(v) => {
                return Some((l, v));
            },
            None => {},
        }
        l = l - 1;
    }
    None
}

/// Appends the maximum-matching conversion of `s` (a single segment) to `out`.
fn fmm_into(round: &[&Lexicon], cap: usize, s: &[char], out: &mut Vec<char>)
    requires
        round_wf(round@, cap as nat),
    ensures
        final(out)@ == old(out)@ + fmm_from(round_view(round@), s@, 0),
{
    let ghost rv = round_view(round@);
    let n = s.len();
    let mut pos: usize = 0;
    while pos < n
        invariant
            n == s@.len(),
            pos <= n,
            rv == round_view(round@),
            round_wf(round@, cap as nat),
            out@ + fmm_from(rv, s@, pos as int) == old(out)@ + fmm_from(rv, s@, 0),
        decreases n - pos,
    {
        let rem = n - pos;
        let l0 = if cap < rem {
            cap
        } else {
            rem
        };
        proof {
            assert forall|len: int|
                l0 < len <= rem implies #[trigger] round_lookup(
                rv,
                s@.subrange(pos as int, pos + len),
            ) is None by {
                if round_lookup(rv, s@.subrange(pos as int, pos + len)) is Some {
                    lemma_round_lookup_bounded(round@, cap as nat, s@.subrange(pos as int, pos + len));
                }
            }
            lemma_longest_match_skip(rv, s@, pos as int, l0 as int, rem as int);
            lemma_longest_match_len(rv, s@, pos as int, rem as int);
        }
        let ghost out_before = out@;
        match longest_match_exec(round, s, pos, l0) {
            Some((len, v)) => {
                let mut k: usize = 0;
                while k < v.len()
                    invariant
                        k <= v@.len(),
                        out@ == out_before + v@.subrange(0, k as int),
                    decreases v.len() - k,
                {
                    out.push(v[k]);
                    proof {
                        assert(v@.subrange(0, (k + 1) as int) =~= v@.subrange(0, k as int).push(
                            v@[k as int],
                        ));
                    }
                    k = k + 1;
                }
                proof {
                    assert(v@.subrange(0, v@.len() as int) =~= v@);
                    assert(out@ + fmm_from(rv, s@, (pos + len) as int) =~= out_before + (v@
                        + fmm_from(rv, s@, (pos + len) as int)));
                }
                pos = pos + len;
            },
            None => {
                out.push(s[pos]);
                proof {
                    assert(out@ + fmm_from(rv, s@, (pos + 1) as int) =~= out_before + (seq![
                        s@[pos as int],
                    ] + fmm_from(rv, s@, (pos + 1) as int)));
                }
                pos = pos + 1;
            },
        }
    }
}

/// Appends the characters of `s` to `out`.
fn push_all(s: &[char], out: &mut Vec<char>)
    ensures
        final(out)@ == old(out)@ + s@,
{
    let mut j: usize = 0;
    while j < s.len()
        invariant
            j <= s@.len(),
            out@ == old(out)@ + s@.subrange(0, j as int),
        decreases s.len() - j,
    {
        out.push(s[j]);
        assert(s@.subrange(0, (j + 1) as int) =~= s@.subrange(0, j as int).push(s@[j as int]));
        j = j + 1;
    }
    assert(s@.subrange(0, s@.len() as int) =~= s@);
}

/// Appends the conversion of one segment to `out`.
fn convert_segment_into(round: &[&Lexicon], cap: usize, ids: bool, seg: &[char], out: &mut Vec<char>)
    requires
        round_wf(round@, cap as nat),
    ensures
        final(out)@ == old(out)@ + convert_segment(round_view(round@), ids, seg@),
{
    if seg.len() == 1 && is_delimiter_exec(seg[0]) {
        push_all(seg, out);
    } else if ids && is_complete_ids(seg) {
        push_all(seg, out);
    } else {
        fmm_into(round, cap, seg, out);
    }
}

/// Appends the conversion of `s[start..end]`, which is the segment starting
/// at `start`, and states what remains.
fn convert_range_into(
    round: &[&Lexicon],
    cap: usize,
    ids: bool,
    s: &[char],
    start: usize,
    end: usize,
    out: &mut Vec<char>,
)
    requires
        round_wf(round@, cap as nat),
        start < end <= s@.len(),
        segment_end(ids, s@, start as int) == end,
    ensures
        final(out)@ + replace_from(round_view(round@), ids, s@, end as int) == old(out)@
            + replace_from(round_view(round@), ids, s@, start as int),
{
    let seg = vstd::slice::slice_subrange(s, start, end);
    let ghost before = out@;
    convert_segment_into(round, cap, ids, seg, out);
    proof {
        let rv = round_view(round@);
        assert(out@ + replace_from(rv, ids, s@, end as int) =~= before + replace_from(
            rv,
            ids,
            s@,
            start as int,
        ));
    }
}

/// One conversion round over `s`: split into segments, convert each, and
/// concatenate them in order.
pub fn segment_replace_exec(round: &[&Lexicon], cap: usize, ids: bool, s: &[char]) -> (r: Vec<char>)
    requires
        round_wf(round@, cap as nat),
    ensures
        r@ == segment_replace(round_view(round@), ids, s@),
{
    let ghost rv = round_view(round@);
    let n = s.len();
    let mut out: Vec<char> = Vec::new();
    let mut start: usize = 0;
    let mut i: usize = 0;
    while i < n
        invariant
            n == s@.len(),
            start <= i <= n,
            rv == round_view(round@),
            round_wf(round@, cap as nat),
            forall|j: int| start <= j < i ==> !#[trigger] stops_at(ids, s@, j),
            out@ + replace_from(rv, ids, s@, start as int) == replace_from(rv, ids, s@, 0),
        decreases n - i,
    {
        if ids {
            match ids_range_at(s, i) {
                Some(e) => {
                    proof {
                        assert(ids_step(ids, s@, i as int) == Some(e as int));
                        assert(stops_at(ids, s@, i as int));
                        lemma_scan_end_skip(ids, s@, start as int, i as int);
                    }
                    if i > start {
                        convert_range_into(round, cap, ids, s, start, i, &mut out);
                    }
                    proof {
                        assert(scan_end(ids, s@, i as int) == i);
                    }
                    convert_range_into(round, cap, ids, s, i, e, &mut out);
                    start = e;
                    i = e;
                    continue ;
                },
                None => {
                    proof {
                        assert(ids_step(ids, s@, i as int) is None);
                    }
                },
            }
        }
        proof {
            assert(ids_step(ids, s@, i as int) is None);
        }
        if is_delimiter_exec(s[i]) {
            proof {
                lemma_scan_end_skip(ids, s@, start as int, i as int);
                assert(stops_at(ids, s@, i as int));
            }
            convert_range_into(round, cap, ids, s, start, i + 1, &mut out);
            start = i + 1;
        } else {
            proof {
                assert(!stops_at(ids, s@, i as int));
            }
        }
        i = i + 1;
    }
    if start < n {
        proof {
            lemma_scan_end_skip(ids, s@, start as int, n as int);
        }
        convert_range_into(round, cap, ids, s, start, n, &mut out);
    }
    proof {
        assert(replace_from(rv, ids, s@, n as int) == Seq::<char>::empty());
        assert(out@ =~= out@ + Seq::<char>::empty());
    }
    out
}

} // verus!
