//! Script detection: whether a text reads as Traditional or Simplified
//! Chinese, judged on a bounded sample with ASCII and a few marks removed.

use vstd::prelude::*;
use crate::delimiter::{is_delimiter, is_delimiter_exec};
use crate::lexicon::Lexicon;
use crate::text::{utf8_len, utf8_len_exec};

verus! {

/// The longest prefix of `s` whose UTF-8 encoding fits in `max` bytes.
pub open spec fn utf8_prefix(s: Seq<char>, max: int) -> Seq<char>
    decreases s.len(),
{
    if s.len() == 0 || utf8_len(s[0]) > max {
        seq![]
    } else {
        seq![s[0]] + utf8_prefix(s.drop_first(), max - utf8_len(s[0]))
    }
}

/// Characters left out of the sample: ASCII control white space, printable
/// ASCII (space, punctuation, digits, letters) and `著`, which both scripts share.
pub open spec fn is_sample_noise(c: char) -> bool {
    let u = c as int;
    ||| 0x09 <= u && u <= 0x0D
    ||| 0x20 <= u && u <= 0x7E
    ||| u == 0x8457
}

/// `s` without its noise characters.
pub open spec fn strip_noise(s: Seq<char>) -> Seq<char> {
    s.filter(|c: char| !is_sample_noise(c))
}

/// The sample that detection looks at: at most 1000 bytes of the text, noise
/// removed, then at most 200 bytes of what remains.
pub open spec fn detection_sample(s: Seq<char>) -> Seq<char> {
    utf8_prefix(strip_noise(utf8_prefix(s, 1000)), 200)
}

/// Each character replaced by the single-character entry of `m` for it.
pub open spec fn map_single_chars(m: Map<Seq<char>, Seq<char>>, s: Seq<char>) -> Seq<char>
    decreases s.len(),
{
    if s.len() == 0 {
        seq![]
    } else {
        let k = seq![s[0]];
        (if m.dom().contains(k) {
            m[k]
        } else {
            k
        }) + map_single_chars(m, s.drop_first())
    }
}

/// Character-by-character conversion with one dictionary; a text that is a
/// lone delimiter stays as it is.
pub open spec fn char_convert(m: Map<Seq<char>, Seq<char>>, s: Seq<char>) -> Seq<char> {
    if s.len() == 1 && is_delimiter(s[0]) {
        s
    } else {
        map_single_chars(m, s)
    }
}

/// The detection result: 1 when Traditional-to-Simplified characters change
/// the sample, otherwise 2 when Simplified-to-Traditional characters change
/// it, otherwise 0; 0 for an empty text.
pub open spec fn zho_result(
    ts_chars: Map<Seq<char>, Seq<char>>,
    st_chars: Map<Seq<char>, Seq<char>>,
    s: Seq<char>,
) -> i32 {
    if s.len() == 0 {
        0
    } else {
        let t = detection_sample(s);
        if char_convert(ts_chars, t) != t {
            1
        } else if char_convert(st_chars, t) != t {
            2
        } else {
            0
        }
    }
}

/// Detection answers 0, 1 or 2, and 0 for an empty text.
pub proof fn law_zho_result_range(ts_chars: Map<Seq<char>, Seq<char>>, st_chars: Map<Seq<char>, Seq<char>>, s: Seq<char>)
    ensures
        zho_result(ts_chars, st_chars, s) == 0 || zho_result(ts_chars, st_chars, s) == 1
            || zho_result(ts_chars, st_chars, s) == 2,
        s.len() == 0 ==> zho_result(ts_chars, st_chars, s) == 0,
{
}

/// Detection checks the Traditional reading first: when the
/// Traditional-to-Simplified characters change the sample, the answer is 1
/// whatever the Simplified-to-Traditional characters do; 2 only when they
/// leave it and the Simplified-to-Traditional characters change it; else 0.
pub proof fn law_zho_traditional_first(
    ts_chars: Map<Seq<char>, Seq<char>>,
    st_chars: Map<Seq<char>, Seq<char>>,
    s: Seq<char>,
)
    ensures
        s.len() > 0 && char_convert(ts_chars, detection_sample(s)) != detection_sample(s) ==> zho_result(
            ts_chars,
            st_chars,
            s,
        ) == 1,
        s.len() > 0 && char_convert(ts_chars, detection_sample(s)) == detection_sample(s) && char_convert(
            st_chars,
            detection_sample(s),
        ) != detection_sample(s) ==> zho_result(ts_chars, st_chars, s) == 2,
        s.len() == 0 || (char_convert(ts_chars, detection_sample(s)) == detection_sample(s) && char_convert(
            st_chars,
            detection_sample(s),
        ) == detection_sample(s)) ==> zho_result(ts_chars, st_chars, s) == 0,
{
}

/// The longest prefix of `s` that fits in `max` UTF-8 bytes.
pub fn utf8_prefix_exec(s: &[char], max: usize) -> (r: Vec<char>)
    ensures
        r@ == utf8_prefix(s@, max as int),
{
    let mut out: Vec<char> = Vec::new();
    let mut i: usize = 0;
    let mut left: usize = max;
    assert(s@.subrange(0, s@.len() as int) =~= s@);
    while i < s.len()
        invariant
            i <= s@.len(),
            out@ + utf8_prefix(s@.subrange(i as int, s@.len() as int), left as int) == utf8_prefix(
                s@,
                max as int,
            ),
        decreases s.len() - i,
    {
        let ghost rest = s@.subrange(i as int, s@.len() as int);
        let b = utf8_len_exec(s[i]);
        if b > left {
            proof {
                assert(rest[0] == s@[i as int]);
                assert(utf8_prefix(rest, left as int) == Seq::<char>::empty());
                assert(out@ =~= out@ + Seq::<char>::empty());
            }
            return out;
        }
        proof {
            assert(rest[0] == s@[i as int]);
            assert(rest.drop_first() =~= s@.subrange(i + 1, s@.len() as int));
        }
        out.push(s[i]);
        left = left - b;
        proof {
            assert(out@ + utf8_prefix(s@.subrange(i + 1, s@.len() as int), left as int) =~= (out@.drop_last()
                + (seq![s@[i as int]] + utf8_prefix(rest.drop_first(), left as int))));
        }
        i = i + 1;
    }
    proof {
        assert(s@.subrange(i as int, s@.len() as int) =~= Seq::<char>::empty());
        assert(out@ =~= out@ + Seq::<char>::empty());
    }
    out
}

/// Whether `c` is left out of the detection sample.
pub fn is_sample_noise_exec(c: char) -> (r: bool)
    ensures
        r == is_sample_noise(c),
{
    let u = c as u32;
    (0x09 <= u && u <= 0x0D) || (0x20 <= u && u <= 0x7E) || u == 0x8457
}

/// `s` without its noise characters.
pub fn strip_noise_exec(s: &[char]) -> (r: Vec<char>)
    ensures
        r@ == strip_noise(s@),
{
    let mut out: Vec<char> = Vec::new();
    let mut i: usize = 0;
    while i < s.len()
        invariant
            i <= s@.len(),
            out@ == strip_noise(s@.subrange(0, i as int)),
        decreases s.len() - i,
    {
        proof {
            let sub = s@.subrange(0, (i + 1) as int);
            assert(sub.drop_last() =~= s@.subrange(0, i as int));
            assert(sub.last() == s@[i as int]);
            reveal_with_fuel(Seq::filter, 1);
        }
        if !is_sample_noise_exec(s[i]) {
            out.push(s[i]);
        }
        i = i + 1;
    }
    assert(s@.subrange(0, s@.len() as int) =~= s@);
    out
}

/// Character-by-character conversion with one dictionary.
pub fn char_convert_exec(lex: &Lexicon, s: &[char]) -> (r: Vec<char>)
    requires
        lex.wf(),
    ensures
        r@ == char_convert(lex@, s@),
{
    let mut out: Vec<char> = Vec::new();
    if s.len() == 1 && is_delimiter_exec(s[0]) {
        out.push(s[0]);
        assert(out@ =~= s@);
        return out;
    }
    let mut i: usize = 0;
    assert(s@.subrange(0, s@.len() as int) =~= s@);
    while i < s.len()
        invariant
            i <= s@.len(),
            lex.wf(),
            out@ + map_single_chars(lex@, s@.subrange(i as int, s@.len() as int)) == map_single_chars(
                lex@,
                s@,
            ),
        decreases s.len() - i,
    {
        let ghost rest = s@.subrange(i as int, s@.len() as int);
        let ghost out_before = out@;
        let mut key: Vec<char> = Vec::new();
        key.push(s[i]);
        proof {
            assert(rest[0] == s@[i as int]);
            assert(key@ =~= seq![rest[0]]);
            assert(rest.drop_first() =~= s@.subrange(i + 1, s@.len() as int));
        }
        let ghost piece = if lex@.dom().contains(key@) {
            lex@[key@]
        } else {
            key@
        };
        match lex.get(key.as_slice()) {
            Some(v) => {
                let mut k: usize = 0;
                while k < v.len()
                    invariant
                        k <= v@.len(),
                        out@ == out_before + v@.subrange(0, k as int),
                    decreases v.len() - k,
                {
                    out.push(v[k]);
                    assert(v@.subrange(0, (k + 1) as int) =~= v@.subrange(0, k as int).push(v@[k as int]));
                    k = k + 1;
                }
                assert(v@.subrange(0, v@.len() as int) =~= v@);
            },
            None => {
                out.push(s[i]);
                assert(out@ =~= out_before + key@);
            },
        }
        proof {
            assert(out@ == out_before + piece);
            assert(out@ + map_single_chars(lex@, s@.subrange(i + 1, s@.len() as int)) =~= out_before
                + (piece + map_single_chars(lex@, rest.drop_first())));
        }
        i = i + 1;
    }
    proof {
        assert(s@.subrange(i as int, s@.len() as int) =~= Seq::<char>::empty());
        assert(out@ =~= out@ + Seq::<char>::empty());
    }
    out
}

} // verus!
