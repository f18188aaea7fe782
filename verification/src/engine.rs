//! The conversion engine: the dictionaries, the dictionary rounds that each
//! configuration runs, and the per-instance switches.

use vstd::prelude::*;
use crate::config::OpenccConfig;
use crate::bundled::{
    bundled_compat, bundled_compat_table, bundled_maps, bundled_tofu, bundled_tofu_table,
    bundled_unicode, bundled_unicode_table,
};
use crate::delimiter::is_delimiter;
use crate::dictionary::{apply_spec, DictionaryMaxlength, SlotMaps};
use crate::fmm::{
    law_complete_ids_kept, law_ids_flag_without_operators, law_whole_phrase_replaced, no_ids_ops,
    values_without_ops, round_lookup, round_view, round_wf,
    segment_replace, segment_replace_exec, Round,
};
use crate::ids::{ids_arity, ids_end};
use crate::lexicon::{insert_all, law_insert_all_last_wins, Lexicon};
use crate::slot::{pairs_view, CustomDictMode, CustomDictSpec, DictSlot};
use crate::detect::{char_convert_exec, strip_noise_exec, utf8_prefix_exec, zho_result};
use crate::tables::{
    detofu_chars, normalize_char_exec, normalize_chars, CharTable, DetofuLevel, NormalizeMode,
    TofuTable,
};
use crate::text::{chars_of, concat_str, push_char, slice_eq, string_from_chars};

verus! {

/// The first round of a Simplified-to-Traditional conversion.
pub open spec fn st_round(punct: bool) -> Seq<DictSlot> {
    if punct {
        seq![DictSlot::STPhrases, DictSlot::STCharacters, DictSlot::STPunctuations]
    } else {
        seq![DictSlot::STPhrases, DictSlot::STCharacters]
    }
}

/// The last round of a Traditional-to-Simplified conversion.
pub open spec fn ts_round(punct: bool) -> Seq<DictSlot> {
    if punct {
        seq![DictSlot::TSPhrases, DictSlot::TSCharacters, DictSlot::TSPunctuations]
    } else {
        seq![DictSlot::TSPhrases, DictSlot::TSCharacters]
    }
}

/// The dictionary rounds that a configuration runs, in order; within a
/// round the slots are listed in precedence order. With `punct`, the
/// punctuation dictionaries join the Simplified / Traditional rounds; the
/// configurations without such a round ignore `punct`.
pub open spec fn config_rounds(c: OpenccConfig, punct: bool) -> Seq<Seq<DictSlot>> {
    match c {
        OpenccConfig::S2t => seq![st_round(punct)],
        OpenccConfig::T2s => seq![ts_round(punct)],
        OpenccConfig::S2tw => seq![st_round(punct), seq![DictSlot::TWVariantsPhrases, DictSlot::TWVariants]],
        OpenccConfig::Tw2s => seq![seq![DictSlot::TWVariantsRevPhrases, DictSlot::TWVariantsRev], ts_round(punct)],
        OpenccConfig::S2twp => seq![st_round(punct), seq![DictSlot::TWPhrases, DictSlot::TWVariantsPhrases, DictSlot::TWVariants]],
        OpenccConfig::Tw2sp => seq![seq![DictSlot::TWPhrasesRev, DictSlot::TWVariantsRevPhrases, DictSlot::TWVariantsRev], ts_round(punct)],
        OpenccConfig::S2hk => seq![st_round(punct), seq![DictSlot::HKVariantsPhrases, DictSlot::HKVariants]],
        OpenccConfig::Hk2s => seq![seq![DictSlot::HKVariantsRevPhrases, DictSlot::HKVariantsRev], ts_round(punct)],
        OpenccConfig::S2hkp => seq![st_round(punct), seq![DictSlot::HKPhrases, DictSlot::HKVariantsPhrases, DictSlot::HKVariants]],
        OpenccConfig::Hk2sp => seq![seq![DictSlot::HKPhrasesRev, DictSlot::HKVariantsRevPhrases, DictSlot::HKVariantsRev], ts_round(punct)],
        OpenccConfig::T2tw => seq![seq![DictSlot::TWVariantsPhrases, DictSlot::TWVariants]],
        OpenccConfig::T2twp => seq![seq![DictSlot::TWPhrases, DictSlot::TWVariantsPhrases, DictSlot::TWVariants]],
        OpenccConfig::Tw2t => seq![seq![DictSlot::TWVariantsRevPhrases, DictSlot::TWVariantsRev]],
        OpenccConfig::Tw2tp => seq![seq![DictSlot::TWPhrasesRev, DictSlot::TWVariantsRevPhrases, DictSlot::TWVariantsRev]],
        OpenccConfig::T2hk => seq![seq![DictSlot::HKVariantsPhrases, DictSlot::HKVariants]],
        OpenccConfig::T2hkp => seq![seq![DictSlot::HKPhrases, DictSlot::HKVariantsPhrases, DictSlot::HKVariants]],
        OpenccConfig::Hk2t => seq![seq![DictSlot::HKVariantsRevPhrases, DictSlot::HKVariantsRev]],
        OpenccConfig::Hk2tp => seq![seq![DictSlot::HKPhrasesRev, DictSlot::HKVariantsRevPhrases, DictSlot::HKVariantsRev]],
        OpenccConfig::T2jp => seq![seq![DictSlot::JPSCharactersRev]],
        OpenccConfig::Jp2t => seq![seq![DictSlot::JPSPhrases, DictSlot::JPSCharacters]],
    }
}

/// The phrase maps of a round's slots.
pub open spec fn round_maps(d: SlotMaps, slots: Seq<DictSlot>) -> Round {
    slots.map_values(|s: DictSlot| d[s.index()])
}

/// The text after running the rounds in order.
pub open spec fn run_rounds(d: SlotMaps, rounds: Seq<Seq<DictSlot>>, ids: bool, s: Seq<char>) -> Seq<char>
    decreases rounds.len(),
{
    if rounds.len() == 0 {
        s
    } else {
        segment_replace(round_maps(d, rounds.last()), ids, run_rounds(d, rounds.drop_last(), ids, s))
    }
}

/// The conversion of `s` under a configuration.
pub open spec fn convert_spec(d: SlotMaps, c: OpenccConfig, punct: bool, ids: bool, s: Seq<char>) -> Seq<char> {
    run_rounds(d, config_rounds(c, punct), ids, s)
}

/// A run of rounds leaves a single complete IDS unchanged when IDS are kept.
proof fn lemma_rounds_keep_ids(d: SlotMaps, rounds: Seq<Seq<DictSlot>>, s: Seq<char>)
    requires
        ids_end(s, 0) == Some(s.len() as int),
    ensures
        run_rounds(d, rounds, true, s) == s,
    decreases rounds.len(),
{
    if rounds.len() > 0 {
        lemma_rounds_keep_ids(d, rounds.drop_last(), s);
        law_complete_ids_kept(round_maps(d, rounds.last()), s);
    }
}

/// With IDS preservation on, a text that is exactly one complete IDS comes
/// out of every configuration unchanged.
pub proof fn law_ids_text_unchanged(d: SlotMaps, c: OpenccConfig, punct: bool, s: Seq<char>)
    requires
        ids_end(s, 0) == Some(s.len() as int),
    ensures
        convert_spec(d, c, punct, true, s) == s,
{
    lemma_rounds_keep_ids(d, config_rounds(c, punct), s);
}

/// Slot maps none of whose replacements holds an IDS operator.
pub open spec fn maps_without_ops(d: SlotMaps) -> bool {
    forall|t: DictSlot, k: Seq<char>|
        #[trigger] d[t.index()].dom().contains(k) ==> no_ids_ops(d[t.index()][k])
}

proof fn lemma_rounds_ids_flag(d: SlotMaps, rounds: Seq<Seq<DictSlot>>, s: Seq<char>)
    requires
        no_ids_ops(s),
        maps_without_ops(d),
    ensures
        run_rounds(d, rounds, true, s) == run_rounds(d, rounds, false, s),
        no_ids_ops(run_rounds(d, rounds, false, s)),
    decreases rounds.len(),
{
    if rounds.len() > 0 {
        lemma_rounds_ids_flag(d, rounds.drop_last(), s);
        let r = rounds.last();
        let rm = round_maps(d, r);
        assert(values_without_ops(rm)) by {
            assert forall|i: int, k: Seq<char>|
                0 <= i < rm.len() && #[trigger] rm[i].dom().contains(k) implies no_ids_ops(rm[i][k]) by {
                assert(rm[i] == d[r[i].index()]);
                assert(d[r[i].index()].dom().contains(k));
            }
        }
        law_ids_flag_without_operators(rm, run_rounds(d, rounds.drop_last(), false, s));
    }
}

/// Turning IDS preservation on changes no conversion of a text without IDS
/// operators: for every dictionary under a single-round configuration, and
/// under any configuration when no dictionary replacement holds an operator
/// (a later round could otherwise keep an IDS that an earlier round wrote).
pub proof fn law_ids_switch_without_operators(d: SlotMaps, c: OpenccConfig, punct: bool, s: Seq<char>)
    requires
        no_ids_ops(s),
        config_rounds(c, punct).len() == 1 || maps_without_ops(d),
    ensures
        convert_spec(d, c, punct, true, s) == convert_spec(d, c, punct, false, s),
{
    let rs = config_rounds(c, punct);
    if maps_without_ops(d) {
        lemma_rounds_ids_flag(d, rs, s);
    } else {
        assert(rs.drop_last() =~= Seq::<Seq<DictSlot>>::empty());
        law_ids_flag_without_operators(round_maps(d, rs.last()), s);
        assert(run_rounds(d, rs.drop_last(), true, s) == s);
        assert(run_rounds(d, rs.drop_last(), false, s) == s);
        assert(run_rounds(d, rs, true, s) == segment_replace(round_maps(d, rs.last()), true, s));
        assert(run_rounds(d, rs, false, s) == segment_replace(round_maps(d, rs.last()), false, s));
    }
}

/// Whether no round of `rounds` uses a punctuation slot.
pub open spec fn rounds_without_punct(rounds: Seq<Seq<DictSlot>>) -> bool {
    forall|i: int, j: int|
        0 <= i < rounds.len() && 0 <= j < rounds[i].len() ==> #[trigger] rounds[i][j]
            != DictSlot::STPunctuations && rounds[i][j] != DictSlot::TSPunctuations
}

/// Two slot-map sets that agree on every slot but the punctuation ones.
pub open spec fn agree_but_punct(d1: SlotMaps, d2: SlotMaps) -> bool {
    forall|t: DictSlot|
        t != DictSlot::STPunctuations && t != DictSlot::TSPunctuations ==> d1[#[trigger] t.index()]
            == d2[t.index()]
}

proof fn lemma_rounds_ignore_punct(d1: SlotMaps, d2: SlotMaps, rounds: Seq<Seq<DictSlot>>, ids: bool, s: Seq<char>)
    requires
        agree_but_punct(d1, d2),
        rounds_without_punct(rounds),
    ensures
        run_rounds(d1, rounds, ids, s) == run_rounds(d2, rounds, ids, s),
    decreases rounds.len(),
{
    if rounds.len() > 0 {
        let r = rounds.last();
        assert(rounds_without_punct(rounds.drop_last())) by {
            assert forall|i: int, j: int|
                0 <= i < rounds.drop_last().len() && 0 <= j < rounds.drop_last()[i].len() implies #[trigger] rounds.drop_last()[i][j]
                    != DictSlot::STPunctuations && rounds.drop_last()[i][j] != DictSlot::TSPunctuations by {
                assert(rounds.drop_last()[i] == rounds[i]);
                assert(rounds[i][j] != DictSlot::STPunctuations);
            }
        }
        lemma_rounds_ignore_punct(d1, d2, rounds.drop_last(), ids, s);
        assert(round_maps(d1, r) =~= round_maps(d2, r)) by {
            assert forall|j: int| 0 <= j < r.len() implies #[trigger] round_maps(d1, r)[j] == round_maps(d2, r)[j] by {
                assert(rounds[rounds.len() - 1][j] == r[j]);
                assert(r[j] != DictSlot::STPunctuations && r[j] != DictSlot::TSPunctuations);
                assert(d1[r[j].index()] == d2[r[j].index()]);
            }
        }
    }
}

/// Without punctuation conversion, no configuration reads the punctuation
/// dictionaries: changing only them never changes a conversion.
pub proof fn law_no_punctuation_ignores_punct_slots(
    d1: SlotMaps,
    d2: SlotMaps,
    c: OpenccConfig,
    ids: bool,
    s: Seq<char>,
)
    requires
        agree_but_punct(d1, d2),
    ensures
        convert_spec(d1, c, false, ids, s) == convert_spec(d2, c, false, ids, s),
{
    let rs = config_rounds(c, false);
    assert(rounds_without_punct(rs)) by {
        assert forall|i: int, j: int|
            0 <= i < rs.len() && 0 <= j < rs[i].len() implies #[trigger] rs[i][j] != DictSlot::STPunctuations
                && rs[i][j] != DictSlot::TSPunctuations by {
            match c {
                OpenccConfig::S2t => {},
                OpenccConfig::T2s => {},
                OpenccConfig::S2tw => {},
                OpenccConfig::Tw2s => {},
                OpenccConfig::S2twp => {},
                OpenccConfig::Tw2sp => {},
                OpenccConfig::S2hk => {},
                OpenccConfig::Hk2s => {},
                OpenccConfig::S2hkp => {},
                OpenccConfig::Hk2sp => {},
                OpenccConfig::T2tw => {},
                OpenccConfig::T2twp => {},
                OpenccConfig::Tw2t => {},
                OpenccConfig::Tw2tp => {},
                OpenccConfig::T2hk => {},
                OpenccConfig::T2hkp => {},
                OpenccConfig::Hk2t => {},
                OpenccConfig::Hk2tp => {},
                OpenccConfig::T2jp => {},
                OpenccConfig::Jp2t => {},
            }
        }
    }
    lemma_rounds_ignore_punct(d1, d2, rs, ids, s);
}

/// The configurations with no Simplified / Traditional round.
pub open spec fn ignores_punct(c: OpenccConfig) -> bool {
    match c {
        OpenccConfig::T2tw | OpenccConfig::T2twp | OpenccConfig::T2hk | OpenccConfig::T2hkp
        | OpenccConfig::Tw2t | OpenccConfig::Tw2tp | OpenccConfig::Hk2t | OpenccConfig::Hk2tp
        | OpenccConfig::Jp2t | OpenccConfig::T2jp => true,
        _ => false,
    }
}

/// Configurations with no Simplified / Traditional round ignore the
/// punctuation flag.
pub proof fn law_punctuation_flag_ignored(d: SlotMaps, c: OpenccConfig, ids: bool, s: Seq<char>)
    requires
        ignores_punct(c),
    ensures
        convert_spec(d, c, true, ids, s) == convert_spec(d, c, false, ids, s),
{
}

/// One maximum-matching pass over `s` with the dictionaries of `slots`, in
/// that precedence order.
pub open spec fn pass(d: SlotMaps, slots: Seq<DictSlot>, ids: bool, s: Seq<char>) -> Seq<char> {
    segment_replace(round_maps(d, slots), ids, s)
}

/// The Simplified-to-Traditional dictionaries: phrases, then characters, then
/// (with punctuation) the punctuation table.
pub open spec fn s2t_slots(punct: bool) -> Seq<DictSlot> {
    if punct {
        seq![DictSlot::STPhrases, DictSlot::STCharacters, DictSlot::STPunctuations]
    } else {
        seq![DictSlot::STPhrases, DictSlot::STCharacters]
    }
}

/// The Traditional-to-Simplified dictionaries: phrases, then characters, then
/// (with punctuation) the punctuation table.
pub open spec fn t2s_slots(punct: bool) -> Seq<DictSlot> {
    if punct {
        seq![DictSlot::TSPhrases, DictSlot::TSCharacters, DictSlot::TSPunctuations]
    } else {
        seq![DictSlot::TSPhrases, DictSlot::TSCharacters]
    }
}

proof fn lemma_one_round(d: SlotMaps, r: Seq<DictSlot>, ids: bool, s: Seq<char>)
    ensures
        run_rounds(d, seq![r], ids, s) == pass(d, r, ids, s),
{
    assert(seq![r].drop_last() =~= Seq::<Seq<DictSlot>>::empty());
    assert(seq![r].last() == r);
    assert(run_rounds(d, seq![r].drop_last(), ids, s) == s);
}

proof fn lemma_two_rounds(d: SlotMaps, a: Seq<DictSlot>, b: Seq<DictSlot>, ids: bool, s: Seq<char>)
    ensures
        run_rounds(d, seq![a, b], ids, s) == pass(d, b, ids, pass(d, a, ids, s)),
{
    assert(seq![a, b].drop_last() =~= seq![a]);
    assert(seq![a, b].last() == b);
    lemma_one_round(d, a, ids, s);
}

/// What each configuration does, pass by pass:
/// - s2t is the Simplified-to-Traditional pass; s2tw, s2twp, s2hk and s2hkp
///   follow it with a pass over the Taiwan or Hong Kong variant (and phrase)
///   dictionaries;
/// - t2s is the Traditional-to-Simplified pass; tw2s, tw2sp, hk2s and hk2sp
///   first run a pass over the Taiwan or Hong Kong reverse dictionaries;
/// - t2tw, t2twp, t2hk, t2hkp, tw2t, tw2tp, hk2t and hk2tp are one pass over
///   the regional variant (and phrase) dictionaries, without punctuation;
/// - t2jp is one pass over the Kyujitai-to-Shinjitai characters, and jp2t one
///   pass over the Shinjitai phrases and characters.
pub proof fn law_config_passes(d: SlotMaps, c: OpenccConfig, punct: bool, ids: bool, s: Seq<char>)
    ensures
        convert_spec(d, c, punct, ids, s) == match c {
            OpenccConfig::S2t => pass(d, s2t_slots(punct), ids, s),
            OpenccConfig::S2tw => pass(d, seq![DictSlot::TWVariantsPhrases, DictSlot::TWVariants], ids, pass(d, s2t_slots(punct), ids, s)),
            OpenccConfig::S2twp => pass(d, seq![DictSlot::TWPhrases, DictSlot::TWVariantsPhrases, DictSlot::TWVariants], ids, pass(d, s2t_slots(punct), ids, s)),
            OpenccConfig::S2hk => pass(d, seq![DictSlot::HKVariantsPhrases, DictSlot::HKVariants], ids, pass(d, s2t_slots(punct), ids, s)),
            OpenccConfig::S2hkp => pass(d, seq![DictSlot::HKPhrases, DictSlot::HKVariantsPhrases, DictSlot::HKVariants], ids, pass(d, s2t_slots(punct), ids, s)),
            OpenccConfig::T2s => pass(d, t2s_slots(punct), ids, s),
            OpenccConfig::Tw2s => pass(d, t2s_slots(punct), ids, pass(d, seq![DictSlot::TWVariantsRevPhrases, DictSlot::TWVariantsRev], ids, s)),
            OpenccConfig::Tw2sp => pass(d, t2s_slots(punct), ids, pass(d, seq![DictSlot::TWPhrasesRev, DictSlot::TWVariantsRevPhrases, DictSlot::TWVariantsRev], ids, s)),
            OpenccConfig::Hk2s => pass(d, t2s_slots(punct), ids, pass(d, seq![DictSlot::HKVariantsRevPhrases, DictSlot::HKVariantsRev], ids, s)),
            OpenccConfig::Hk2sp => pass(d, t2s_slots(punct), ids, pass(d, seq![DictSlot::HKPhrasesRev, DictSlot::HKVariantsRevPhrases, DictSlot::HKVariantsRev], ids, s)),
            OpenccConfig::T2tw => pass(d, seq![DictSlot::TWVariantsPhrases, DictSlot::TWVariants], ids, s),
            OpenccConfig::T2twp => pass(d, seq![DictSlot::TWPhrases, DictSlot::TWVariantsPhrases, DictSlot::TWVariants], ids, s),
            OpenccConfig::Tw2t => pass(d, seq![DictSlot::TWVariantsRevPhrases, DictSlot::TWVariantsRev], ids, s),
            OpenccConfig::Tw2tp => pass(d, seq![DictSlot::TWPhrasesRev, DictSlot::TWVariantsRevPhrases, DictSlot::TWVariantsRev], ids, s),
            OpenccConfig::T2hk => pass(d, seq![DictSlot::HKVariantsPhrases, DictSlot::HKVariants], ids, s),
            OpenccConfig::T2hkp => pass(d, seq![DictSlot::HKPhrases, DictSlot::HKVariantsPhrases, DictSlot::HKVariants], ids, s),
            OpenccConfig::Hk2t => pass(d, seq![DictSlot::HKVariantsRevPhrases, DictSlot::HKVariantsRev], ids, s),
            OpenccConfig::Hk2tp => pass(d, seq![DictSlot::HKPhrasesRev, DictSlot::HKVariantsRevPhrases, DictSlot::HKVariantsRev], ids, s),
            OpenccConfig::T2jp => pass(d, seq![DictSlot::JPSCharactersRev], ids, s),
            OpenccConfig::Jp2t => pass(d, seq![DictSlot::JPSPhrases, DictSlot::JPSCharacters], ids, s),
        },
{
    let rs = config_rounds(c, punct);
    assert(st_round(punct) == s2t_slots(punct));
    assert(ts_round(punct) == t2s_slots(punct));
    if rs.len() == 1 {
        lemma_one_round(d, rs[0], ids, s);
        assert(rs == seq![rs[0]]);
    } else {
        lemma_two_rounds(d, rs[0], rs[1], ids, s);
        assert(rs == seq![rs[0], rs[1]]);
    }
}

/// A text that the Simplified-to-Traditional pass turns into a Taiwan
/// variant key (with no delimiter or IDS operator, and no variant phrase
/// for it) comes out of s2tw as that key's variant.
pub proof fn law_s2tw_applies_variants(d: SlotMaps, punct: bool, ids: bool, s: Seq<char>)
    requires
        d.len() == 21,
        pass(d, s2t_slots(punct), ids, s).len() > 0,
        forall|i: int| 0 <= i < pass(d, s2t_slots(punct), ids, s).len() ==> !is_delimiter(#[trigger] pass(d, s2t_slots(punct), ids, s)[i]),
        forall|i: int| 0 <= i < pass(d, s2t_slots(punct), ids, s).len() ==> (#[trigger] ids_arity(pass(d, s2t_slots(punct), ids, s)[i])) is None,
        !d[DictSlot::TWVariantsPhrases.index()].dom().contains(pass(d, s2t_slots(punct), ids, s)),
        d[DictSlot::TWVariants.index()].dom().contains(pass(d, s2t_slots(punct), ids, s)),
    ensures
        convert_spec(d, OpenccConfig::S2tw, punct, ids, s) == d[DictSlot::TWVariants.index()][pass(d, s2t_slots(punct), ids, s)],
{
    let t = pass(d, s2t_slots(punct), ids, s);
    law_config_passes(d, OpenccConfig::S2tw, punct, ids, s);
    let r = round_maps(d, seq![DictSlot::TWVariantsPhrases, DictSlot::TWVariants]);
    assert(r[0] == d[DictSlot::TWVariantsPhrases.index()]);
    assert(r[1] == d[DictSlot::TWVariants.index()]);
    assert(r.drop_first()[0] == r[1]);
    assert(r.drop_first().len() == 1);
    assert(round_lookup(r.drop_first(), t) == Some(d[DictSlot::TWVariants.index()][t]));
    assert(round_lookup(r, t) == Some(d[DictSlot::TWVariants.index()][t]));
    law_whole_phrase_replaced(r, ids, t, d[DictSlot::TWVariants.index()][t]);
}

/// Under t2hk a single character that the Hong Kong variants hold, and that
/// no Hong Kong variant phrase covers, converts to its variant.
pub proof fn law_t2hk_applies_variants(d: SlotMaps, punct: bool, ids: bool, c: char)
    requires
        d.len() == 21,
        !is_delimiter(c),
        ids_arity(c) is None,
        !d[DictSlot::HKVariantsPhrases.index()].dom().contains(seq![c]),
        d[DictSlot::HKVariants.index()].dom().contains(seq![c]),
    ensures
        convert_spec(d, OpenccConfig::T2hk, punct, ids, seq![c]) == d[DictSlot::HKVariants.index()][seq![c]],
{
    law_config_passes(d, OpenccConfig::T2hk, punct, ids, seq![c]);
    let r = round_maps(d, seq![DictSlot::HKVariantsPhrases, DictSlot::HKVariants]);
    assert(r[0] == d[DictSlot::HKVariantsPhrases.index()]);
    assert(r[1] == d[DictSlot::HKVariants.index()]);
    assert(r.drop_first()[0] == r[1]);
    assert(r.drop_first().len() == 1);
    assert(round_lookup(r.drop_first(), seq![c]) == Some(d[DictSlot::HKVariants.index()][seq![c]]));
    assert(round_lookup(r, seq![c]) == Some(d[DictSlot::HKVariants.index()][seq![c]]));
    law_whole_phrase_replaced(r, ids, seq![c], d[DictSlot::HKVariants.index()][seq![c]]);
}

/// What a custom phrase writes, a conversion reads back: after a
/// specification for `STPhrases` (either mode), a text that is exactly the
/// key of its last pair for that key (with no delimiter and no IDS operator)
/// converts under `s2t` to that pair's replacement.
pub proof fn law_custom_phrase_converts(d: SlotMaps, spec: CustomDictSpec, j: int, punct: bool, ids: bool)
    requires
        d.len() == 21,
        spec.slot == DictSlot::STPhrases,
        0 <= j < spec.pairs@.len(),
        forall|i: int| j < i < spec.pairs@.len() ==> #[trigger] spec.pairs@[i].0@ != spec.pairs@[j].0@,
        spec.pairs@[j].0@.len() > 0,
        forall|i: int| 0 <= i < spec.pairs@[j].0@.len() ==> !is_delimiter(#[trigger] spec.pairs@[j].0@[i]),
        forall|i: int| 0 <= i < spec.pairs@[j].0@.len() ==> (#[trigger] ids_arity(spec.pairs@[j].0@[i])) is None,
    ensures
        convert_spec(apply_spec(d, spec), OpenccConfig::S2t, punct, ids, spec.pairs@[j].0@) == spec.pairs@[j].1@,
{
    let k = spec.pairs@[j].0@;
    let v = spec.pairs@[j].1@;
    let pv = pairs_view(spec.pairs@);
    let base = match spec.mode {
        CustomDictMode::Append => d[1],
        CustomDictMode::Override => Map::<Seq<char>, Seq<char>>::empty(),
    };
    law_insert_all_last_wins(base, pv, k);
    assert(pv[j] == (k, v));
    assert(pv[j].0 == k);
    assert(exists|i: int| 0 <= i < pv.len() && #[trigger] pv[i].0 == k);
    assert forall|i: int| j < i < pv.len() implies #[trigger] pv[i].0 != k by {
        assert(pv[i].0 == spec.pairs@[i].0@);
    }
    let d2 = apply_spec(d, spec);
    assert(d2[1] == insert_all(base, pv));
    assert(d2[1].dom().contains(k));
    assert(d2[1][k] == v);
    let r = st_round(punct);
    let round = round_maps(d2, r);
    assert(round[0] == d2[1]);
    assert(round_lookup(round, k) == Some(v));
    law_whole_phrase_replaced(round, ids, k, v);
    let rs = config_rounds(OpenccConfig::S2t, punct);
    assert(rs.drop_last() =~= Seq::<Seq<DictSlot>>::empty());
    assert(rs.last() == r);
    assert(run_rounds(d2, rs.drop_last(), ids, k) == k);
    assert(run_rounds(d2, rs, ids, k) == segment_replace(round, ids, k));
}

/// The text that a conversion with an unknown configuration name gives.
pub open spec fn invalid_config_message(name: Seq<char>) -> Seq<char> {
    "Invalid config: "@ + name
}

/// The conversion engine.
pub struct OpenCC {
    dictionary: DictionaryMaxlength,
    is_parallel: bool,
    preserve_ids: bool,
    tofu: TofuTable,
    compat: CharTable,
    unicode_compat: CharTable,
}

impl OpenCC {
    /// The dictionaries, one map per slot.
    pub closed spec fn dict(&self) -> SlotMaps {
        self.dictionary@
    }

    /// Whether complete IDS expressions are kept as they are.
    pub closed spec fn keeps_ids(&self) -> bool {
        self.preserve_ids
    }

    /// Whether segments may be converted in parallel.
    pub closed spec fn parallel(&self) -> bool {
        self.is_parallel
    }

    /// The DeToFu fallback table.
    pub closed spec fn tofu_table(&self) -> Map<char, (char, DetofuLevel)> {
        self.tofu@
    }

    /// The CJK Compatibility Ideograph table.
    pub closed spec fn compat_table(&self) -> Map<char, char> {
        self.compat@
    }

    /// The extended Unicode compatibility table.
    pub closed spec fn unicode_table(&self) -> Map<char, char> {
        self.unicode_compat@
    }

    /// The engine's dictionaries are well formed.
    pub closed spec fn wf(&self) -> bool {
        self.dictionary.wf()
    }

    /// An engine over the given dictionaries and the bundled character
    /// tables, with parallel conversion on and IDS preservation off.
    pub fn from_dictionary(dictionary: DictionaryMaxlength) -> (r: OpenCC)
        requires
            dictionary.wf(),
        ensures
            r.wf(),
            r.dict() == dictionary@,
            r.tofu_table() == bundled_tofu(),
            r.compat_table() == bundled_compat(),
            r.unicode_table() == bundled_unicode(),
            r.parallel(),
            !r.keeps_ids(),
    {
        OpenCC::from_parts(dictionary, bundled_tofu_table(), bundled_compat_table(), bundled_unicode_table())
    }

    /// An engine over the given dictionaries and character tables, with
    /// parallel conversion on and IDS preservation off.
    pub fn from_parts(
        dictionary: DictionaryMaxlength,
        tofu: TofuTable,
        compat: CharTable,
        unicode_compat: CharTable,
    ) -> (r: OpenCC)
        requires
            dictionary.wf(),
        ensures
            r.wf(),
            r.dict() == dictionary@,
            r.tofu_table() == tofu@,
            r.compat_table() == compat@,
            r.unicode_table() == unicode_compat@,
            r.parallel(),
            !r.keeps_ids(),
    {
        OpenCC { dictionary, is_parallel: true, preserve_ids: false, tofu, compat, unicode_compat }
    }

    /// An engine over the data bundled with the crate: the bundled
    /// dictionaries, DeToFu table and compatibility tables.
    pub fn new_embedded() -> (r: OpenCC)
        ensures
            r.wf(),
            r.dict() == bundled_maps(),
            r.tofu_table() == bundled_tofu(),
            r.compat_table() == bundled_compat(),
            r.unicode_table() == bundled_unicode(),
            r.parallel(),
            !r.keeps_ids(),
    {
        OpenCC::from_dictionary(DictionaryMaxlength::from_embedded())
    }

    /// Whether parallel segment conversion is enabled.
    pub fn get_parallel(&self) -> (r: bool)
        ensures
            r == self.parallel(),
    {
        self.is_parallel
    }

    /// Enables or disables parallel segment conversion; the output of a
    /// conversion does not depend on it.
    pub fn set_parallel(&mut self, is_parallel: bool)
        ensures
            final(self).parallel() == is_parallel,
            final(self).keeps_ids() == old(self).keeps_ids(),
            final(self).dict() == old(self).dict(),
            final(self).tofu_table() == old(self).tofu_table(),
            final(self).compat_table() == old(self).compat_table(),
            final(self).unicode_table() == old(self).unicode_table(),
            final(self).wf() == old(self).wf(),
    {
        self.is_parallel = is_parallel;
    }

    /// Whether complete IDS expressions are kept unconverted.
    pub fn get_preserve_ids(&self) -> (r: bool)
        ensures
            r == self.keeps_ids(),
    {
        self.preserve_ids
    }

    /// Enables or disables keeping complete IDS expressions unconverted.
    pub fn set_preserve_ids(&mut self, value: bool)
        ensures
            final(self).keeps_ids() == value,
            final(self).parallel() == old(self).parallel(),
            final(self).dict() == old(self).dict(),
            final(self).tofu_table() == old(self).tofu_table(),
            final(self).compat_table() == old(self).compat_table(),
            final(self).unicode_table() == old(self).unicode_table(),
            final(self).wf() == old(self).wf(),
    {
        self.preserve_ids = value;
    }

    /// Runs one round over `text`.
    fn apply_round(&self, slots: &Vec<DictSlot>, text: &[char]) -> (r: Vec<char>)
        requires
            self.wf(),
        ensures
            r@ == segment_replace(round_maps(self.dict(), slots@), self.keeps_ids(), text@),
    {
        let mut round: Vec<&Lexicon> = Vec::new();
        let mut cap: usize = 0;
        let mut i: usize = 0;
        while i < slots.len()
            invariant
                self.wf(),
                i <= slots@.len(),
                round@.len() == i,
                round_wf(round@, cap as nat),
                round_view(round@) =~= round_maps(self.dict(), slots@.subrange(0, i as int)),
            decreases slots.len() - i,
        {
            let lex = self.dictionary.lexicon(slots[i]);
            let m = lex.max_len();
            if cap < m {
                cap = m;
            }
            let ghost old_round = round@;
            round.push(lex);
            proof {
                let target = round_maps(self.dict(), slots@.subrange(0, (i + 1) as int));
                let prev = round_maps(self.dict(), slots@.subrange(0, i as int));
                assert forall|j: int| 0 <= j <= i implies #[trigger] round_view(round@)[j] == target[j] by {
                    if j < i {
                        assert(round@[j] == old_round[j]);
                        assert(round_view(old_round)[j] == prev[j]);
                    }
                }
                assert forall|j: int| 0 <= j < round@.len() implies (#[trigger] round@[j]).wf()
                    && round@[j].max_key_len() <= cap by {}
                assert(round_view(round@) =~= round_maps(self.dict(), slots@.subrange(0, (i + 1) as int)));
            }
            i = i + 1;
        }
        proof {
            assert(slots@.subrange(0, slots@.len() as int) =~= slots@);
        }
        segment_replace_exec(round.as_slice(), cap, self.preserve_ids, text)
    }

    /// Runs the rounds in order over `text`.
    fn apply_rounds(&self, rounds: &Vec<Vec<DictSlot>>, text: Vec<char>) -> (r: Vec<char>)
        requires
            self.wf(),
        ensures
            r@ == run_rounds(self.dict(), rounds@.map_values(|v: Vec<DictSlot>| v@), self.keeps_ids(), text@),
    {
        let ghost rv = rounds@.map_values(|v: Vec<DictSlot>| v@);
        let mut cur = text;
        let mut k: usize = 0;
        while k < rounds.len()
            invariant
                self.wf(),
                k <= rounds@.len(),
                rv == rounds@.map_values(|v: Vec<DictSlot>| v@),
                cur@ == run_rounds(self.dict(), rv.subrange(0, k as int), self.keeps_ids(), text@),
            decreases rounds.len() - k,
        {
            let next = self.apply_round(&rounds[k], cur.as_slice());
            proof {
                let sub = rv.subrange(0, (k + 1) as int);
                assert(sub.drop_last() =~= rv.subrange(0, k as int));
                assert(sub.last() == rounds@[k as int]@);
            }
            cur = next;
            k = k + 1;
        }
        proof {
            assert(rv.subrange(0, rounds@.len() as int) =~= rv);
        }
        cur
    }

    /// Converts `input` with a configuration.
    pub fn convert_with_config(&self, input: &str, config: OpenccConfig, punctuation: bool) -> (r: String)
        requires
            self.wf(),
        ensures
            r@ == convert_spec(self.dict(), config, punctuation, self.keeps_ids(), input@),
    {
        let rounds = rounds_of(config, punctuation);
        let chars = chars_of(input);
        let out = self.apply_rounds(&rounds, chars);
        string_from_chars(out.as_slice())
    }

    /// Whether `input` reads as Traditional (1) or Simplified (2) Chinese,
    /// or neither (0), judged on a bounded sample of it.
    pub fn zho_check(&self, input: &str) -> (r: i32)
        requires
            self.wf(),
        ensures
            r == zho_result(
                self.dict()[DictSlot::TSCharacters.index()],
                self.dict()[DictSlot::STCharacters.index()],
                input@,
            ),
    {
        let chars = chars_of(input);
        if chars.len() == 0 {
            return 0;
        }
        let head = utf8_prefix_exec(chars.as_slice(), 1000);
        let stripped = strip_noise_exec(head.as_slice());
        let sample = utf8_prefix_exec(stripped.as_slice(), 200);
        let ts = char_convert_exec(self.dictionary.lexicon(DictSlot::TSCharacters), sample.as_slice());
        if !slice_eq(sample.as_slice(), ts.as_slice()) {
            return 1;
        }
        let st = char_convert_exec(self.dictionary.lexicon(DictSlot::STCharacters), sample.as_slice());
        if !slice_eq(sample.as_slice(), st.as_slice()) {
            return 2;
        }
        0
    }

    /// Appends `text` after DeToFu at `level` to `output`.
    pub fn detofu_into(&self, text: &str, level: DetofuLevel, output: &mut String)
        ensures
            final(output)@ == old(output)@ + detofu_chars(self.tofu_table(), level, text@),
    {
        let chars = chars_of(text);
        let ghost start = output@;
        let mut i: usize = 0;
        while i < chars.len()
            invariant
                i <= chars@.len(),
                chars@ == text@,
                output@ == start + detofu_chars(self.tofu_table(), level, chars@.subrange(0, i as int)),
            decreases chars.len() - i,
        {
            let c = self.tofu.detofu_char(level, chars[i]);
            push_char(output, c);
            proof {
                assert(detofu_chars(self.tofu_table(), level, chars@.subrange(0, (i + 1) as int))
                    =~= detofu_chars(self.tofu_table(), level, chars@.subrange(0, i as int)).push(c));
            }
            i = i + 1;
        }
        assert(chars@.subrange(0, chars@.len() as int) =~= chars@);
    }

    /// `text` after DeToFu at `level`: rare CJK extension characters of a
    /// block beyond `level` that have a fallback are replaced.
    pub fn detofu(&self, text: &str, level: DetofuLevel) -> (r: String)
        ensures
            r@ == detofu_chars(self.tofu_table(), level, text@),
    {
        let mut out = String::new();
        self.detofu_into(text, level, &mut out);
        out
    }

    /// `text` with CJK Compatibility Ideographs replaced by their unified
    /// forms; other characters are kept.
    pub fn normalize_compat(&self, text: &str) -> (r: String)
        ensures
            r@ == normalize_chars(NormalizeMode::Compat, self.compat_table(), self.unicode_table(), text@),
    {
        self.normalize_text(NormalizeMode::Compat, text)
    }

    /// `text` after the extended Unicode compatibility table alone.
    pub fn normalize_unicode_compat(&self, text: &str) -> (r: String)
        ensures
            r@ == normalize_chars(NormalizeMode::Extended, self.compat_table(), self.unicode_table(), text@),
    {
        self.normalize_text(NormalizeMode::Extended, text)
    }

    /// `text` after complete compatibility normalization: for each
    /// character the ideograph table takes precedence, and the extended table
    /// is consulted only when it leaves the character unchanged.
    pub fn normalize_compat_extended(&self, text: &str) -> (r: String)
        ensures
            r@ == normalize_chars(NormalizeMode::Full, self.compat_table(), self.unicode_table(), text@),
    {
        self.normalize_text(NormalizeMode::Full, text)
    }

    /// Every character of `text` through the pass `mode`.
    fn normalize_text(&self, mode: NormalizeMode, text: &str) -> (r: String)
        ensures
            r@ == normalize_chars(mode, self.compat_table(), self.unicode_table(), text@),
    {
        let chars = chars_of(text);
        let mut out = String::new();
        let mut i: usize = 0;
        while i < chars.len()
            invariant
                i <= chars@.len(),
                chars@ == text@,
                out@ == normalize_chars(mode, self.compat_table(), self.unicode_table(), chars@.subrange(0, i as int)),
            decreases chars.len() - i,
        {
            let c = normalize_char_exec(&mode, &self.compat, &self.unicode_compat, chars[i]);
            push_char(&mut out, c);
            proof {
                assert(normalize_chars(mode, self.compat_table(), self.unicode_table(), chars@.subrange(0, (i + 1) as int))
                    =~= normalize_chars(mode, self.compat_table(), self.unicode_table(), chars@.subrange(0, i as int)).push(c));
            }
            i = i + 1;
        }
        assert(chars@.subrange(0, chars@.len() as int) =~= chars@);
        out
    }

    /// Converts `input` with the configuration named `config`; an unknown
    /// name gives the text `"Invalid config: "` followed by the name.
    pub fn convert(&self, input: &str, config: &str, punctuation: bool) -> (r: String)
        requires
            self.wf(),
        ensures
            match OpenccConfig::of_name(config@) {
                Some(c) => r@ == convert_spec(self.dict(), c, punctuation, self.keeps_ids(), input@),
                None => r@ == invalid_config_message(config@),
            },
    {
        match OpenccConfig::parse(config) {
            Some(c) => self.convert_with_config(input, c, punctuation),
            None => concat_str("Invalid config: ", config),
        }
    }
}

/// The Simplified-to-Traditional first round.
fn st_round_exec(punct: bool) -> (r: Vec<DictSlot>)
    ensures
        r@ == st_round(punct),
{
    let mut v: Vec<DictSlot> = Vec::new();
    v.push(DictSlot::STPhrases);
    v.push(DictSlot::STCharacters);
    if punct {
        v.push(DictSlot::STPunctuations);
    }
    assert(v@ =~= st_round(punct));
    v
}

/// The Traditional-to-Simplified last round.
fn ts_round_exec(punct: bool) -> (r: Vec<DictSlot>)
    ensures
        r@ == ts_round(punct),
{
    let mut v: Vec<DictSlot> = Vec::new();
    v.push(DictSlot::TSPhrases);
    v.push(DictSlot::TSCharacters);
    if punct {
        v.push(DictSlot::TSPunctuations);
    }
    assert(v@ =~= ts_round(punct));
    v
}

/// A round of two slots.
fn pair_round(a: DictSlot, b: DictSlot) -> (r: Vec<DictSlot>)
    ensures
        r@ == seq![a, b],
{
    let mut v: Vec<DictSlot> = Vec::new();
    v.push(a);
    v.push(b);
    assert(v@ =~= seq![a, b]);
    v
}

/// A round of three slots.
fn triple_round(a: DictSlot, b: DictSlot, c: DictSlot) -> (r: Vec<DictSlot>)
    ensures
        r@ == seq![a, b, c],
{
    let mut v: Vec<DictSlot> = Vec::new();
    v.push(a);
    v.push(b);
    v.push(c);
    assert(v@ =~= seq![a, b, c]);
    v
}

/// A round of one slot.
fn single_round(a: DictSlot) -> (r: Vec<DictSlot>)
    ensures
        r@ == seq![a],
{
    let mut v: Vec<DictSlot> = Vec::new();
    v.push(a);
    assert(v@ =~= seq![a]);
    v
}

/// One round.
fn one(a: Vec<DictSlot>) -> (r: Vec<Vec<DictSlot>>)
    ensures
        r@.map_values(|v: Vec<DictSlot>| v@) == seq![a@],
{
    let mut v: Vec<Vec<DictSlot>> = Vec::new();
    let ghost av = a@;
    v.push(a);
    assert(v@.map_values(|v: Vec<DictSlot>| v@) =~= seq![av]);
    v
}

/// Two rounds.
fn two(a: Vec<DictSlot>, b: Vec<DictSlot>) -> (r: Vec<Vec<DictSlot>>)
    ensures
        r@.map_values(|v: Vec<DictSlot>| v@) == seq![a@, b@],
{
    let mut v: Vec<Vec<DictSlot>> = Vec::new();
    let ghost av = a@;
    let ghost bv = b@;
    v.push(a);
    v.push(b);
    assert(v@.map_values(|v: Vec<DictSlot>| v@) =~= seq![av, bv]);
    v
}

/// The rounds of a configuration.
pub fn rounds_of(c: OpenccConfig, punct: bool) -> (r: Vec<Vec<DictSlot>>)
    ensures
        r@.map_values(|v: Vec<DictSlot>| v@) == config_rounds(c, punct),
{
    match c {
        OpenccConfig::S2t => one(st_round_exec(punct)),
        OpenccConfig::T2s => one(ts_round_exec(punct)),
        OpenccConfig::S2tw => two(st_round_exec(punct), pair_round(DictSlot::TWVariantsPhrases, DictSlot::TWVariants)),
        OpenccConfig::Tw2s => two(pair_round(DictSlot::TWVariantsRevPhrases, DictSlot::TWVariantsRev), ts_round_exec(punct)),
        OpenccConfig::S2twp => two(st_round_exec(punct), triple_round(DictSlot::TWPhrases, DictSlot::TWVariantsPhrases, DictSlot::TWVariants)),
        OpenccConfig::Tw2sp => two(triple_round(DictSlot::TWPhrasesRev, DictSlot::TWVariantsRevPhrases, DictSlot::TWVariantsRev), ts_round_exec(punct)),
        OpenccConfig::S2hk => two(st_round_exec(punct), pair_round(DictSlot::HKVariantsPhrases, DictSlot::HKVariants)),
        OpenccConfig::Hk2s => two(pair_round(DictSlot::HKVariantsRevPhrases, DictSlot::HKVariantsRev), ts_round_exec(punct)),
        OpenccConfig::S2hkp => two(st_round_exec(punct), triple_round(DictSlot::HKPhrases, DictSlot::HKVariantsPhrases, DictSlot::HKVariants)),
        OpenccConfig::Hk2sp => two(triple_round(DictSlot::HKPhrasesRev, DictSlot::HKVariantsRevPhrases, DictSlot::HKVariantsRev), ts_round_exec(punct)),
        OpenccConfig::T2tw => one(pair_round(DictSlot::TWVariantsPhrases, DictSlot::TWVariants)),
        OpenccConfig::T2twp => one(triple_round(DictSlot::TWPhrases, DictSlot::TWVariantsPhrases, DictSlot::TWVariants)),
        OpenccConfig::Tw2t => one(pair_round(DictSlot::TWVariantsRevPhrases, DictSlot::TWVariantsRev)),
        OpenccConfig::Tw2tp => one(triple_round(DictSlot::TWPhrasesRev, DictSlot::TWVariantsRevPhrases, DictSlot::TWVariantsRev)),
        OpenccConfig::T2hk => one(pair_round(DictSlot::HKVariantsPhrases, DictSlot::HKVariants)),
        OpenccConfig::T2hkp => one(triple_round(DictSlot::HKPhrases, DictSlot::HKVariantsPhrases, DictSlot::HKVariants)),
        OpenccConfig::Hk2t => one(pair_round(DictSlot::HKVariantsRevPhrases, DictSlot::HKVariantsRev)),
        OpenccConfig::Hk2tp => one(triple_round(DictSlot::HKPhrasesRev, DictSlot::HKVariantsRevPhrases, DictSlot::HKVariantsRev)),
        OpenccConfig::T2jp => one(single_round(DictSlot::JPSCharactersRev)),
        OpenccConfig::Jp2t => one(pair_round(DictSlot::JPSPhrases, DictSlot::JPSCharacters)),
    }
}

} // verus!
