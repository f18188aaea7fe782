//! The data bundled with the crate: the OpenCC lexicons, one text per
//! dictionary slot (in the order of `DictSlot::index`), and the character
//! tables of the optional passes.

pub mod st_characters;
pub mod st_phrases;
pub mod ts_characters;
pub mod ts_phrases;
pub mod tw_phrases;
pub mod tw_phrases_rev;
pub mod hk_phrases;
pub mod hk_phrases_rev;
pub mod tw_variants;
pub mod tw_variants_phrases;
pub mod tw_variants_rev;
pub mod tw_variants_rev_phrases;
pub mod hk_variants;
pub mod hk_variants_phrases;
pub mod hk_variants_rev;
pub mod hk_variants_rev_phrases;
pub mod jps_characters;
pub mod jps_characters_rev;
pub mod jps_phrases;
pub mod st_punctuations;
pub mod ts_punctuations;
pub mod compat_ideographs;
pub mod unicode_compat;
pub mod tofu;

use vstd::prelude::*;
use crate::lexicon::{load_parts, Lexicon};
use crate::slot::DictSlot;
use crate::tables::{
    char_pairs_map, pairs_of_parts, push_char_pairs, push_tofu_triples, tofu_entries_map,
    triples_of_parts, CharTable, DetofuLevel, TofuTable,
};

verus! {

/// The number of text parts of the dictionary of slot index `slot`.
pub open spec fn slot_parts_len(slot: int) -> nat {
    if slot == 0 {
        st_characters::PARTS as nat
    } else if slot == 1 {
        st_phrases::PARTS as nat
    } else if slot == 2 {
        ts_characters::PARTS as nat
    } else if slot == 3 {
        ts_phrases::PARTS as nat
    } else if slot == 4 {
        tw_phrases::PARTS as nat
    } else if slot == 5 {
        tw_phrases_rev::PARTS as nat
    } else if slot == 6 {
        hk_phrases::PARTS as nat
    } else if slot == 7 {
        hk_phrases_rev::PARTS as nat
    } else if slot == 8 {
        tw_variants::PARTS as nat
    } else if slot == 9 {
        tw_variants_phrases::PARTS as nat
    } else if slot == 10 {
        tw_variants_rev::PARTS as nat
    } else if slot == 11 {
        tw_variants_rev_phrases::PARTS as nat
    } else if slot == 12 {
        hk_variants::PARTS as nat
    } else if slot == 13 {
        hk_variants_phrases::PARTS as nat
    } else if slot == 14 {
        hk_variants_rev::PARTS as nat
    } else if slot == 15 {
        hk_variants_rev_phrases::PARTS as nat
    } else if slot == 16 {
        jps_characters::PARTS as nat
    } else if slot == 17 {
        jps_characters_rev::PARTS as nat
    } else if slot == 18 {
        jps_phrases::PARTS as nat
    } else if slot == 19 {
        st_punctuations::PARTS as nat
    } else if slot == 20 {
        ts_punctuations::PARTS as nat
    } else {
        0
    }
}

/// Part `i` of the text of the dictionary of slot index `slot`.
pub open spec fn slot_part(slot: int, i: int) -> Seq<char> {
    if slot == 0 {
        st_characters::part(i)
    } else if slot == 1 {
        st_phrases::part(i)
    } else if slot == 2 {
        ts_characters::part(i)
    } else if slot == 3 {
        ts_phrases::part(i)
    } else if slot == 4 {
        tw_phrases::part(i)
    } else if slot == 5 {
        tw_phrases_rev::part(i)
    } else if slot == 6 {
        hk_phrases::part(i)
    } else if slot == 7 {
        hk_phrases_rev::part(i)
    } else if slot == 8 {
        tw_variants::part(i)
    } else if slot == 9 {
        tw_variants_phrases::part(i)
    } else if slot == 10 {
        tw_variants_rev::part(i)
    } else if slot == 11 {
        tw_variants_rev_phrases::part(i)
    } else if slot == 12 {
        hk_variants::part(i)
    } else if slot == 13 {
        hk_variants_phrases::part(i)
    } else if slot == 14 {
        hk_variants_rev::part(i)
    } else if slot == 15 {
        hk_variants_rev_phrases::part(i)
    } else if slot == 16 {
        jps_characters::part(i)
    } else if slot == 17 {
        jps_characters_rev::part(i)
    } else if slot == 18 {
        jps_phrases::part(i)
    } else if slot == 19 {
        st_punctuations::part(i)
    } else if slot == 20 {
        ts_punctuations::part(i)
    } else {
        Seq::empty()
    }
}

/// The text parts of the dictionary of slot index `slot`.
pub open spec fn slot_text(slot: int) -> Seq<Seq<char>> {
    Seq::new(slot_parts_len(slot), |i: int| slot_part(slot, i))
}

/// The phrase maps of the bundled dictionaries, indexed by slot.
pub open spec fn bundled_maps() -> Seq<Map<Seq<char>, Seq<char>>> {
    Seq::new(21, |s: int| load_parts(Map::empty(), slot_text(s)))
}

/// The number of text parts of the dictionary of slot index `slot`.
fn slot_parts_len_exec(slot: usize) -> (r: usize)
    requires
        slot < 21,
    ensures
        r == slot_parts_len(slot as int),
{
    match slot {
        0 => st_characters::PARTS,
        1 => st_phrases::PARTS,
        2 => ts_characters::PARTS,
        3 => ts_phrases::PARTS,
        4 => tw_phrases::PARTS,
        5 => tw_phrases_rev::PARTS,
        6 => hk_phrases::PARTS,
        7 => hk_phrases_rev::PARTS,
        8 => tw_variants::PARTS,
        9 => tw_variants_phrases::PARTS,
        10 => tw_variants_rev::PARTS,
        11 => tw_variants_rev_phrases::PARTS,
        12 => hk_variants::PARTS,
        13 => hk_variants_phrases::PARTS,
        14 => hk_variants_rev::PARTS,
        15 => hk_variants_rev_phrases::PARTS,
        16 => jps_characters::PARTS,
        17 => jps_characters_rev::PARTS,
        18 => jps_phrases::PARTS,
        19 => st_punctuations::PARTS,
        20 => ts_punctuations::PARTS,
        _ => 0,
    }
}

/// Part `i` of the text of the dictionary of slot index `slot`.
fn slot_part_exec(slot: usize, i: usize) -> (r: &'static str)
    requires
        slot < 21,
        i < slot_parts_len(slot as int),
    ensures
        r@ == slot_part(slot as int, i as int),
{
    match slot {
        0 => st_characters::part_exec(i),
        1 => st_phrases::part_exec(i),
        2 => ts_characters::part_exec(i),
        3 => ts_phrases::part_exec(i),
        4 => tw_phrases::part_exec(i),
        5 => tw_phrases_rev::part_exec(i),
        6 => hk_phrases::part_exec(i),
        7 => hk_phrases_rev::part_exec(i),
        8 => tw_variants::part_exec(i),
        9 => tw_variants_phrases::part_exec(i),
        10 => tw_variants_rev::part_exec(i),
        11 => tw_variants_rev_phrases::part_exec(i),
        12 => hk_variants::part_exec(i),
        13 => hk_variants_phrases::part_exec(i),
        14 => hk_variants_rev::part_exec(i),
        15 => hk_variants_rev_phrases::part_exec(i),
        16 => jps_characters::part_exec(i),
        17 => jps_characters_rev::part_exec(i),
        18 => jps_phrases::part_exec(i),
        19 => st_punctuations::part_exec(i),
        20 => ts_punctuations::part_exec(i),
        _ => st_characters::part_exec(0),
    }
}

/// The bundled dictionary of slot index `slot`.
pub fn bundled_lexicon(slot: usize) -> (r: Lexicon)
    requires
        slot < 21,
    ensures
        r.wf(),
        r@ == bundled_maps()[slot as int],
{
    let n = slot_parts_len_exec(slot);
    let ghost text = slot_text(slot as int);
    let mut lex = Lexicon::new();
    let mut i: usize = 0;
    while i < n
        invariant
            slot < 21,
            n == slot_parts_len(slot as int),
            text == slot_text(slot as int),
            i <= n,
            lex.wf(),
            lex@ == load_parts(Map::empty(), text.subrange(0, i as int)),
        decreases n - i,
    {
        let part = slot_part_exec(slot, i);
        lex.load_text(part);
        proof {
            let sub = text.subrange(0, (i + 1) as int);
            assert(sub.drop_last() =~= text.subrange(0, i as int));
            assert(sub.last() == slot_part(slot as int, i as int));
        }
        i = i + 1;
    }
    proof {
        assert(text.subrange(0, n as int) =~= text);
    }
    lex
}

/// The parts of the bundled CJK Compatibility Ideograph table.
pub open spec fn compat_text() -> Seq<Seq<char>> {
    Seq::new(compat_ideographs::PARTS as nat, |i: int| compat_ideographs::part(i))
}

/// The bundled CJK Compatibility Ideograph table.
pub open spec fn bundled_compat() -> Map<char, char> {
    char_pairs_map(pairs_of_parts(compat_text()))
}

/// The bundled CJK Compatibility Ideograph table.
pub fn bundled_compat_table() -> (r: CharTable)
    ensures
        r@ == bundled_compat(),
{
    let ghost text = compat_text();
    let mut entries: Vec<(char, char)> = Vec::new();
    let mut i: usize = 0;
    while i < compat_ideographs::PARTS
        invariant
            text == compat_text(),
            i <= compat_ideographs::PARTS,
            entries@ == pairs_of_parts(text.subrange(0, i as int)),
        decreases compat_ideographs::PARTS - i,
    {
        push_char_pairs(&mut entries, compat_ideographs::part_exec(i));
        proof {
            let sub = text.subrange(0, (i + 1) as int);
            assert(sub.drop_last() =~= text.subrange(0, i as int));
            assert(sub.last() == compat_ideographs::part(i as int));
        }
        i = i + 1;
    }
    proof {
        assert(text.subrange(0, compat_ideographs::PARTS as int) =~= text);
    }
    CharTable::from_pairs(entries)
}

/// The parts of the bundled extended Unicode compatibility table.
pub open spec fn unicode_text() -> Seq<Seq<char>> {
    Seq::new(unicode_compat::PARTS as nat, |i: int| unicode_compat::part(i))
}

/// The bundled extended Unicode compatibility table.
pub open spec fn bundled_unicode() -> Map<char, char> {
    char_pairs_map(pairs_of_parts(unicode_text()))
}

/// The bundled extended Unicode compatibility table.
pub fn bundled_unicode_table() -> (r: CharTable)
    ensures
        r@ == bundled_unicode(),
{
    let ghost text = unicode_text();
    let mut entries: Vec<(char, char)> = Vec::new();
    let mut i: usize = 0;
    while i < unicode_compat::PARTS
        invariant
            text == unicode_text(),
            i <= unicode_compat::PARTS,
            entries@ == pairs_of_parts(text.subrange(0, i as int)),
        decreases unicode_compat::PARTS - i,
    {
        push_char_pairs(&mut entries, unicode_compat::part_exec(i));
        proof {
            let sub = text.subrange(0, (i + 1) as int);
            assert(sub.drop_last() =~= text.subrange(0, i as int));
            assert(sub.last() == unicode_compat::part(i as int));
        }
        i = i + 1;
    }
    proof {
        assert(text.subrange(0, unicode_compat::PARTS as int) =~= text);
    }
    CharTable::from_pairs(entries)
}

/// The parts of the bundled DeToFu fallback table.
pub open spec fn tofu_text() -> Seq<Seq<char>> {
    Seq::new(tofu::PARTS as nat, |i: int| tofu::part(i))
}

/// The bundled DeToFu fallback table.
pub open spec fn bundled_tofu() -> Map<char, (char, DetofuLevel)> {
    tofu_entries_map(triples_of_parts(tofu_text()))
}

/// The bundled DeToFu fallback table.
pub fn bundled_tofu_table() -> (r: TofuTable)
    ensures
        r@ == bundled_tofu(),
{
    let ghost text = tofu_text();
    let mut entries: Vec<(char, char, DetofuLevel)> = Vec::new();
    let mut i: usize = 0;
    while i < tofu::PARTS
        invariant
            text == tofu_text(),
            i <= tofu::PARTS,
            entries@ == triples_of_parts(text.subrange(0, i as int)),
        decreases tofu::PARTS - i,
    {
        push_tofu_triples(&mut entries, tofu::part_exec(i));
        proof {
            let sub = text.subrange(0, (i + 1) as int);
            assert(sub.drop_last() =~= text.subrange(0, i as int));
            assert(sub.last() == tofu::part(i as int));
        }
        i = i + 1;
    }
    proof {
        assert(text.subrange(0, tofu::PARTS as int) =~= text);
    }
    TofuTable::from_entries(entries)
}

/// Each slot's bundled map is the parse of that slot's own dictionary text:
/// for example `JPSCharactersRev` holds the Kyujitai-to-Shinjitai table and
/// `JPSCharacters` the Shinjitai-to-Kyujitai one.
pub proof fn law_bundled_slot_texts()
    ensures
        bundled_maps()[DictSlot::STCharacters.index()] == load_parts(Map::empty(), Seq::new(st_characters::PARTS as nat, |i: int| st_characters::part(i))),
        bundled_maps()[DictSlot::STPhrases.index()] == load_parts(Map::empty(), Seq::new(st_phrases::PARTS as nat, |i: int| st_phrases::part(i))),
        bundled_maps()[DictSlot::TSCharacters.index()] == load_parts(Map::empty(), Seq::new(ts_characters::PARTS as nat, |i: int| ts_characters::part(i))),
        bundled_maps()[DictSlot::TSPhrases.index()] == load_parts(Map::empty(), Seq::new(ts_phrases::PARTS as nat, |i: int| ts_phrases::part(i))),
        bundled_maps()[DictSlot::TWPhrases.index()] == load_parts(Map::empty(), Seq::new(tw_phrases::PARTS as nat, |i: int| tw_phrases::part(i))),
        bundled_maps()[DictSlot::TWPhrasesRev.index()] == load_parts(Map::empty(), Seq::new(tw_phrases_rev::PARTS as nat, |i: int| tw_phrases_rev::part(i))),
        bundled_maps()[DictSlot::HKPhrases.index()] == load_parts(Map::empty(), Seq::new(hk_phrases::PARTS as nat, |i: int| hk_phrases::part(i))),
        bundled_maps()[DictSlot::HKPhrasesRev.index()] == load_parts(Map::empty(), Seq::new(hk_phrases_rev::PARTS as nat, |i: int| hk_phrases_rev::part(i))),
        bundled_maps()[DictSlot::TWVariants.index()] == load_parts(Map::empty(), Seq::new(tw_variants::PARTS as nat, |i: int| tw_variants::part(i))),
        bundled_maps()[DictSlot::TWVariantsPhrases.index()] == load_parts(Map::empty(), Seq::new(tw_variants_phrases::PARTS as nat, |i: int| tw_variants_phrases::part(i))),
        bundled_maps()[DictSlot::TWVariantsRev.index()] == load_parts(Map::empty(), Seq::new(tw_variants_rev::PARTS as nat, |i: int| tw_variants_rev::part(i))),
        bundled_maps()[DictSlot::TWVariantsRevPhrases.index()] == load_parts(Map::empty(), Seq::new(tw_variants_rev_phrases::PARTS as nat, |i: int| tw_variants_rev_phrases::part(i))),
        bundled_maps()[DictSlot::HKVariants.index()] == load_parts(Map::empty(), Seq::new(hk_variants::PARTS as nat, |i: int| hk_variants::part(i))),
        bundled_maps()[DictSlot::HKVariantsPhrases.index()] == load_parts(Map::empty(), Seq::new(hk_variants_phrases::PARTS as nat, |i: int| hk_variants_phrases::part(i))),
        bundled_maps()[DictSlot::HKVariantsRev.index()] == load_parts(Map::empty(), Seq::new(hk_variants_rev::PARTS as nat, |i: int| hk_variants_rev::part(i))),
        bundled_maps()[DictSlot::HKVariantsRevPhrases.index()] == load_parts(Map::empty(), Seq::new(hk_variants_rev_phrases::PARTS as nat, |i: int| hk_variants_rev_phrases::part(i))),
        bundled_maps()[DictSlot::JPSCharacters.index()] == load_parts(Map::empty(), Seq::new(jps_characters::PARTS as nat, |i: int| jps_characters::part(i))),
        bundled_maps()[DictSlot::JPSCharactersRev.index()] == load_parts(Map::empty(), Seq::new(jps_characters_rev::PARTS as nat, |i: int| jps_characters_rev::part(i))),
        bundled_maps()[DictSlot::JPSPhrases.index()] == load_parts(Map::empty(), Seq::new(jps_phrases::PARTS as nat, |i: int| jps_phrases::part(i))),
        bundled_maps()[DictSlot::STPunctuations.index()] == load_parts(Map::empty(), Seq::new(st_punctuations::PARTS as nat, |i: int| st_punctuations::part(i))),
        bundled_maps()[DictSlot::TSPunctuations.index()] == load_parts(Map::empty(), Seq::new(ts_punctuations::PARTS as nat, |i: int| ts_punctuations::part(i))),
{
    assert(slot_text(DictSlot::STCharacters.index()) =~= Seq::new(st_characters::PARTS as nat, |i: int| st_characters::part(i)));
    assert(slot_text(DictSlot::STPhrases.index()) =~= Seq::new(st_phrases::PARTS as nat, |i: int| st_phrases::part(i)));
    assert(slot_text(DictSlot::TSCharacters.index()) =~= Seq::new(ts_characters::PARTS as nat, |i: int| ts_characters::part(i)));
    assert(slot_text(DictSlot::TSPhrases.index()) =~= Seq::new(ts_phrases::PARTS as nat, |i: int| ts_phrases::part(i)));
    assert(slot_text(DictSlot::TWPhrases.index()) =~= Seq::new(tw_phrases::PARTS as nat, |i: int| tw_phrases::part(i)));
    assert(slot_text(DictSlot::TWPhrasesRev.index()) =~= Seq::new(tw_phrases_rev::PARTS as nat, |i: int| tw_phrases_rev::part(i)));
    assert(slot_text(DictSlot::HKPhrases.index()) =~= Seq::new(hk_phrases::PARTS as nat, |i: int| hk_phrases::part(i)));
    assert(slot_text(DictSlot::HKPhrasesRev.index()) =~= Seq::new(hk_phrases_rev::PARTS as nat, |i: int| hk_phrases_rev::part(i)));
    assert(slot_text(DictSlot::TWVariants.index()) =~= Seq::new(tw_variants::PARTS as nat, |i: int| tw_variants::part(i)));
    assert(slot_text(DictSlot::TWVariantsPhrases.index()) =~= Seq::new(tw_variants_phrases::PARTS as nat, |i: int| tw_variants_phrases::part(i)));
    assert(slot_text(DictSlot::TWVariantsRev.index()) =~= Seq::new(tw_variants_rev::PARTS as nat, |i: int| tw_variants_rev::part(i)));
    assert(slot_text(DictSlot::TWVariantsRevPhrases.index()) =~= Seq::new(tw_variants_rev_phrases::PARTS as nat, |i: int| tw_variants_rev_phrases::part(i)));
    assert(slot_text(DictSlot::HKVariants.index()) =~= Seq::new(hk_variants::PARTS as nat, |i: int| hk_variants::part(i)));
    assert(slot_text(DictSlot::HKVariantsPhrases.index()) =~= Seq::new(hk_variants_phrases::PARTS as nat, |i: int| hk_variants_phrases::part(i)));
    assert(slot_text(DictSlot::HKVariantsRev.index()) =~= Seq::new(hk_variants_rev::PARTS as nat, |i: int| hk_variants_rev::part(i)));
    assert(slot_text(DictSlot::HKVariantsRevPhrases.index()) =~= Seq::new(hk_variants_rev_phrases::PARTS as nat, |i: int| hk_variants_rev_phrases::part(i)));
    assert(slot_text(DictSlot::JPSCharacters.index()) =~= Seq::new(jps_characters::PARTS as nat, |i: int| jps_characters::part(i)));
    assert(slot_text(DictSlot::JPSCharactersRev.index()) =~= Seq::new(jps_characters_rev::PARTS as nat, |i: int| jps_characters_rev::part(i)));
    assert(slot_text(DictSlot::JPSPhrases.index()) =~= Seq::new(jps_phrases::PARTS as nat, |i: int| jps_phrases::part(i)));
    assert(slot_text(DictSlot::STPunctuations.index()) =~= Seq::new(st_punctuations::PARTS as nat, |i: int| st_punctuations::part(i)));
    assert(slot_text(DictSlot::TSPunctuations.index()) =~= Seq::new(ts_punctuations::PARTS as nat, |i: int| ts_punctuations::part(i)));
}

/// The bundled character tables are the parses of their own texts: the
/// ideograph table of the CJK Compatibility Ideograph pairs, the extended
/// table of the Unicode compatibility pairs, and the DeToFu table of the
/// fallback triples.
pub proof fn law_bundled_table_texts()
    ensures
        bundled_compat() == char_pairs_map(pairs_of_parts(Seq::new(compat_ideographs::PARTS as nat, |i: int| compat_ideographs::part(i)))),
        bundled_unicode() == char_pairs_map(pairs_of_parts(Seq::new(unicode_compat::PARTS as nat, |i: int| unicode_compat::part(i)))),
        bundled_tofu() == tofu_entries_map(triples_of_parts(Seq::new(tofu::PARTS as nat, |i: int| tofu::part(i)))),
{
    assert(compat_text() =~= Seq::new(compat_ideographs::PARTS as nat, |i: int| compat_ideographs::part(i)));
    assert(unicode_text() =~= Seq::new(unicode_compat::PARTS as nat, |i: int| unicode_compat::part(i)));
    assert(tofu_text() =~= Seq::new(tofu::PARTS as nat, |i: int| tofu::part(i)));
}

} // verus!
