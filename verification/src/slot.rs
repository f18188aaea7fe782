//! Dictionary slots and custom dictionary specifications: the slot names
//! that callers may use, the `Append` / `Override` modes, and the checked
//! conversion of a caller-supplied specification into a backend one.

use vstd::prelude::*;
use crate::text::{
    back_white_to, char_eq_ignore_ascii_case, chars_of, concat_str, eq_ignore_ascii_case,
    is_white_space, skip_white_from, slice_eq_ignore_ascii_case, str_eq, trim, trim_chars,
};

verus! {

broadcast use vstd::string::group_string_axioms;

/// One of the dictionaries that make up the conversion data.
#[derive(Clone, Copy, Debug, PartialEq, Eq, Structural)]
pub enum DictSlot {
    /// Simplified to Traditional characters.
    STCharacters,
    /// Simplified to Traditional phrases.
    STPhrases,
    /// Traditional to Simplified characters.
    TSCharacters,
    /// Traditional to Simplified phrases.
    TSPhrases,
    /// Taiwan phrases.
    TWPhrases,
    /// Taiwan phrases, reversed.
    TWPhrasesRev,
    /// Hong Kong phrases.
    HKPhrases,
    /// Hong Kong phrases, reversed.
    HKPhrasesRev,
    /// Taiwan variant characters.
    TWVariants,
    /// Taiwan variant phrases.
    TWVariantsPhrases,
    /// Taiwan variant characters, reversed.
    TWVariantsRev,
    /// Taiwan variant phrases, reversed.
    TWVariantsRevPhrases,
    /// Hong Kong variant characters.
    HKVariants,
    /// Hong Kong variant phrases.
    HKVariantsPhrases,
    /// Hong Kong variant characters, reversed.
    HKVariantsRev,
    /// Hong Kong variant phrases, reversed.
    HKVariantsRevPhrases,
    /// Japanese Shinjitai characters.
    JPSCharacters,
    /// Japanese Shinjitai characters, reversed.
    JPSCharactersRev,
    /// Japanese Shinjitai phrases.
    JPSPhrases,
    /// Simplified to Traditional punctuation.
    STPunctuations,
    /// Traditional to Simplified punctuation.
    TSPunctuations,
}

impl DictSlot {
    /// The slot's canonical name, which is its variant name.
    pub open spec fn name(self) -> Seq<char> {
        match self {
            DictSlot::STCharacters => "STCharacters"@,
            DictSlot::STPhrases => "STPhrases"@,
            DictSlot::TSCharacters => "TSCharacters"@,
            DictSlot::TSPhrases => "TSPhrases"@,
            DictSlot::TWPhrases => "TWPhrases"@,
            DictSlot::TWPhrasesRev => "TWPhrasesRev"@,
            DictSlot::HKPhrases => "HKPhrases"@,
            DictSlot::HKPhrasesRev => "HKPhrasesRev"@,
            DictSlot::TWVariants => "TWVariants"@,
            DictSlot::TWVariantsPhrases => "TWVariantsPhrases"@,
            DictSlot::TWVariantsRev => "TWVariantsRev"@,
            DictSlot::TWVariantsRevPhrases => "TWVariantsRevPhrases"@,
            DictSlot::HKVariants => "HKVariants"@,
            DictSlot::HKVariantsPhrases => "HKVariantsPhrases"@,
            DictSlot::HKVariantsRev => "HKVariantsRev"@,
            DictSlot::HKVariantsRevPhrases => "HKVariantsRevPhrases"@,
            DictSlot::JPSCharacters => "JPSCharacters"@,
            DictSlot::JPSCharactersRev => "JPSCharactersRev"@,
            DictSlot::JPSPhrases => "JPSPhrases"@,
            DictSlot::STPunctuations => "STPunctuations"@,
            DictSlot::TSPunctuations => "TSPunctuations"@,
        }
    }

    /// The first slot of [`DictSlot::all`] whose canonical name equals `s` up
    /// to ASCII case, if any.
    pub open spec fn of_trimmed_name(s: Seq<char>) -> Option<DictSlot> {
        if eq_ignore_ascii_case(s, DictSlot::STCharacters.name()) {
            Some(DictSlot::STCharacters)
        } else if eq_ignore_ascii_case(s, DictSlot::STPhrases.name()) {
            Some(DictSlot::STPhrases)
        } else if eq_ignore_ascii_case(s, DictSlot::STPunctuations.name()) {
            Some(DictSlot::STPunctuations)
        } else if eq_ignore_ascii_case(s, DictSlot::TSCharacters.name()) {
            Some(DictSlot::TSCharacters)
        } else if eq_ignore_ascii_case(s, DictSlot::TSPhrases.name()) {
            Some(DictSlot::TSPhrases)
        } else if eq_ignore_ascii_case(s, DictSlot::TSPunctuations.name()) {
            Some(DictSlot::TSPunctuations)
        } else if eq_ignore_ascii_case(s, DictSlot::TWPhrases.name()) {
            Some(DictSlot::TWPhrases)
        } else if eq_ignore_ascii_case(s, DictSlot::TWPhrasesRev.name()) {
            Some(DictSlot::TWPhrasesRev)
        } else if eq_ignore_ascii_case(s, DictSlot::HKPhrases.name()) {
            Some(DictSlot::HKPhrases)
        } else if eq_ignore_ascii_case(s, DictSlot::HKPhrasesRev.name()) {
            Some(DictSlot::HKPhrasesRev)
        } else if eq_ignore_ascii_case(s, DictSlot::TWVariants.name()) {
            Some(DictSlot::TWVariants)
        } else if eq_ignore_ascii_case(s, DictSlot::TWVariantsPhrases.name()) {
            Some(DictSlot::TWVariantsPhrases)
        } else if eq_ignore_ascii_case(s, DictSlot::TWVariantsRev.name()) {
            Some(DictSlot::TWVariantsRev)
        } else if eq_ignore_ascii_case(s, DictSlot::TWVariantsRevPhrases.name()) {
            Some(DictSlot::TWVariantsRevPhrases)
        } else if eq_ignore_ascii_case(s, DictSlot::HKVariants.name()) {
            Some(DictSlot::HKVariants)
        } else if eq_ignore_ascii_case(s, DictSlot::HKVariantsPhrases.name()) {
            Some(DictSlot::HKVariantsPhrases)
        } else if eq_ignore_ascii_case(s, DictSlot::HKVariantsRev.name()) {
            Some(DictSlot::HKVariantsRev)
        } else if eq_ignore_ascii_case(s, DictSlot::HKVariantsRevPhrases.name()) {
            Some(DictSlot::HKVariantsRevPhrases)
        } else if eq_ignore_ascii_case(s, DictSlot::JPSCharacters.name()) {
            Some(DictSlot::JPSCharacters)
        } else if eq_ignore_ascii_case(s, DictSlot::JPSCharactersRev.name()) {
            Some(DictSlot::JPSCharactersRev)
        } else if eq_ignore_ascii_case(s, DictSlot::JPSPhrases.name()) {
            Some(DictSlot::JPSPhrases)
        } else {
            None
        }
    }

    /// The slot that `s` names once surrounding white space is removed and
    /// ASCII case is ignored, if any.
    pub open spec fn of_name(s: Seq<char>) -> Option<DictSlot> {
        DictSlot::of_trimmed_name(trim(s))
    }

    /// Every slot, in the documented listing order.
    pub open spec fn all() -> Seq<DictSlot> {
        seq![
            DictSlot::STCharacters,
            DictSlot::STPhrases,
            DictSlot::STPunctuations,
            DictSlot::TSCharacters,
            DictSlot::TSPhrases,
            DictSlot::TSPunctuations,
            DictSlot::TWPhrases,
            DictSlot::TWPhrasesRev,
            DictSlot::HKPhrases,
            DictSlot::HKPhrasesRev,
            DictSlot::TWVariants,
            DictSlot::TWVariantsPhrases,
            DictSlot::TWVariantsRev,
            DictSlot::TWVariantsRevPhrases,
            DictSlot::HKVariants,
            DictSlot::HKVariantsPhrases,
            DictSlot::HKVariantsRev,
            DictSlot::HKVariantsRevPhrases,
            DictSlot::JPSCharacters,
            DictSlot::JPSCharactersRev,
            DictSlot::JPSPhrases,
        ]
    }

    /// The slot's position among the dictionaries, in declaration order.
    pub open spec fn index(self) -> int {
        match self {
            DictSlot::STCharacters => 0,
            DictSlot::STPhrases => 1,
            DictSlot::TSCharacters => 2,
            DictSlot::TSPhrases => 3,
            DictSlot::TWPhrases => 4,
            DictSlot::TWPhrasesRev => 5,
            DictSlot::HKPhrases => 6,
            DictSlot::HKPhrasesRev => 7,
            DictSlot::TWVariants => 8,
            DictSlot::TWVariantsPhrases => 9,
            DictSlot::TWVariantsRev => 10,
            DictSlot::TWVariantsRevPhrases => 11,
            DictSlot::HKVariants => 12,
            DictSlot::HKVariantsPhrases => 13,
            DictSlot::HKVariantsRev => 14,
            DictSlot::HKVariantsRevPhrases => 15,
            DictSlot::JPSCharacters => 16,
            DictSlot::JPSCharactersRev => 17,
            DictSlot::JPSPhrases => 18,
            DictSlot::STPunctuations => 19,
            DictSlot::TSPunctuations => 20,
        }
    }

    /// The slot's canonical name.
    pub fn canonical_name(&self) -> (r: &'static str)
        ensures
            r@ == self.name(),
    {
        match self {
            DictSlot::STCharacters => "STCharacters",
            DictSlot::STPhrases => "STPhrases",
            DictSlot::TSCharacters => "TSCharacters",
            DictSlot::TSPhrases => "TSPhrases",
            DictSlot::TWPhrases => "TWPhrases",
            DictSlot::TWPhrasesRev => "TWPhrasesRev",
            DictSlot::HKPhrases => "HKPhrases",
            DictSlot::HKPhrasesRev => "HKPhrasesRev",
            DictSlot::TWVariants => "TWVariants",
            DictSlot::TWVariantsPhrases => "TWVariantsPhrases",
            DictSlot::TWVariantsRev => "TWVariantsRev",
            DictSlot::TWVariantsRevPhrases => "TWVariantsRevPhrases",
            DictSlot::HKVariants => "HKVariants",
            DictSlot::HKVariantsPhrases => "HKVariantsPhrases",
            DictSlot::HKVariantsRev => "HKVariantsRev",
            DictSlot::HKVariantsRevPhrases => "HKVariantsRevPhrases",
            DictSlot::JPSCharacters => "JPSCharacters",
            DictSlot::JPSCharactersRev => "JPSCharactersRev",
            DictSlot::JPSPhrases => "JPSPhrases",
            DictSlot::STPunctuations => "STPunctuations",
            DictSlot::TSPunctuations => "TSPunctuations",
        }
    }

    /// The slot named by `s`: surrounding white space is removed and ASCII
    /// case is ignored, so `" stphrases "` selects `STPhrases`; names with a
    /// suffix such as `"STPhrases.txt"` select nothing.
    pub fn from_name_ignore_ascii_case(s: &str) -> (r: Option<DictSlot>)
        ensures
            r == DictSlot::of_name(s@),
    {
        let all = chars_of(s);
        let cs = trim_chars(all.as_slice());
        if slot_name_matches(&cs, "STCharacters") {
            return Some(DictSlot::STCharacters);
        }
        if slot_name_matches(&cs, "STPhrases") {
            return Some(DictSlot::STPhrases);
        }
        if slot_name_matches(&cs, "STPunctuations") {
            return Some(DictSlot::STPunctuations);
        }
        if slot_name_matches(&cs, "TSCharacters") {
            return Some(DictSlot::TSCharacters);
        }
        if slot_name_matches(&cs, "TSPhrases") {
            return Some(DictSlot::TSPhrases);
        }
        if slot_name_matches(&cs, "TSPunctuations") {
            return Some(DictSlot::TSPunctuations);
        }
        if slot_name_matches(&cs, "TWPhrases") {
            return Some(DictSlot::TWPhrases);
        }
        if slot_name_matches(&cs, "TWPhrasesRev") {
            return Some(DictSlot::TWPhrasesRev);
        }
        if slot_name_matches(&cs, "HKPhrases") {
            return Some(DictSlot::HKPhrases);
        }
        if slot_name_matches(&cs, "HKPhrasesRev") {
            return Some(DictSlot::HKPhrasesRev);
        }
        if slot_name_matches(&cs, "TWVariants") {
            return Some(DictSlot::TWVariants);
        }
        if slot_name_matches(&cs, "TWVariantsPhrases") {
            return Some(DictSlot::TWVariantsPhrases);
        }
        if slot_name_matches(&cs, "TWVariantsRev") {
            return Some(DictSlot::TWVariantsRev);
        }
        if slot_name_matches(&cs, "TWVariantsRevPhrases") {
            return Some(DictSlot::TWVariantsRevPhrases);
        }
        if slot_name_matches(&cs, "HKVariants") {
            return Some(DictSlot::HKVariants);
        }
        if slot_name_matches(&cs, "HKVariantsPhrases") {
            return Some(DictSlot::HKVariantsPhrases);
        }
        if slot_name_matches(&cs, "HKVariantsRev") {
            return Some(DictSlot::HKVariantsRev);
        }
        if slot_name_matches(&cs, "HKVariantsRevPhrases") {
            return Some(DictSlot::HKVariantsRevPhrases);
        }
        if slot_name_matches(&cs, "JPSCharacters") {
            return Some(DictSlot::JPSCharacters);
        }
        if slot_name_matches(&cs, "JPSCharactersRev") {
            return Some(DictSlot::JPSCharactersRev);
        }
        if slot_name_matches(&cs, "JPSPhrases") {
            return Some(DictSlot::JPSPhrases);
        }
        None
    }

    /// Every slot, in the documented listing order.
    pub fn all_slots() -> (r: Vec<DictSlot>)
        ensures
            r@ == DictSlot::all(),
    {
        let mut v: Vec<DictSlot> = Vec::new();
        v.push(DictSlot::STCharacters);
        v.push(DictSlot::STPhrases);
        v.push(DictSlot::STPunctuations);
        v.push(DictSlot::TSCharacters);
        v.push(DictSlot::TSPhrases);
        v.push(DictSlot::TSPunctuations);
        v.push(DictSlot::TWPhrases);
        v.push(DictSlot::TWPhrasesRev);
        v.push(DictSlot::HKPhrases);
        v.push(DictSlot::HKPhrasesRev);
        v.push(DictSlot::TWVariants);
        v.push(DictSlot::TWVariantsPhrases);
        v.push(DictSlot::TWVariantsRev);
        v.push(DictSlot::TWVariantsRevPhrases);
        v.push(DictSlot::HKVariants);
        v.push(DictSlot::HKVariantsPhrases);
        v.push(DictSlot::HKVariantsRev);
        v.push(DictSlot::HKVariantsRevPhrases);
        v.push(DictSlot::JPSCharacters);
        v.push(DictSlot::JPSCharactersRev);
        v.push(DictSlot::JPSPhrases);
        assert(v@ == DictSlot::all());
        v
    }
}

/// Slot names that are equal up to ASCII case belong to the same slot.
proof fn lemma_slot_names_distinct(a: DictSlot, b: DictSlot)
    requires
        eq_ignore_ascii_case(a.name(), b.name()),
    ensures
        a == b,
{
    reveal_strlit("STCharacters");
    reveal_strlit("STPhrases");
    reveal_strlit("TSCharacters");
    reveal_strlit("TSPhrases");
    reveal_strlit("TWPhrases");
    reveal_strlit("TWPhrasesRev");
    reveal_strlit("HKPhrases");
    reveal_strlit("HKPhrasesRev");
    reveal_strlit("TWVariants");
    reveal_strlit("TWVariantsPhrases");
    reveal_strlit("TWVariantsRev");
    reveal_strlit("TWVariantsRevPhrases");
    reveal_strlit("HKVariants");
    reveal_strlit("HKVariantsPhrases");
    reveal_strlit("HKVariantsRev");
    reveal_strlit("HKVariantsRevPhrases");
    reveal_strlit("JPSCharacters");
    reveal_strlit("JPSCharactersRev");
    reveal_strlit("JPSPhrases");
    reveal_strlit("STPunctuations");
    reveal_strlit("TSPunctuations");
    if a != b {
        if (a == DictSlot::TSCharacters && b == DictSlot::STCharacters) || (a == DictSlot::STCharacters && b == DictSlot::TSCharacters) {
            assert(!char_eq_ignore_ascii_case(a.name()[0], b.name()[0]));
        }
        if (a == DictSlot::TSPhrases && b == DictSlot::STPhrases) || (a == DictSlot::STPhrases && b == DictSlot::TSPhrases) {
            assert(!char_eq_ignore_ascii_case(a.name()[0], b.name()[0]));
        }
        if (a == DictSlot::TWPhrases && b == DictSlot::STPhrases) || (a == DictSlot::STPhrases && b == DictSlot::TWPhrases) {
            assert(!char_eq_ignore_ascii_case(a.name()[0], b.name()[0]));
        }
        if (a == DictSlot::TWPhrases && b == DictSlot::TSPhrases) || (a == DictSlot::TSPhrases && b == DictSlot::TWPhrases) {
            assert(!char_eq_ignore_ascii_case(a.name()[1], b.name()[1]));
        }
        if (a == DictSlot::TWPhrasesRev && b == DictSlot::STCharacters) || (a == DictSlot::STCharacters && b == DictSlot::TWPhrasesRev) {
            assert(!char_eq_ignore_ascii_case(a.name()[0], b.name()[0]));
        }
        if (a == DictSlot::TWPhrasesRev && b == DictSlot::TSCharacters) || (a == DictSlot::TSCharacters && b == DictSlot::TWPhrasesRev) {
            assert(!char_eq_ignore_ascii_case(a.name()[1], b.name()[1]));
        }
        if (a == DictSlot::HKPhrases && b == DictSlot::STPhrases) || (a == DictSlot::STPhrases && b == DictSlot::HKPhrases) {
            assert(!char_eq_ignore_ascii_case(a.name()[0], b.name()[0]));
        }
        if (a == DictSlot::HKPhrases && b == DictSlot::TSPhrases) || (a == DictSlot::TSPhrases && b == DictSlot::HKPhrases) {
            assert(!char_eq_ignore_ascii_case(a.name()[0], b.name()[0]));
        }
        if (a == DictSlot::HKPhrases && b == DictSlot::TWPhrases) || (a == DictSlot::TWPhrases && b == DictSlot::HKPhrases) {
            assert(!char_eq_ignore_ascii_case(a.name()[0], b.name()[0]));
        }
        if (a == DictSlot::HKPhrasesRev && b == DictSlot::STCharacters) || (a == DictSlot::STCharacters && b == DictSlot::HKPhrasesRev) {
            assert(!char_eq_ignore_ascii_case(a.name()[0], b.name()[0]));
        }
        if (a == DictSlot::HKPhrasesRev && b == DictSlot::TSCharacters) || (a == DictSlot::TSCharacters && b == DictSlot::HKPhrasesRev) {
            assert(!char_eq_ignore_ascii_case(a.name()[0], b.name()[0]));
        }
        if (a == DictSlot::HKPhrasesRev && b == DictSlot::TWPhrasesRev) || (a == DictSlot::TWPhrasesRev && b == DictSlot::HKPhrasesRev) {
            assert(!char_eq_ignore_ascii_case(a.name()[0], b.name()[0]));
        }
        if (a == DictSlot::HKVariants && b == DictSlot::TWVariants) || (a == DictSlot::TWVariants && b == DictSlot::HKVariants) {
            assert(!char_eq_ignore_ascii_case(a.name()[0], b.name()[0]));
        }
        if (a == DictSlot::HKVariantsPhrases && b == DictSlot::TWVariantsPhrases) || (a == DictSlot::TWVariantsPhrases && b == DictSlot::HKVariantsPhrases) {
            assert(!char_eq_ignore_ascii_case(a.name()[0], b.name()[0]));
        }
        if (a == DictSlot::HKVariantsRev && b == DictSlot::TWVariantsRev) || (a == DictSlot::TWVariantsRev && b == DictSlot::HKVariantsRev) {
            assert(!char_eq_ignore_ascii_case(a.name()[0], b.name()[0]));
        }
        if (a == DictSlot::HKVariantsRevPhrases && b == DictSlot::TWVariantsRevPhrases) || (a == DictSlot::TWVariantsRevPhrases && b == DictSlot::HKVariantsRevPhrases) {
            assert(!char_eq_ignore_ascii_case(a.name()[0], b.name()[0]));
        }
        if (a == DictSlot::JPSCharacters && b == DictSlot::TWVariantsRev) || (a == DictSlot::TWVariantsRev && b == DictSlot::JPSCharacters) {
            assert(!char_eq_ignore_ascii_case(a.name()[0], b.name()[0]));
        }
        if (a == DictSlot::JPSCharacters && b == DictSlot::HKVariantsRev) || (a == DictSlot::HKVariantsRev && b == DictSlot::JPSCharacters) {
            assert(!char_eq_ignore_ascii_case(a.name()[0], b.name()[0]));
        }
        if (a == DictSlot::JPSPhrases && b == DictSlot::TWVariants) || (a == DictSlot::TWVariants && b == DictSlot::JPSPhrases) {
            assert(!char_eq_ignore_ascii_case(a.name()[0], b.name()[0]));
        }
        if (a == DictSlot::JPSPhrases && b == DictSlot::HKVariants) || (a == DictSlot::HKVariants && b == DictSlot::JPSPhrases) {
            assert(!char_eq_ignore_ascii_case(a.name()[0], b.name()[0]));
        }
        if (a == DictSlot::TSPunctuations && b == DictSlot::STPunctuations) || (a == DictSlot::STPunctuations && b == DictSlot::TSPunctuations) {
            assert(!char_eq_ignore_ascii_case(a.name()[0], b.name()[0]));
        }
    }
}

/// No slot name begins or ends with white space, so trimming leaves it as is.
proof fn lemma_slot_name_trimmed(s: DictSlot)
    ensures
        trim(s.name()) == s.name(),
{
    reveal_strlit("STCharacters");
    reveal_strlit("STPhrases");
    reveal_strlit("TSCharacters");
    reveal_strlit("TSPhrases");
    reveal_strlit("TWPhrases");
    reveal_strlit("TWPhrasesRev");
    reveal_strlit("HKPhrases");
    reveal_strlit("HKPhrasesRev");
    reveal_strlit("TWVariants");
    reveal_strlit("TWVariantsPhrases");
    reveal_strlit("TWVariantsRev");
    reveal_strlit("TWVariantsRevPhrases");
    reveal_strlit("HKVariants");
    reveal_strlit("HKVariantsPhrases");
    reveal_strlit("HKVariantsRev");
    reveal_strlit("HKVariantsRevPhrases");
    reveal_strlit("JPSCharacters");
    reveal_strlit("JPSCharactersRev");
    reveal_strlit("JPSPhrases");
    reveal_strlit("STPunctuations");
    reveal_strlit("TSPunctuations");
    let n = s.name();
    assert(!is_white_space(n[0]));
    assert(!is_white_space(n[n.len() - 1]));
    assert(skip_white_from(n, 0) == 0);
    assert(back_white_to(n, n.len() as int, 0) == n.len());
    assert(n.subrange(0, n.len() as int) =~= n);
}

/// Every canonical slot name is accepted and selects its slot.
pub proof fn law_slot_name_parses_back(s: DictSlot)
    ensures
        DictSlot::of_name(s.name()) == Some(s),
{
    lemma_slot_name_trimmed(s);
    assert forall|d: DictSlot| eq_ignore_ascii_case(s.name(), #[trigger] d.name()) implies d == s by {
        lemma_slot_names_distinct(s, d);
    }
    assert(eq_ignore_ascii_case(s.name(), s.name()));

}

/// The listing of all slots holds each slot exactly once; each slot's
/// position among the dictionaries is below 21 and no two slots share one.
pub proof fn law_all_slots_complete(s: DictSlot, t: DictSlot)
    ensures
        DictSlot::all().len() == 21,
        DictSlot::all().contains(s),
        forall|i: int, j: int| 0 <= i < j < 21 ==> DictSlot::all()[i] != DictSlot::all()[j],
        0 <= s.index() < 21,
        s.index() == t.index() ==> s == t,
{
    match s {
        DictSlot::STCharacters => assert(DictSlot::all()[0] == s),
        DictSlot::STPhrases => assert(DictSlot::all()[1] == s),
        DictSlot::STPunctuations => assert(DictSlot::all()[2] == s),
        DictSlot::TSCharacters => assert(DictSlot::all()[3] == s),
        DictSlot::TSPhrases => assert(DictSlot::all()[4] == s),
        DictSlot::TSPunctuations => assert(DictSlot::all()[5] == s),
        DictSlot::TWPhrases => assert(DictSlot::all()[6] == s),
        DictSlot::TWPhrasesRev => assert(DictSlot::all()[7] == s),
        DictSlot::HKPhrases => assert(DictSlot::all()[8] == s),
        DictSlot::HKPhrasesRev => assert(DictSlot::all()[9] == s),
        DictSlot::TWVariants => assert(DictSlot::all()[10] == s),
        DictSlot::TWVariantsPhrases => assert(DictSlot::all()[11] == s),
        DictSlot::TWVariantsRev => assert(DictSlot::all()[12] == s),
        DictSlot::TWVariantsRevPhrases => assert(DictSlot::all()[13] == s),
        DictSlot::HKVariants => assert(DictSlot::all()[14] == s),
        DictSlot::HKVariantsPhrases => assert(DictSlot::all()[15] == s),
        DictSlot::HKVariantsRev => assert(DictSlot::all()[16] == s),
        DictSlot::HKVariantsRevPhrases => assert(DictSlot::all()[17] == s),
        DictSlot::JPSCharacters => assert(DictSlot::all()[18] == s),
        DictSlot::JPSCharactersRev => assert(DictSlot::all()[19] == s),
        DictSlot::JPSPhrases => assert(DictSlot::all()[20] == s),
    }
}

/// Slot names that are equal once trimmed and case-folded select the same
/// slot, or both select none.
pub proof fn law_slot_name_spelling(x: Seq<char>, y: Seq<char>)
    requires
        eq_ignore_ascii_case(trim(x), trim(y)),
    ensures
        DictSlot::of_name(x) == DictSlot::of_name(y),
{
    let tx = trim(x);
    let ty = trim(y);
    assert forall|n: Seq<char>| #[trigger] eq_ignore_ascii_case(tx, n) == eq_ignore_ascii_case(ty, n) by {
        crate::text::lemma_eq_ignore_case_trans(tx, ty, n);
    }
}

/// Every listed slot name is accepted for a custom dictionary and selects
/// that slot.
pub proof fn law_listed_slots_accepted(i: int)
    requires
        0 <= i < DictSlot::all().len(),
    ensures
        DictSlot::of_name(DictSlot::all()[i].name()) == Some(DictSlot::all()[i]),
{
    law_slot_name_parses_back(DictSlot::all()[i]);
}

/// Whether `cs` spells `name`, ignoring ASCII case.
fn slot_name_matches(cs: &Vec<char>, name: &str) -> (r: bool)
    ensures
        r == eq_ignore_ascii_case(cs@, name@),
{
    let n = chars_of(name);
    slice_eq_ignore_ascii_case(cs.as_slice(), n.as_slice())
}

/// How a custom dictionary specification changes its slot.
#[derive(Clone, Copy, Debug, PartialEq, Eq, Structural)]
pub enum CustomDictMode {
    /// Merge the pairs into the slot; a pair replaces an existing entry with
    /// the same key.
    Append,
    /// Empty the slot, then insert the pairs.
    Override,
}

/// A custom dictionary for one slot, with its mode.
#[derive(Debug)]
pub struct CustomDictSpec {
    /// The slot that the pairs go to.
    pub slot: DictSlot,
    /// Source / replacement pairs, applied in order.
    pub pairs: Vec<(String, String)>,
    /// How the pairs change the slot.
    pub mode: CustomDictMode,
}

/// A custom dictionary specification as a JavaScript caller writes it: the
/// slot by name, the pairs, and an optional mode name (`"Append"` /
/// `"append"` or `"Override"` / `"override"`; `"Append"` when absent).
#[derive(Debug)]
pub struct WasmCustomDictSpec {
    /// Slot name, as accepted by [`DictSlot::from_name_ignore_ascii_case`].
    pub slot: String,
    /// Source / replacement pairs.
    pub pairs: Vec<(String, String)>,
    /// Mode name; `None` means `"Append"`.
    pub mode: Option<String>,
}

/// The character sequences of a list of string pairs.
pub open spec fn pairs_view(p: Seq<(String, String)>) -> Seq<(Seq<char>, Seq<char>)> {
    p.map_values(|e: (String, String)| (e.0@, e.1@))
}

/// The mode that a mode name selects: only the four exact spellings count.
pub open spec fn mode_of_name(m: Seq<char>) -> Option<CustomDictMode> {
    if m == "Append"@ || m == "append"@ {
        Some(CustomDictMode::Append)
    } else if m == "Override"@ || m == "override"@ {
        Some(CustomDictMode::Override)
    } else {
        None
    }
}

/// The mode name in effect: the given one, or `"Append"`.
pub open spec fn mode_text(mode: Option<Seq<char>>) -> Seq<char> {
    match mode {
        Some(m) => m,
        None => "Append"@,
    }
}

/// The message for a slot name that selects no slot.
pub open spec fn invalid_slot_message(slot: Seq<char>) -> Seq<char> {
    "Invalid DictSlot: "@ + slot
}

/// The message for a mode name that selects no mode.
pub open spec fn invalid_mode_message(mode: Seq<char>) -> Seq<char> {
    "Invalid CustomDictMode: "@ + mode
}

/// The slot named by `slot`, or an error naming the rejected input.
pub fn parse_dict_slot(slot: &str) -> (r: Result<DictSlot, String>)
    ensures
        match r {
            Ok(s) => DictSlot::of_name(slot@) == Some(s),
            Err(e) => DictSlot::of_name(slot@) is None && e@ == invalid_slot_message(slot@),
        },
{
    match DictSlot::from_name_ignore_ascii_case(slot) {
        Some(s) => Ok(s),
        None => Err(concat_str("Invalid DictSlot: ", slot)),
    }
}

/// The mode named by `mode` (`"Append"` when absent), or an error naming the
/// rejected input.
pub fn parse_custom_dict_mode(mode: Option<&str>) -> (r: Result<CustomDictMode, String>)
    ensures
        ({
            let m = match mode {
                Some(x) => x@,
                None => "Append"@,
            };
            match r {
                Ok(md) => mode_of_name(m) == Some(md),
                Err(e) => mode_of_name(m) is None && e@ == invalid_mode_message(m),
            }
        }),
{
    let m: &str = match mode {
        Some(x) => x,
        None => "Append",
    };
    if str_eq(m, "Append") || str_eq(m, "append") {
        Ok(CustomDictMode::Append)
    } else if str_eq(m, "Override") || str_eq(m, "override") {
        Ok(CustomDictMode::Override)
    } else {
        Err(concat_str("Invalid CustomDictMode: ", m))
    }
}

/// The mode name of an optional owned string, as a string slice.
fn option_as_str(mode: &Option<String>) -> (r: Option<&str>)
    ensures
        match (mode, r) {
            (Some(m), Some(x)) => m@ == x@,
            (None, None) => true,
            _ => false,
        },
{
    match mode {
        Some(m) => Some(m.as_str()),
        None => None,
    }
}

/// The mode name of an optional owned string, as a character sequence.
pub open spec fn opt_view(mode: Option<String>) -> Option<Seq<char>> {
    match mode {
        Some(m) => Some(m@),
        None => None,
    }
}

/// The error of one specification: its slot is checked before its mode.
pub open spec fn spec_error(v: WasmCustomDictSpec) -> Option<Seq<char>> {
    let m = mode_text(opt_view(v.mode));
    if DictSlot::of_name(v.slot@) is None {
        Some(invalid_slot_message(v.slot@))
    } else if mode_of_name(m) is None {
        Some(invalid_mode_message(m))
    } else {
        None
    }
}

/// The backend specification that a checked one becomes.
pub open spec fn checked_spec(v: WasmCustomDictSpec) -> CustomDictSpec {
    CustomDictSpec {
        slot: DictSlot::of_name(v.slot@)->0,
        pairs: v.pairs,
        mode: mode_of_name(mode_text(opt_view(v.mode)))->0,
    }
}

impl CustomDictSpec {
    /// Checks a caller-supplied specification: the slot name is parsed first,
    /// then the mode; the pairs are kept as given.
    pub fn try_from(value: WasmCustomDictSpec) -> (r: Result<CustomDictSpec, String>)
        ensures
            ({
                let m = mode_text(opt_view(value.mode));
                match r {
                    Ok(spec) => {
                        &&& DictSlot::of_name(value.slot@) == Some(spec.slot)
                        &&& mode_of_name(m) == Some(spec.mode)
                        &&& spec.pairs@ == value.pairs@
                    },
                    Err(e) => match DictSlot::of_name(value.slot@) {
                        None => e@ == invalid_slot_message(value.slot@),
                        Some(_) => mode_of_name(m) is None && e@ == invalid_mode_message(m),
                    },
                }
            }),
            match r {
                Ok(spec) => spec_error(value) is None && spec == checked_spec(value),
                Err(e) => spec_error(value) == Some(e@),
            },
    {
        let slot = match parse_dict_slot(value.slot.as_str()) {
            Ok(s) => s,
            Err(e) => return Err(e),
        };
        let mode = match parse_custom_dict_mode(option_as_str(&value.mode)) {
            Ok(m) => m,
            Err(e) => return Err(e),
        };
        Ok(CustomDictSpec { slot, pairs: value.pairs, mode })
    }
}

} // verus!
