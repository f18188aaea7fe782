//! The full set of conversion dictionaries, one per slot, and the way custom
//! dictionary specifications change it.

use vstd::prelude::*;
use crate::lexicon::{insert_all, Lexicon};
use crate::slot::{pairs_view, CustomDictMode, CustomDictSpec, DictSlot};

verus! {

/// The phrase maps of all slots, indexed by [`DictSlot::index`].
pub type SlotMaps = Seq<Map<Seq<char>, Seq<char>>>;

/// The slot maps after one custom dictionary specification: `Append` inserts
/// the pairs into the slot, `Override` replaces the slot by the pairs alone.
pub open spec fn apply_spec(d: SlotMaps, s: CustomDictSpec) -> SlotMaps {
    let i = s.slot.index();
    let base = match s.mode {
        CustomDictMode::Append => d[i],
        CustomDictMode::Override => Map::empty(),
    };
    d.update(i, insert_all(base, pairs_view(s.pairs@)))
}

/// The slot maps after the specifications, applied in order.
pub open spec fn apply_specs(d: SlotMaps, specs: Seq<CustomDictSpec>) -> SlotMaps
    decreases specs.len(),
{
    if specs.len() == 0 {
        d
    } else {
        apply_spec(apply_specs(d, specs.drop_last()), specs.last())
    }
}


/// An `Append` specification changes only its slot, where each key takes the
/// value of the last pair with that key and every other entry stays.
pub proof fn law_append_merges(d: SlotMaps, s: CustomDictSpec, t: DictSlot, k: Seq<char>)
    requires
        d.len() == 21,
        s.mode == CustomDictMode::Append,
    ensures
        t != s.slot ==> apply_spec(d, s)[t.index()] == d[t.index()],
        apply_spec(d, s)[s.slot.index()] == insert_all(d[s.slot.index()], pairs_view(s.pairs@)),
        d[s.slot.index()].dom().contains(k) ==> apply_spec(d, s)[s.slot.index()].dom().contains(k),
        (forall|i: int| 0 <= i < s.pairs@.len() ==> #[trigger] s.pairs@[i].0@ != k) ==> apply_spec(d, s)[s.slot.index()][k] == d[s.slot.index()][k],
{
    crate::slot::law_all_slots_complete(s.slot, t);
    let pv = pairs_view(s.pairs@);
    crate::lexicon::law_insert_all_last_wins(d[s.slot.index()], pv, k);
    if forall|i: int| 0 <= i < s.pairs@.len() ==> #[trigger] s.pairs@[i].0@ != k {
        assert forall|i: int| 0 <= i < pv.len() implies #[trigger] pv[i].0 != k by {
            assert(pv[i].0 == s.pairs@[i].0@);
        }
    }
}

/// An `Override` specification empties its slot first: afterwards the slot
/// holds exactly the keys of the pairs, and the other slots are unchanged.
pub proof fn law_override_replaces(d: SlotMaps, s: CustomDictSpec, t: DictSlot, k: Seq<char>)
    requires
        d.len() == 21,
        s.mode == CustomDictMode::Override,
    ensures
        t != s.slot ==> apply_spec(d, s)[t.index()] == d[t.index()],
        apply_spec(d, s)[s.slot.index()] == insert_all(Map::empty(), pairs_view(s.pairs@)),
        apply_spec(d, s)[s.slot.index()].dom().contains(k) <==> exists|i: int|
            0 <= i < s.pairs@.len() && #[trigger] s.pairs@[i].0@ == k,
{
    crate::slot::law_all_slots_complete(t, s.slot);
    let pv = pairs_view(s.pairs@);
    crate::lexicon::law_insert_all_last_wins(Map::empty(), pv, k);
    if exists|i: int| 0 <= i < s.pairs@.len() && #[trigger] s.pairs@[i].0@ == k {
        let i = choose|i: int| 0 <= i < s.pairs@.len() && #[trigger] s.pairs@[i].0@ == k;
        assert(pv[i].0 == k);
    }
    if exists|i: int| 0 <= i < pv.len() && #[trigger] pv[i].0 == k {
        let i = choose|i: int| 0 <= i < pv.len() && #[trigger] pv[i].0 == k;
        assert(s.pairs@[i].0@ == k);
    }
}

/// Specifications are applied in array order: applying `a` followed by `b`
/// is applying `a`, then `b`.
pub proof fn law_specs_in_order(d: SlotMaps, a: Seq<CustomDictSpec>, b: Seq<CustomDictSpec>)
    ensures
        apply_specs(d, a + b) == apply_specs(apply_specs(d, a), b),
    decreases b.len(),
{
    if b.len() == 0 {
        assert(a + b =~= a);
    } else {
        assert((a + b).drop_last() =~= a + b.drop_last());
        assert((a + b).last() == b.last());
        law_specs_in_order(d, a, b.drop_last());
    }
}

/// The dictionaries that a converter uses, one per slot.
pub struct DictionaryMaxlength {
    slots: Vec<Lexicon>,
}

impl DictionaryMaxlength {
    /// The phrase map of every slot, indexed by [`DictSlot::index`].
    pub closed spec fn view(&self) -> SlotMaps {
        Seq::new(self.slots@.len(), |i: int| self.slots@[i]@)
    }

    /// One lexicon per slot, each well formed.
    pub closed spec fn wf(&self) -> bool {
        &&& self.slots@.len() == 21
        &&& forall|i: int| 0 <= i < 21 ==> #[trigger] self.slots@[i].wf()
    }

    /// The phrase map of one slot.
    pub open spec fn slot_map(&self, s: DictSlot) -> Map<Seq<char>, Seq<char>> {
        self@[s.index()]
    }

    /// The bound on key length recorded for one slot.
    pub closed spec fn slot_max_len(&self, s: DictSlot) -> nat {
        self.slots@[s.index()].max_key_len()
    }

    /// A dictionary in which every slot is empty.
    pub fn empty() -> (r: DictionaryMaxlength)
        ensures
            r.wf(),
            r@ == Seq::new(21, |i: int| Map::<Seq<char>, Seq<char>>::empty()),
    {
        let mut slots: Vec<Lexicon> = Vec::new();
        let mut i: usize = 0;
        while i < 21
            invariant
                i <= 21,
                slots@.len() == i,
                forall|j: int| 0 <= j < i ==> #[trigger] slots@[j].wf(),
                forall|j: int| 0 <= j < i ==> #[trigger] slots@[j]@ == Map::<Seq<char>, Seq<char>>::empty(),
            decreases 21 - i,
        {
            slots.push(Lexicon::new());
            i = i + 1;
        }
        let r = DictionaryMaxlength { slots };
        assert(r@ =~= Seq::new(21, |i: int| Map::<Seq<char>, Seq<char>>::empty()));
        r
    }

    /// The bundled dictionaries.
    pub fn from_embedded() -> (r: DictionaryMaxlength)
        ensures
            r.wf(),
            r@ == crate::bundled::bundled_maps(),
    {
        let mut slots: Vec<Lexicon> = Vec::new();
        let mut i: usize = 0;
        while i < 21
            invariant
                i <= 21,
                slots@.len() == i,
                forall|j: int| 0 <= j < i ==> #[trigger] slots@[j].wf(),
                forall|j: int| 0 <= j < i ==> #[trigger] slots@[j]@ == crate::bundled::bundled_maps()[j],
            decreases 21 - i,
        {
            slots.push(crate::bundled::bundled_lexicon(i));
            i = i + 1;
        }
        let r = DictionaryMaxlength { slots };
        assert(r@ =~= crate::bundled::bundled_maps());
        r
    }

    /// The dictionary of one slot.
    pub fn lexicon(&self, s: DictSlot) -> (r: &Lexicon)
        requires
            self.wf(),
        ensures
            r.wf(),
            r@ == self.slot_map(s),
            r.max_key_len() == self.slot_max_len(s),
    {
        let i = slot_index(s);
        &self.slots[i]
    }

    /// Applies one custom dictionary specification.
    pub fn apply_custom_dict(&mut self, spec: &CustomDictSpec)
        requires
            old(self).wf(),
        ensures
            final(self).wf(),
            final(self)@ == apply_spec(old(self)@, *spec),
    {
        let i = slot_index(spec.slot);
        let ghost old_view = self@;
        let mut lex = self.slots.remove(i);
        match spec.mode {
            CustomDictMode::Append => {},
            CustomDictMode::Override => {
                lex.clear();
            },
        }
        lex.insert_pairs(&spec.pairs);
        self.slots.insert(i, lex);
        proof {
            assert forall|j: int| 0 <= j < 21 implies #[trigger] self.slots@[j].wf() by {
                if j != i {
                    assert(self.slots@[j] == old(self).slots@[j]);
                }
            }
            assert(self@ =~= apply_spec(old_view, *spec)) by {
                assert forall|j: int| 0 <= j < 21 implies #[trigger] self@[j] == apply_spec(old_view, *spec)[j] by {
                    if j != i {
                        assert(self.slots@[j] == old(self).slots@[j]);
                    }
                }
            }
        }
    }

    /// Applies custom dictionary specifications in order.
    pub fn with_custom_dicts(self, specs: &[CustomDictSpec]) -> (r: DictionaryMaxlength)
        requires
            self.wf(),
        ensures
            r.wf(),
            r@ == apply_specs(self@, specs@),
    {
        let ghost start = self@;
        let mut d = self;
        let mut k: usize = 0;
        while k < specs.len()
            invariant
                d.wf(),
                k <= specs@.len(),
                d@ == apply_specs(start, specs@.subrange(0, k as int)),
            decreases specs.len() - k,
        {
            d.apply_custom_dict(&specs[k]);
            proof {
                let sub = specs@.subrange(0, (k + 1) as int);
                assert(sub.drop_last() == specs@.subrange(0, k as int));
                assert(sub.last() == specs@[k as int]);
            }
            k = k + 1;
        }
        proof {
            assert(specs@.subrange(0, specs@.len() as int) == specs@);
        }
        d
    }
}

/// The position of a slot in the dictionary.
pub fn slot_index(s: DictSlot) -> (r: usize)
    ensures
        r == s.index(),
        r < 21,
{
    match s {
        DictSlot::STCharacters => 0,
        DictSlot::STPhrases => 1,
        DictSlot::TSCharacters => 2,
        DictSlot::TSPhrases => 3,
        DictSlot::TWPhrases => 4,
        DictSlot::TWPhrasesRev => 5,
        DictSlot::HKPhrases => 6,
        DictSlot::HKPhrasesRev => 7,
        DictSlot::TWVariants => 8,
        DictSlot::TWVariantsPhrases => 9,
        DictSlot::TWVariantsRev => 10,
        DictSlot::TWVariantsRevPhrases => 11,
        DictSlot::HKVariants => 12,
        DictSlot::HKVariantsPhrases => 13,
        DictSlot::HKVariantsRev => 14,
        DictSlot::HKVariantsRevPhrases => 15,
        DictSlot::JPSCharacters => 16,
        DictSlot::JPSCharactersRev => 17,
        DictSlot::JPSPhrases => 18,
        DictSlot::STPunctuations => 19,
        DictSlot::TSPunctuations => 20,
    }
}

} // verus!
