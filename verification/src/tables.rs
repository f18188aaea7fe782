//! Character tables for the optional passes: the DeToFu fallback table,
//! which replaces rare CJK extension characters by display-safe forms, and
//! the compatibility normalization tables.

use vstd::prelude::*;

verus! {

/// A CJK extension block. As a DeToFu level it names the highest block
/// that is considered safe to display: characters of later blocks are
/// replaced. Blocks are ordered from `ExtB` to `ExtI`.
#[derive(Clone, Copy, Debug, PartialEq, Eq, PartialOrd, Ord, Structural)]
pub enum DetofuLevel {
    /// CJK Extension B.
    ExtB,
    /// CJK Extension C.
    ExtC,
    /// CJK Extension D.
    ExtD,
    /// CJK Extension E.
    ExtE,
    /// CJK Extension F.
    ExtF,
    /// CJK Extension G.
    ExtG,
    /// CJK Extension H.
    ExtH,
    /// CJK Extension I.
    ExtI,
}

impl DetofuLevel {
    /// The level's rank: `ExtB` is 0, `ExtI` is 7.
    pub open spec fn rank(self) -> int {
        match self {
            DetofuLevel::ExtB => 0,
            DetofuLevel::ExtC => 1,
            DetofuLevel::ExtD => 2,
            DetofuLevel::ExtE => 3,
            DetofuLevel::ExtF => 4,
            DetofuLevel::ExtG => 5,
            DetofuLevel::ExtH => 6,
            DetofuLevel::ExtI => 7,
        }
    }

    /// The level's rank.
    pub fn rank_exec(&self) -> (r: u8)
        ensures
            r == self.rank(),
    {
        match self {
            DetofuLevel::ExtB => 0,
            DetofuLevel::ExtC => 1,
            DetofuLevel::ExtD => 2,
            DetofuLevel::ExtE => 3,
            DetofuLevel::ExtF => 4,
            DetofuLevel::ExtG => 5,
            DetofuLevel::ExtH => 6,
            DetofuLevel::ExtI => 7,
        }
    }
}

/// The DeToFu levels as JavaScript callers see them.
#[derive(Clone, Copy, Debug, PartialEq, Eq, Structural)]
pub enum DetofuLevelWasm {
    /// Treat CJK Extension B as the maximum supported extension level.
    ExtB,
    /// Treat CJK Extension C as the maximum supported extension level.
    ExtC,
    /// Treat CJK Extension D as the maximum supported extension level.
    ExtD,
    /// Treat CJK Extension E as the maximum supported extension level.
    ExtE,
    /// Treat CJK Extension F as the maximum supported extension level.
    ExtF,
    /// Treat CJK Extension G as the maximum supported extension level.
    ExtG,
    /// Treat CJK Extension H as the maximum supported extension level.
    ExtH,
    /// Treat CJK Extension I as the maximum supported extension level.
    ExtI,
}

impl DetofuLevelWasm {
    /// The numeric value that JavaScript sees (`ExtB` is 2, `ExtI` is 9).
    pub open spec fn id(self) -> u32 {
        match self {
            DetofuLevelWasm::ExtB => 2,
            DetofuLevelWasm::ExtC => 3,
            DetofuLevelWasm::ExtD => 4,
            DetofuLevelWasm::ExtE => 5,
            DetofuLevelWasm::ExtF => 6,
            DetofuLevelWasm::ExtG => 7,
            DetofuLevelWasm::ExtH => 8,
            DetofuLevelWasm::ExtI => 9,
        }
    }

    /// The backend level of the same name.
    pub open spec fn backend(self) -> DetofuLevel {
        match self {
            DetofuLevelWasm::ExtB => DetofuLevel::ExtB,
            DetofuLevelWasm::ExtC => DetofuLevel::ExtC,
            DetofuLevelWasm::ExtD => DetofuLevel::ExtD,
            DetofuLevelWasm::ExtE => DetofuLevel::ExtE,
            DetofuLevelWasm::ExtF => DetofuLevel::ExtF,
            DetofuLevelWasm::ExtG => DetofuLevel::ExtG,
            DetofuLevelWasm::ExtH => DetofuLevel::ExtH,
            DetofuLevelWasm::ExtI => DetofuLevel::ExtI,
        }
    }

    /// The numeric value that JavaScript sees.
    pub fn to_u32(&self) -> (r: u32)
        ensures
            r == self.id(),
    {
        match self {
            DetofuLevelWasm::ExtB => 2,
            DetofuLevelWasm::ExtC => 3,
            DetofuLevelWasm::ExtD => 4,
            DetofuLevelWasm::ExtE => 5,
            DetofuLevelWasm::ExtF => 6,
            DetofuLevelWasm::ExtG => 7,
            DetofuLevelWasm::ExtH => 8,
            DetofuLevelWasm::ExtI => 9,
        }
    }

    /// The backend level of the same name.
    pub fn into_backend(self) -> (r: DetofuLevel)
        ensures
            r == self.backend(),
            r.rank() + 2 == self.id(),
    {
        match self {
            DetofuLevelWasm::ExtB => DetofuLevel::ExtB,
            DetofuLevelWasm::ExtC => DetofuLevel::ExtC,
            DetofuLevelWasm::ExtD => DetofuLevel::ExtD,
            DetofuLevelWasm::ExtE => DetofuLevel::ExtE,
            DetofuLevelWasm::ExtF => DetofuLevel::ExtF,
            DetofuLevelWasm::ExtG => DetofuLevel::ExtG,
            DetofuLevelWasm::ExtH => DetofuLevel::ExtH,
            DetofuLevelWasm::ExtI => DetofuLevel::ExtI,
        }
    }
}

/// A character-to-character table.
pub struct CharTable {
    entries: Vec<(char, char)>,
}

/// The map that a list of character pairs describes, later pairs winning.
pub open spec fn char_pairs_map(e: Seq<(char, char)>) -> Map<char, char>
    decreases e.len(),
{
    if e.len() == 0 {
        Map::empty()
    } else {
        char_pairs_map(e.drop_last()).insert(e.last().0, e.last().1)
    }
}

/// `c` after the table: its mapping, or `c` itself when unmapped.
pub open spec fn map_char(m: Map<char, char>, c: char) -> char {
    if m.dom().contains(c) {
        m[c]
    } else {
        c
    }
}

/// The character pairs of a table text: characters two by two, source then
/// target (a last odd character is ignored).
pub open spec fn char_pairs_of(s: Seq<char>) -> Seq<(char, char)> {
    Seq::new((s.len() / 2) as nat, |i: int| (s[2 * i], s[2 * i + 1]))
}

/// The character pairs of a table text that comes in parts.
pub open spec fn pairs_of_parts(parts: Seq<Seq<char>>) -> Seq<(char, char)>
    decreases parts.len(),
{
    if parts.len() == 0 {
        Seq::empty()
    } else {
        pairs_of_parts(parts.drop_last()) + char_pairs_of(parts.last())
    }
}

/// Appends the character pairs of `text` to `out`.
pub fn push_char_pairs(out: &mut Vec<(char, char)>, text: &str)
    ensures
        final(out)@ == old(out)@ + char_pairs_of(text@),
{
    let s = crate::text::chars_of(text);
    let half = s.len() / 2;
    let ghost start = out@;
    assert(half * 2 <= s@.len()) by (nonlinear_arith)
        requires
            half == s@.len() / 2,
    ;
    let mut k: usize = 0;
    while k < half
        invariant
            half == s@.len() / 2,
            half * 2 <= s@.len(),
            s@.len() == s.len(),
            s@ == text@,
            k <= half,
            out@ == start + Seq::new(k as nat, |i: int| (s@[2 * i], s@[2 * i + 1])),
        decreases half - k,
    {
        assert(2 * k + 1 < s@.len());
        let a = s[2 * k];
        let b = s[2 * k + 1];
        out.push((a, b));
        assert(out@ =~= start + Seq::new((k + 1) as nat, |i: int| (s@[2 * i], s@[2 * i + 1])));
        k = k + 1;
    }
    assert(out@ =~= start + char_pairs_of(text@));
}

impl CharTable {
    /// The table's mapping.
    pub closed spec fn view(&self) -> Map<char, char> {
        char_pairs_map(self.entries@)
    }

    /// An empty table.
    pub fn empty() -> (r: CharTable)
        ensures
            r@ == Map::<char, char>::empty(),
    {
        CharTable { entries: Vec::new() }
    }

    /// A table built from pairs; a later pair for the same source wins.
    pub fn from_pairs(pairs: Vec<(char, char)>) -> (r: CharTable)
        ensures
            r@ == char_pairs_map(pairs@),
    {
        CharTable { entries: pairs }
    }

    /// The mapping of `c`, or `c` itself.
    pub fn map(&self, c: char) -> (r: char)
        ensures
            r == map_char(self@, c),
    {
        let mut i: usize = self.entries.len();
        assert(self.entries@.subrange(0, i as int) =~= self.entries@);
        while i > 0
            invariant
                i <= self.entries@.len(),
                map_char(self@, c) == map_char(char_pairs_map(self.entries@.subrange(0, i as int)), c),
            decreases i,
        {
            let e = self.entries[i - 1];
            proof {
                let sub = self.entries@.subrange(0, i as int);
                assert(sub.drop_last() =~= self.entries@.subrange(0, (i - 1) as int));
                assert(sub.last() == e);
            }
            if e.0 == c {
                return e.1;
            }
            i = i - 1;
        }
        proof {
            assert(self.entries@.subrange(0, 0) =~= Seq::<(char, char)>::empty());
        }
        c
    }
}

/// Whether `c` lies in a CJK Compatibility Ideographs block (U+F900..=U+FAFF
/// or U+2F800..=U+2FA1F).
pub open spec fn in_compat_block(c: char) -> bool {
    let u = c as int;
    (0xF900 <= u && u <= 0xFAFF) || (0x2F800 <= u && u <= 0x2FA1F)
}

/// `c` after CJK Compatibility Ideograph normalization: only characters of
/// the compatibility blocks are looked up.
pub open spec fn compat_char(m: Map<char, char>, c: char) -> char {
    if in_compat_block(c) {
        map_char(m, c)
    } else {
        c
    }
}

/// `c` after the extended compatibility table: ASCII is never changed.
pub open spec fn extended_char(m: Map<char, char>, c: char) -> char {
    if (c as int) < 0x80 {
        c
    } else {
        map_char(m, c)
    }
}

/// `c` after complete normalization: ASCII is never changed; a character
/// that the ideograph table changes takes that result, any other goes
/// through the extended table; no result is passed through the other table.
pub open spec fn full_compat_char(compat: Map<char, char>, extended: Map<char, char>, c: char) -> char {
    if (c as int) < 0x80 {
        c
    } else if compat_char(compat, c) != c {
        compat_char(compat, c)
    } else {
        map_char(extended, c)
    }
}

/// Which normalization a pass applies.
pub enum NormalizeMode {
    /// CJK Compatibility Ideographs only.
    Compat,
    /// The extended compatibility table only.
    Extended,
    /// Both, the ideograph table taking precedence.
    Full,
}

/// `c` after the pass `mode` with the two tables.
pub open spec fn normalize_char(mode: NormalizeMode, compat: Map<char, char>, extended: Map<char, char>, c: char) -> char {
    match mode {
        NormalizeMode::Compat => compat_char(compat, c),
        NormalizeMode::Extended => extended_char(extended, c),
        NormalizeMode::Full => full_compat_char(compat, extended, c),
    }
}

/// The text after the pass `mode`, character by character.
pub open spec fn normalize_chars(mode: NormalizeMode, compat: Map<char, char>, extended: Map<char, char>, s: Seq<char>) -> Seq<char> {
    s.map_values(|c: char| normalize_char(mode, compat, extended, c))
}

/// Every pass maps one character to one character, so the text keeps its
/// length; ASCII never changes; the ideograph pass changes only characters of
/// the compatibility blocks; and a character that no table maps stays as it is.
pub proof fn law_normalize_char_by_char(
    mode: NormalizeMode,
    compat: Map<char, char>,
    extended: Map<char, char>,
    s: Seq<char>,
    i: int,
)
    requires
        0 <= i < s.len(),
    ensures
        normalize_chars(mode, compat, extended, s).len() == s.len(),
        (s[i] as int) < 0x80 ==> normalize_chars(mode, compat, extended, s)[i] == s[i],
        !in_compat_block(s[i]) ==> normalize_chars(NormalizeMode::Compat, compat, extended, s)[i] == s[i],
        !compat.dom().contains(s[i]) && !extended.dom().contains(s[i]) ==> normalize_chars(
            mode,
            compat,
            extended,
            s,
        )[i] == s[i],
{
}

/// An ideograph table that leaves its own targets alone: every mapped
/// character of the blocks maps to a character that the table does not change.
pub open spec fn compat_targets_fixed(cm: Map<char, char>) -> bool {
    forall|c: char| #[trigger] cm.dom().contains(c) && in_compat_block(c) ==> compat_char(cm, cm[c]) == cm[c]
}

/// Ideograph normalization is idempotent for a table that leaves its own
/// targets alone.
pub proof fn law_normalize_compat_idempotent(cm: Map<char, char>, em: Map<char, char>, s: Seq<char>)
    requires
        compat_targets_fixed(cm),
    ensures
        normalize_chars(NormalizeMode::Compat, cm, em, normalize_chars(NormalizeMode::Compat, cm, em, s))
            == normalize_chars(NormalizeMode::Compat, cm, em, s),
{
    let once = normalize_chars(NormalizeMode::Compat, cm, em, s);
    assert forall|i: int| 0 <= i < once.len() implies #[trigger] compat_char(cm, once[i]) == once[i] by {
        let c = s[i];
        if in_compat_block(c) && cm.dom().contains(c) {
            assert(compat_char(cm, cm[c]) == cm[c]);
        }
    }
    assert(normalize_chars(NormalizeMode::Compat, cm, em, once) =~= once);
}

/// Two tables that do not interfere: the extended table maps no character
/// that the ideograph table changes, and the ideograph table changes no
/// target of the extended table.
pub open spec fn tables_compose(cm: Map<char, char>, em: Map<char, char>) -> bool {
    &&& forall|c: char| #[trigger] em.dom().contains(c) ==> compat_char(cm, em[c]) == em[c]
    &&& forall|c: char| #[trigger] cm.dom().contains(c) && in_compat_block(c) && cm[c] != c ==> !em.dom().contains(c)
}

/// For tables that do not interfere, complete normalization (the ideograph
/// table taking precedence, no chaining) equals the extended table followed
/// by the ideograph table.
pub proof fn law_full_is_extended_then_compat(cm: Map<char, char>, em: Map<char, char>, s: Seq<char>)
    requires
        tables_compose(cm, em),
    ensures
        normalize_chars(NormalizeMode::Full, cm, em, s) == normalize_chars(
            NormalizeMode::Compat,
            cm,
            em,
            normalize_chars(NormalizeMode::Extended, cm, em, s),
        ),
{
    let ext = normalize_chars(NormalizeMode::Extended, cm, em, s);
    assert forall|i: int| 0 <= i < s.len() implies #[trigger] full_compat_char(cm, em, s[i]) == compat_char(cm, ext[i]) by {
        let c = s[i];
        if (c as int) >= 0x80 {
            if compat_char(cm, c) != c {
                assert(cm.dom().contains(c) && in_compat_block(c) && cm[c] != c);
                assert(!em.dom().contains(c));
            } else if em.dom().contains(c) {
                assert(compat_char(cm, em[c]) == em[c]);
            }
        }
    }
    assert(normalize_chars(NormalizeMode::Full, cm, em, s) =~= normalize_chars(NormalizeMode::Compat, cm, em, ext));
}

/// `c` after the pass `mode`.
pub fn normalize_char_exec(mode: &NormalizeMode, compat: &CharTable, extended: &CharTable, c: char) -> (r: char)
    ensures
        r == normalize_char(*mode, compat@, extended@, c),
{
    let u = c as u32;
    let in_block = (0xF900 <= u && u <= 0xFAFF) || (0x2F800 <= u && u <= 0x2FA1F);
    match mode {
        NormalizeMode::Compat => {
            if in_block {
                compat.map(c)
            } else {
                c
            }
        },
        NormalizeMode::Extended => {
            if u < 0x80 {
                c
            } else {
                extended.map(c)
            }
        },
        NormalizeMode::Full => {
            if u < 0x80 {
                c
            } else {
                let x = if in_block {
                    compat.map(c)
                } else {
                    c
                };
                if x != c {
                    x
                } else {
                    extended.map(c)
                }
            }
        },
    }
}

/// A DeToFu fallback table: a rare character, its fallback, and the
/// extension block the rare character belongs to.
pub struct TofuTable {
    entries: Vec<(char, char, DetofuLevel)>,
}

/// The map that a list of fallback entries describes, later entries winning.
pub open spec fn tofu_entries_map(e: Seq<(char, char, DetofuLevel)>) -> Map<char, (char, DetofuLevel)>
    decreases e.len(),
{
    if e.len() == 0 {
        Map::empty()
    } else {
        tofu_entries_map(e.drop_last()).insert(e.last().0, (e.last().1, e.last().2))
    }
}

/// `c` after DeToFu at `level`: a character from U+20000 on whose entry
/// belongs to a block beyond `level` is replaced by its fallback; every other
/// character stays.
pub open spec fn detofu_char(t: Map<char, (char, DetofuLevel)>, level: DetofuLevel, c: char) -> char {
    if c as int >= 0x20000 && t.dom().contains(c) && t[c].1.rank() > level.rank() {
        t[c].0
    } else {
        c
    }
}

/// The text after DeToFu at `level`.
pub open spec fn detofu_chars(t: Map<char, (char, DetofuLevel)>, level: DetofuLevel, s: Seq<char>) -> Seq<char> {
    s.map_values(|c: char| detofu_char(t, level, c))
}

/// Characters before U+20000 never change; a character of the level's own
/// block, or of an earlier one, is kept; and a lower level replaces
/// everything that a higher level replaces, by the same fallback.
pub proof fn law_detofu_levels(t: Map<char, (char, DetofuLevel)>, a: DetofuLevel, b: DetofuLevel, c: char)
    ensures
        (c as int) < 0x20000 ==> detofu_char(t, a, c) == c,
        t.dom().contains(c) && t[c].1.rank() <= a.rank() ==> detofu_char(t, a, c) == c,
        a.rank() <= b.rank() && detofu_char(t, b, c) != c ==> detofu_char(t, a, c) == detofu_char(t, b, c),
{
}

/// The level that an extension letter names: `C` to `I` name their blocks,
/// any other letter stands for Extension B.
pub open spec fn level_of_letter(c: char) -> DetofuLevel {
    if c == 'C' {
        DetofuLevel::ExtC
    } else if c == 'D' {
        DetofuLevel::ExtD
    } else if c == 'E' {
        DetofuLevel::ExtE
    } else if c == 'F' {
        DetofuLevel::ExtF
    } else if c == 'G' {
        DetofuLevel::ExtG
    } else if c == 'H' {
        DetofuLevel::ExtH
    } else if c == 'I' {
        DetofuLevel::ExtI
    } else {
        DetofuLevel::ExtB
    }
}

/// The level that an extension letter names.
fn level_of_letter_exec(c: char) -> (r: DetofuLevel)
    ensures
        r == level_of_letter(c),
{
    if c == 'C' {
        DetofuLevel::ExtC
    } else if c == 'D' {
        DetofuLevel::ExtD
    } else if c == 'E' {
        DetofuLevel::ExtE
    } else if c == 'F' {
        DetofuLevel::ExtF
    } else if c == 'G' {
        DetofuLevel::ExtG
    } else if c == 'H' {
        DetofuLevel::ExtH
    } else if c == 'I' {
        DetofuLevel::ExtI
    } else {
        DetofuLevel::ExtB
    }
}

/// The fallback entries of a DeToFu text: characters three by three, the
/// rare character, its fallback and its extension letter.
pub open spec fn tofu_triples_of(s: Seq<char>) -> Seq<(char, char, DetofuLevel)> {
    Seq::new((s.len() / 3) as nat, |i: int| (s[3 * i], s[3 * i + 1], level_of_letter(s[3 * i + 2])))
}

/// The fallback entries of a DeToFu text that comes in parts.
pub open spec fn triples_of_parts(parts: Seq<Seq<char>>) -> Seq<(char, char, DetofuLevel)>
    decreases parts.len(),
{
    if parts.len() == 0 {
        Seq::empty()
    } else {
        triples_of_parts(parts.drop_last()) + tofu_triples_of(parts.last())
    }
}

/// Appends the fallback entries of `text` to `out`.
pub fn push_tofu_triples(out: &mut Vec<(char, char, DetofuLevel)>, text: &str)
    ensures
        final(out)@ == old(out)@ + tofu_triples_of(text@),
{
    let s = crate::text::chars_of(text);
    let third = s.len() / 3;
    let ghost start = out@;
    assert(third * 3 <= s@.len()) by (nonlinear_arith)
        requires
            third == s@.len() / 3,
    ;
    let mut k: usize = 0;
    while k < third
        invariant
            third == s@.len() / 3,
            third * 3 <= s@.len(),
            s@.len() == s.len(),
            s@ == text@,
            k <= third,
            out@ == start + Seq::new(k as nat, |i: int| (s@[3 * i], s@[3 * i + 1], level_of_letter(s@[3 * i + 2]))),
        decreases third - k,
    {
        assert(3 * k + 2 < s@.len());
        let level = level_of_letter_exec(s[3 * k + 2]);
        out.push((s[3 * k], s[3 * k + 1], level));
        assert(out@ =~= start + Seq::new((k + 1) as nat, |i: int| (s@[3 * i], s@[3 * i + 1], level_of_letter(s@[3 * i + 2]))));
        k = k + 1;
    }
    assert(out@ =~= start + tofu_triples_of(text@));
}

impl TofuTable {
    /// The table's entries by rare character.
    pub closed spec fn view(&self) -> Map<char, (char, DetofuLevel)> {
        tofu_entries_map(self.entries@)
    }

    /// An empty table.
    pub fn empty() -> (r: TofuTable)
        ensures
            r@ == Map::<char, (char, DetofuLevel)>::empty(),
    {
        TofuTable { entries: Vec::new() }
    }

    /// A table built from entries; a later entry for the same character wins.
    pub fn from_entries(entries: Vec<(char, char, DetofuLevel)>) -> (r: TofuTable)
        ensures
            r@ == tofu_entries_map(entries@),
    {
        TofuTable { entries }
    }

    /// `c` after DeToFu at `level`.
    pub fn detofu_char(&self, level: DetofuLevel, c: char) -> (r: char)
        ensures
            r == detofu_char(self@, level, c),
    {
        if (c as u32) < 0x20000 {
            return c;
        }
        let mut i: usize = self.entries.len();
        assert(self.entries@.subrange(0, i as int) =~= self.entries@);
        assert(c as int >= 0x20000);
        while i > 0
            invariant
                i <= self.entries@.len(),
                c as int >= 0x20000,
                detofu_char(self@, level, c) == detofu_char(
                    tofu_entries_map(self.entries@.subrange(0, i as int)),
                    level,
                    c,
                ),
            decreases i,
        {
            let e = self.entries[i - 1];
            proof {
                let sub = self.entries@.subrange(0, i as int);
                assert(sub.drop_last() =~= self.entries@.subrange(0, (i - 1) as int));
                assert(sub.last() == e);
            }
            if e.0 == c {
                if e.2.rank_exec() > level.rank_exec() {
                    return e.1;
                } else {
                    return c;
                }
            }
            i = i - 1;
        }
        proof {
            assert(self.entries@.subrange(0, 0) =~= Seq::<(char, char, DetofuLevel)>::empty());
        }
        c
    }
}

} // verus!
