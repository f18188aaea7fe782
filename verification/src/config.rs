//! Conversion configurations: the backend configuration set with its names
//! and stable numeric IDs, and the enum that JavaScript callers see.

use vstd::prelude::*;
use crate::text::{char_eq_ignore_ascii_case, chars_of, eq_ignore_ascii_case, slice_eq_ignore_ascii_case};

verus! {

broadcast use vstd::string::group_string_axioms;

/// An OpenCC conversion configuration.
#[derive(Clone, Copy, Debug, PartialEq, Eq, Structural)]
pub enum OpenccConfig {
    /// Simplified Chinese to Traditional Chinese.
    S2t,
    /// Simplified Chinese to Traditional Chinese (Taiwan).
    S2tw,
    /// Simplified Chinese to Traditional Chinese (Taiwan, with phrases).
    S2twp,
    /// Simplified Chinese to Traditional Chinese (Hong Kong).
    S2hk,
    /// Traditional Chinese to Simplified Chinese.
    T2s,
    /// Traditional Chinese to Traditional Chinese (Taiwan).
    T2tw,
    /// Traditional Chinese to Traditional Chinese (Taiwan, with phrases).
    T2twp,
    /// Traditional Chinese to Traditional Chinese (Hong Kong).
    T2hk,
    /// Traditional Chinese (Taiwan) to Simplified Chinese.
    Tw2s,
    /// Traditional Chinese (Taiwan) to Simplified Chinese, with phrase conversion.
    Tw2sp,
    /// Traditional Chinese (Taiwan) to generic Traditional Chinese.
    Tw2t,
    /// Traditional Chinese (Taiwan) to generic Traditional Chinese, with phrases.
    Tw2tp,
    /// Traditional Chinese (Hong Kong) to Simplified Chinese.
    Hk2s,
    /// Traditional Chinese (Hong Kong) to generic Traditional Chinese.
    Hk2t,
    /// Japanese Shinjitai forms to Traditional Chinese forms.
    Jp2t,
    /// Traditional Chinese forms to Japanese Shinjitai forms.
    T2jp,
    /// Simplified Chinese to Hong Kong Traditional Chinese, with phrase conversion.
    S2hkp,
    /// Hong Kong Traditional Chinese to Simplified Chinese, with phrase conversion.
    Hk2sp,
    /// Traditional Chinese to Hong Kong Traditional Chinese, with phrase conversion.
    T2hkp,
    /// Hong Kong Traditional Chinese to generic Traditional Chinese, with phrase conversion.
    Hk2tp,
}

impl OpenccConfig {
    /// The configuration's name, such as `s2t`.
    pub open spec fn name(self) -> Seq<char> {
        match self {
            OpenccConfig::S2t => "s2t"@,
            OpenccConfig::S2tw => "s2tw"@,
            OpenccConfig::S2twp => "s2twp"@,
            OpenccConfig::S2hk => "s2hk"@,
            OpenccConfig::T2s => "t2s"@,
            OpenccConfig::T2tw => "t2tw"@,
            OpenccConfig::T2twp => "t2twp"@,
            OpenccConfig::T2hk => "t2hk"@,
            OpenccConfig::Tw2s => "tw2s"@,
            OpenccConfig::Tw2sp => "tw2sp"@,
            OpenccConfig::Tw2t => "tw2t"@,
            OpenccConfig::Tw2tp => "tw2tp"@,
            OpenccConfig::Hk2s => "hk2s"@,
            OpenccConfig::Hk2t => "hk2t"@,
            OpenccConfig::Jp2t => "jp2t"@,
            OpenccConfig::T2jp => "t2jp"@,
            OpenccConfig::S2hkp => "s2hkp"@,
            OpenccConfig::Hk2sp => "hk2sp"@,
            OpenccConfig::T2hkp => "t2hkp"@,
            OpenccConfig::Hk2tp => "hk2tp"@,
        }
    }

    /// The configuration's stable numeric ID.
    pub open spec fn id(self) -> u32 {
        match self {
            OpenccConfig::S2t => 1,
            OpenccConfig::S2tw => 2,
            OpenccConfig::S2twp => 3,
            OpenccConfig::S2hk => 4,
            OpenccConfig::T2s => 5,
            OpenccConfig::T2tw => 6,
            OpenccConfig::T2twp => 7,
            OpenccConfig::T2hk => 8,
            OpenccConfig::Tw2s => 9,
            OpenccConfig::Tw2sp => 10,
            OpenccConfig::Tw2t => 11,
            OpenccConfig::Tw2tp => 12,
            OpenccConfig::Hk2s => 13,
            OpenccConfig::Hk2t => 14,
            OpenccConfig::Jp2t => 15,
            OpenccConfig::T2jp => 16,
            OpenccConfig::S2hkp => 17,
            OpenccConfig::Hk2sp => 18,
            OpenccConfig::T2hkp => 19,
            OpenccConfig::Hk2tp => 20,
        }
    }

    /// The configuration whose ID is `id`, if any.
    pub open spec fn of_id(id: u32) -> Option<OpenccConfig> {
        if id == 1 {
            Some(OpenccConfig::S2t)
        } else if id == 2 {
            Some(OpenccConfig::S2tw)
        } else if id == 3 {
            Some(OpenccConfig::S2twp)
        } else if id == 4 {
            Some(OpenccConfig::S2hk)
        } else if id == 5 {
            Some(OpenccConfig::T2s)
        } else if id == 6 {
            Some(OpenccConfig::T2tw)
        } else if id == 7 {
            Some(OpenccConfig::T2twp)
        } else if id == 8 {
            Some(OpenccConfig::T2hk)
        } else if id == 9 {
            Some(OpenccConfig::Tw2s)
        } else if id == 10 {
            Some(OpenccConfig::Tw2sp)
        } else if id == 11 {
            Some(OpenccConfig::Tw2t)
        } else if id == 12 {
            Some(OpenccConfig::Tw2tp)
        } else if id == 13 {
            Some(OpenccConfig::Hk2s)
        } else if id == 14 {
            Some(OpenccConfig::Hk2t)
        } else if id == 15 {
            Some(OpenccConfig::Jp2t)
        } else if id == 16 {
            Some(OpenccConfig::T2jp)
        } else if id == 17 {
            Some(OpenccConfig::S2hkp)
        } else if id == 18 {
            Some(OpenccConfig::Hk2sp)
        } else if id == 19 {
            Some(OpenccConfig::T2hkp)
        } else if id == 20 {
            Some(OpenccConfig::Hk2tp)
        } else {
            None
        }
    }

    /// The configuration named `s`, ignoring ASCII case, if any.
    pub open spec fn of_name(s: Seq<char>) -> Option<OpenccConfig> {
        if eq_ignore_ascii_case(s, OpenccConfig::S2t.name()) {
            Some(OpenccConfig::S2t)
        } else if eq_ignore_ascii_case(s, OpenccConfig::S2tw.name()) {
            Some(OpenccConfig::S2tw)
        } else if eq_ignore_ascii_case(s, OpenccConfig::S2twp.name()) {
            Some(OpenccConfig::S2twp)
        } else if eq_ignore_ascii_case(s, OpenccConfig::S2hk.name()) {
            Some(OpenccConfig::S2hk)
        } else if eq_ignore_ascii_case(s, OpenccConfig::T2s.name()) {
            Some(OpenccConfig::T2s)
        } else if eq_ignore_ascii_case(s, OpenccConfig::T2tw.name()) {
            Some(OpenccConfig::T2tw)
        } else if eq_ignore_ascii_case(s, OpenccConfig::T2twp.name()) {
            Some(OpenccConfig::T2twp)
        } else if eq_ignore_ascii_case(s, OpenccConfig::T2hk.name()) {
            Some(OpenccConfig::T2hk)
        } else if eq_ignore_ascii_case(s, OpenccConfig::Tw2s.name()) {
            Some(OpenccConfig::Tw2s)
        } else if eq_ignore_ascii_case(s, OpenccConfig::Tw2sp.name()) {
            Some(OpenccConfig::Tw2sp)
        } else if eq_ignore_ascii_case(s, OpenccConfig::Tw2t.name()) {
            Some(OpenccConfig::Tw2t)
        } else if eq_ignore_ascii_case(s, OpenccConfig::Tw2tp.name()) {
            Some(OpenccConfig::Tw2tp)
        } else if eq_ignore_ascii_case(s, OpenccConfig::Hk2s.name()) {
            Some(OpenccConfig::Hk2s)
        } else if eq_ignore_ascii_case(s, OpenccConfig::Hk2t.name()) {
            Some(OpenccConfig::Hk2t)
        } else if eq_ignore_ascii_case(s, OpenccConfig::Jp2t.name()) {
            Some(OpenccConfig::Jp2t)
        } else if eq_ignore_ascii_case(s, OpenccConfig::T2jp.name()) {
            Some(OpenccConfig::T2jp)
        } else if eq_ignore_ascii_case(s, OpenccConfig::S2hkp.name()) {
            Some(OpenccConfig::S2hkp)
        } else if eq_ignore_ascii_case(s, OpenccConfig::Hk2sp.name()) {
            Some(OpenccConfig::Hk2sp)
        } else if eq_ignore_ascii_case(s, OpenccConfig::T2hkp.name()) {
            Some(OpenccConfig::T2hkp)
        } else if eq_ignore_ascii_case(s, OpenccConfig::Hk2tp.name()) {
            Some(OpenccConfig::Hk2tp)
        } else {
            None
        }
    }

    /// Every configuration, in the documented order.
    pub open spec fn all() -> Seq<OpenccConfig> {
        seq![
            OpenccConfig::S2t,
            OpenccConfig::S2tw,
            OpenccConfig::S2twp,
            OpenccConfig::S2hk,
            OpenccConfig::S2hkp,
            OpenccConfig::T2s,
            OpenccConfig::T2tw,
            OpenccConfig::T2twp,
            OpenccConfig::T2hk,
            OpenccConfig::T2hkp,
            OpenccConfig::Tw2s,
            OpenccConfig::Tw2sp,
            OpenccConfig::Tw2t,
            OpenccConfig::Tw2tp,
            OpenccConfig::Hk2s,
            OpenccConfig::Hk2sp,
            OpenccConfig::Hk2t,
            OpenccConfig::Hk2tp,
            OpenccConfig::Jp2t,
            OpenccConfig::T2jp,
        ]
    }

    /// The configuration's name.
    pub fn as_str(&self) -> (r: &'static str)
        ensures
            r@ == self.name(),
    {
        match self {
            OpenccConfig::S2t => "s2t",
            OpenccConfig::S2tw => "s2tw",
            OpenccConfig::S2twp => "s2twp",
            OpenccConfig::S2hk => "s2hk",
            OpenccConfig::T2s => "t2s",
            OpenccConfig::T2tw => "t2tw",
            OpenccConfig::T2twp => "t2twp",
            OpenccConfig::T2hk => "t2hk",
            OpenccConfig::Tw2s => "tw2s",
            OpenccConfig::Tw2sp => "tw2sp",
            OpenccConfig::Tw2t => "tw2t",
            OpenccConfig::Tw2tp => "tw2tp",
            OpenccConfig::Hk2s => "hk2s",
            OpenccConfig::Hk2t => "hk2t",
            OpenccConfig::Jp2t => "jp2t",
            OpenccConfig::T2jp => "t2jp",
            OpenccConfig::S2hkp => "s2hkp",
            OpenccConfig::Hk2sp => "hk2sp",
            OpenccConfig::T2hkp => "t2hkp",
            OpenccConfig::Hk2tp => "hk2tp",
        }
    }

    /// The configuration's stable numeric ID.
    pub fn to_ffi(&self) -> (r: u32)
        ensures
            r == self.id(),
    {
        match self {
            OpenccConfig::S2t => 1,
            OpenccConfig::S2tw => 2,
            OpenccConfig::S2twp => 3,
            OpenccConfig::S2hk => 4,
            OpenccConfig::T2s => 5,
            OpenccConfig::T2tw => 6,
            OpenccConfig::T2twp => 7,
            OpenccConfig::T2hk => 8,
            OpenccConfig::Tw2s => 9,
            OpenccConfig::Tw2sp => 10,
            OpenccConfig::Tw2t => 11,
            OpenccConfig::Tw2tp => 12,
            OpenccConfig::Hk2s => 13,
            OpenccConfig::Hk2t => 14,
            OpenccConfig::Jp2t => 15,
            OpenccConfig::T2jp => 16,
            OpenccConfig::S2hkp => 17,
            OpenccConfig::Hk2sp => 18,
            OpenccConfig::T2hkp => 19,
            OpenccConfig::Hk2tp => 20,
        }
    }

    /// The configuration whose numeric ID is `id`; `None` for an unknown ID.
    pub fn from_ffi(id: u32) -> (r: Option<OpenccConfig>)
        ensures
            r == OpenccConfig::of_id(id),
    {
        match id {
            1 => Some(OpenccConfig::S2t),
            2 => Some(OpenccConfig::S2tw),
            3 => Some(OpenccConfig::S2twp),
            4 => Some(OpenccConfig::S2hk),
            5 => Some(OpenccConfig::T2s),
            6 => Some(OpenccConfig::T2tw),
            7 => Some(OpenccConfig::T2twp),
            8 => Some(OpenccConfig::T2hk),
            9 => Some(OpenccConfig::Tw2s),
            10 => Some(OpenccConfig::Tw2sp),
            11 => Some(OpenccConfig::Tw2t),
            12 => Some(OpenccConfig::Tw2tp),
            13 => Some(OpenccConfig::Hk2s),
            14 => Some(OpenccConfig::Hk2t),
            15 => Some(OpenccConfig::Jp2t),
            16 => Some(OpenccConfig::T2jp),
            17 => Some(OpenccConfig::S2hkp),
            18 => Some(OpenccConfig::Hk2sp),
            19 => Some(OpenccConfig::T2hkp),
            20 => Some(OpenccConfig::Hk2tp),
            _ => None,
        }
    }

    /// Parses a configuration name such as `"s2t"` or `"T2JP"`; ASCII case is
    /// ignored. Returns `None` for an unknown name.
    pub fn parse(s: &str) -> (r: Option<OpenccConfig>)
        ensures
            r == OpenccConfig::of_name(s@),
    {
        let cs = chars_of(s);
        if name_matches(&cs, "s2t") {
            return Some(OpenccConfig::S2t);
        }
        if name_matches(&cs, "s2tw") {
            return Some(OpenccConfig::S2tw);
        }
        if name_matches(&cs, "s2twp") {
            return Some(OpenccConfig::S2twp);
        }
        if name_matches(&cs, "s2hk") {
            return Some(OpenccConfig::S2hk);
        }
        if name_matches(&cs, "t2s") {
            return Some(OpenccConfig::T2s);
        }
        if name_matches(&cs, "t2tw") {
            return Some(OpenccConfig::T2tw);
        }
        if name_matches(&cs, "t2twp") {
            return Some(OpenccConfig::T2twp);
        }
        if name_matches(&cs, "t2hk") {
            return Some(OpenccConfig::T2hk);
        }
        if name_matches(&cs, "tw2s") {
            return Some(OpenccConfig::Tw2s);
        }
        if name_matches(&cs, "tw2sp") {
            return Some(OpenccConfig::Tw2sp);
        }
        if name_matches(&cs, "tw2t") {
            return Some(OpenccConfig::Tw2t);
        }
        if name_matches(&cs, "tw2tp") {
            return Some(OpenccConfig::Tw2tp);
        }
        if name_matches(&cs, "hk2s") {
            return Some(OpenccConfig::Hk2s);
        }
        if name_matches(&cs, "hk2t") {
            return Some(OpenccConfig::Hk2t);
        }
        if name_matches(&cs, "jp2t") {
            return Some(OpenccConfig::Jp2t);
        }
        if name_matches(&cs, "t2jp") {
            return Some(OpenccConfig::T2jp);
        }
        if name_matches(&cs, "s2hkp") {
            return Some(OpenccConfig::S2hkp);
        }
        if name_matches(&cs, "hk2sp") {
            return Some(OpenccConfig::Hk2sp);
        }
        if name_matches(&cs, "t2hkp") {
            return Some(OpenccConfig::T2hkp);
        }
        if name_matches(&cs, "hk2tp") {
            return Some(OpenccConfig::Hk2tp);
        }
        None
    }

    /// Whether `s` names a configuration (ASCII case ignored).
    pub fn is_valid_config(s: &str) -> (r: bool)
        ensures
            r == OpenccConfig::of_name(s@) is Some,
    {
        OpenccConfig::parse(s).is_some()
    }

    /// Every configuration, in the documented order.
    pub fn all_configs() -> (r: Vec<OpenccConfig>)
        ensures
            r@ == OpenccConfig::all(),
    {
        let mut v: Vec<OpenccConfig> = Vec::new();
        v.push(OpenccConfig::S2t);
        v.push(OpenccConfig::S2tw);
        v.push(OpenccConfig::S2twp);
        v.push(OpenccConfig::S2hk);
        v.push(OpenccConfig::S2hkp);
        v.push(OpenccConfig::T2s);
        v.push(OpenccConfig::T2tw);
        v.push(OpenccConfig::T2twp);
        v.push(OpenccConfig::T2hk);
        v.push(OpenccConfig::T2hkp);
        v.push(OpenccConfig::Tw2s);
        v.push(OpenccConfig::Tw2sp);
        v.push(OpenccConfig::Tw2t);
        v.push(OpenccConfig::Tw2tp);
        v.push(OpenccConfig::Hk2s);
        v.push(OpenccConfig::Hk2sp);
        v.push(OpenccConfig::Hk2t);
        v.push(OpenccConfig::Hk2tp);
        v.push(OpenccConfig::Jp2t);
        v.push(OpenccConfig::T2jp);
        assert(v@ == OpenccConfig::all());
        v
    }
}


/// Characters with no ASCII capital letter among them.
pub open spec fn no_ascii_upper(s: Seq<char>) -> bool {
    forall|i: int| 0 <= i < s.len() ==> !('A' <= #[trigger] s[i] && s[i] <= 'Z')
}

/// Two sequences without ASCII capitals that are equal up to ASCII case are equal.
pub proof fn lemma_eq_ignore_case_lowercase(a: Seq<char>, b: Seq<char>)
    requires
        no_ascii_upper(a),
        no_ascii_upper(b),
        eq_ignore_ascii_case(a, b),
    ensures
        a == b,
{
    assert forall|i: int| 0 <= i < a.len() implies a[i] == b[i] by {
        assert(char_eq_ignore_ascii_case(a[i], b[i]));
        assert(!('A' <= a[i] && a[i] <= 'Z'));
        assert(!('A' <= b[i] && b[i] <= 'Z'));
    }
    assert(a =~= b);
}

/// Facts about the configuration names: none holds an ASCII capital letter,
/// and no two configurations share a name.
pub proof fn lemma_config_names()
    ensures
        forall|c: OpenccConfig| #[trigger] no_ascii_upper(c.name()),
        forall|c: OpenccConfig, d: OpenccConfig| #[trigger] c.name() == #[trigger] d.name() ==> c == d,
{
    reveal_strlit("s2t");
    reveal_strlit("s2tw");
    reveal_strlit("s2twp");
    reveal_strlit("s2hk");
    reveal_strlit("t2s");
    reveal_strlit("t2tw");
    reveal_strlit("t2twp");
    reveal_strlit("t2hk");
    reveal_strlit("tw2s");
    reveal_strlit("tw2sp");
    reveal_strlit("tw2t");
    reveal_strlit("tw2tp");
    reveal_strlit("hk2s");
    reveal_strlit("hk2t");
    reveal_strlit("jp2t");
    reveal_strlit("t2jp");
    reveal_strlit("s2hkp");
    reveal_strlit("hk2sp");
    reveal_strlit("t2hkp");
    reveal_strlit("hk2tp");
    assert forall|c: OpenccConfig| #[trigger] no_ascii_upper(c.name()) by {
        match c {
            OpenccConfig::S2t => {},
            OpenccConfig::S2tw => {},
            OpenccConfig::S2twp => {},
            OpenccConfig::S2hk => {},
            OpenccConfig::T2s => {},
            OpenccConfig::T2tw => {},
            OpenccConfig::T2twp => {},
            OpenccConfig::T2hk => {},
            OpenccConfig::Tw2s => {},
            OpenccConfig::Tw2sp => {},
            OpenccConfig::Tw2t => {},
            OpenccConfig::Tw2tp => {},
            OpenccConfig::Hk2s => {},
            OpenccConfig::Hk2t => {},
            OpenccConfig::Jp2t => {},
            OpenccConfig::T2jp => {},
            OpenccConfig::S2hkp => {},
            OpenccConfig::Hk2sp => {},
            OpenccConfig::T2hkp => {},
            OpenccConfig::Hk2tp => {},
        }
    }
    assert forall|c: OpenccConfig, d: OpenccConfig| #[trigger] c.name() == #[trigger] d.name() implies c == d by {
        if c != d {
            if c.name().len() == d.name().len() {
                assert(c.name()[0] != d.name()[0] || c.name()[1] != d.name()[1] || c.name()[2] != d.name()[2]
                    || c.name()[3] != d.name()[3] || c.name()[4] != d.name()[4]);
            }
        }
    }
}

/// A configuration's name parses back to that configuration.
pub proof fn law_config_name_parses_back(c: OpenccConfig)
    ensures
        OpenccConfig::of_name(c.name()) == Some(c),
{
    lemma_config_names();
    assert forall|d: OpenccConfig| eq_ignore_ascii_case(c.name(), #[trigger] d.name()) implies d == c by {
        lemma_eq_ignore_case_lowercase(c.name(), d.name());
    }
    assert(eq_ignore_ascii_case(c.name(), c.name()));
}

/// A configuration's numeric ID lies in 1..=20 and maps back to that
/// configuration; distinct configurations have distinct IDs.
pub proof fn law_config_id_roundtrip(c: OpenccConfig, d: OpenccConfig)
    ensures
        1 <= c.id() <= 20,
        OpenccConfig::of_id(c.id()) == Some(c),
        c.id() == d.id() ==> c == d,
{
}

/// Every JavaScript-facing value has the numeric ID of its backend
/// configuration, and that ID maps to it.
pub proof fn law_wasm_config_matches_backend(w: OpenccConfigWasm)
    ensures
        w.backend().id() == w.id(),
        OpenccConfig::of_id(w.id()) == Some(w.backend()),
{
}

/// The list of all configurations holds each configuration exactly once.
pub proof fn law_all_configs_complete(c: OpenccConfig)
    ensures
        OpenccConfig::all().len() == 20,
        OpenccConfig::all().contains(c),
        forall|i: int, j: int| 0 <= i < j < 20 ==> OpenccConfig::all()[i] != OpenccConfig::all()[j],
{
    match c {
        OpenccConfig::S2t => assert(OpenccConfig::all()[0] == c),
        OpenccConfig::S2tw => assert(OpenccConfig::all()[1] == c),
        OpenccConfig::S2twp => assert(OpenccConfig::all()[2] == c),
        OpenccConfig::S2hk => assert(OpenccConfig::all()[3] == c),
        OpenccConfig::S2hkp => assert(OpenccConfig::all()[4] == c),
        OpenccConfig::T2s => assert(OpenccConfig::all()[5] == c),
        OpenccConfig::T2tw => assert(OpenccConfig::all()[6] == c),
        OpenccConfig::T2twp => assert(OpenccConfig::all()[7] == c),
        OpenccConfig::T2hk => assert(OpenccConfig::all()[8] == c),
        OpenccConfig::T2hkp => assert(OpenccConfig::all()[9] == c),
        OpenccConfig::Tw2s => assert(OpenccConfig::all()[10] == c),
        OpenccConfig::Tw2sp => assert(OpenccConfig::all()[11] == c),
        OpenccConfig::Tw2t => assert(OpenccConfig::all()[12] == c),
        OpenccConfig::Tw2tp => assert(OpenccConfig::all()[13] == c),
        OpenccConfig::Hk2s => assert(OpenccConfig::all()[14] == c),
        OpenccConfig::Hk2sp => assert(OpenccConfig::all()[15] == c),
        OpenccConfig::Hk2t => assert(OpenccConfig::all()[16] == c),
        OpenccConfig::Hk2tp => assert(OpenccConfig::all()[17] == c),
        OpenccConfig::Jp2t => assert(OpenccConfig::all()[18] == c),
        OpenccConfig::T2jp => assert(OpenccConfig::all()[19] == c),
    }
}

/// Every supported configuration name is valid and selects that configuration.
pub proof fn law_supported_configs_valid(i: int)
    requires
        0 <= i < OpenccConfig::all().len(),
    ensures
        OpenccConfig::of_name(OpenccConfig::all()[i].name()) == Some(OpenccConfig::all()[i]),
{
    law_config_name_parses_back(OpenccConfig::all()[i]);
}

/// Whether the characters `cs` spell `name`, ignoring ASCII case.
fn name_matches(cs: &Vec<char>, name: &str) -> (r: bool)
    ensures
        r == eq_ignore_ascii_case(cs@, name@),
{
    let n = chars_of(name);
    slice_eq_ignore_ascii_case(cs.as_slice(), n.as_slice())
}

/// The configurations as JavaScript callers see them; each maps to the
/// backend configuration with the same numeric ID.
#[derive(Clone, Copy, Debug, PartialEq, Eq, Structural)]
pub enum OpenccConfigWasm {
    /// Simplified Chinese to Traditional Chinese.
    S2t,
    /// Simplified Chinese to Traditional Chinese (Taiwan).
    S2tw,
    /// Simplified Chinese to Traditional Chinese (Taiwan, with phrases).
    S2twp,
    /// Simplified Chinese to Traditional Chinese (Hong Kong).
    S2hk,
    /// Traditional Chinese to Simplified Chinese.
    T2s,
    /// Traditional Chinese to Traditional Chinese (Taiwan).
    T2tw,
    /// Traditional Chinese to Traditional Chinese (Taiwan, with phrases).
    T2twp,
    /// Traditional Chinese to Traditional Chinese (Hong Kong).
    T2hk,
    /// Traditional Chinese (Taiwan) to Simplified Chinese.
    Tw2s,
    /// Traditional Chinese (Taiwan) to Simplified Chinese, with phrase conversion.
    Tw2sp,
    /// Traditional Chinese (Taiwan) to generic Traditional Chinese.
    Tw2t,
    /// Traditional Chinese (Taiwan) to generic Traditional Chinese, with phrases.
    Tw2tp,
    /// Traditional Chinese (Hong Kong) to Simplified Chinese.
    Hk2s,
    /// Traditional Chinese (Hong Kong) to generic Traditional Chinese.
    Hk2t,
    /// Japanese Shinjitai forms to Traditional Chinese forms.
    Jp2t,
    /// Traditional Chinese forms to Japanese Shinjitai forms.
    T2jp,
    /// Simplified Chinese to Hong Kong Traditional Chinese, with phrase conversion.
    S2hkp,
    /// Hong Kong Traditional Chinese to Simplified Chinese, with phrase conversion.
    Hk2sp,
    /// Traditional Chinese to Hong Kong Traditional Chinese, with phrase conversion.
    T2hkp,
    /// Hong Kong Traditional Chinese to generic Traditional Chinese, with phrase conversion.
    Hk2tp,
}

impl OpenccConfigWasm {
    /// The numeric value that JavaScript sees.
    pub open spec fn id(self) -> u32 {
        match self {
            OpenccConfigWasm::S2t => 1,
            OpenccConfigWasm::S2tw => 2,
            OpenccConfigWasm::S2twp => 3,
            OpenccConfigWasm::S2hk => 4,
            OpenccConfigWasm::T2s => 5,
            OpenccConfigWasm::T2tw => 6,
            OpenccConfigWasm::T2twp => 7,
            OpenccConfigWasm::T2hk => 8,
            OpenccConfigWasm::Tw2s => 9,
            OpenccConfigWasm::Tw2sp => 10,
            OpenccConfigWasm::Tw2t => 11,
            OpenccConfigWasm::Tw2tp => 12,
            OpenccConfigWasm::Hk2s => 13,
            OpenccConfigWasm::Hk2t => 14,
            OpenccConfigWasm::Jp2t => 15,
            OpenccConfigWasm::T2jp => 16,
            OpenccConfigWasm::S2hkp => 17,
            OpenccConfigWasm::Hk2sp => 18,
            OpenccConfigWasm::T2hkp => 19,
            OpenccConfigWasm::Hk2tp => 20,
        }
    }

    /// The backend configuration with the same ID.
    pub open spec fn backend(self) -> OpenccConfig {
        match self {
            OpenccConfigWasm::S2t => OpenccConfig::S2t,
            OpenccConfigWasm::S2tw => OpenccConfig::S2tw,
            OpenccConfigWasm::S2twp => OpenccConfig::S2twp,
            OpenccConfigWasm::S2hk => OpenccConfig::S2hk,
            OpenccConfigWasm::T2s => OpenccConfig::T2s,
            OpenccConfigWasm::T2tw => OpenccConfig::T2tw,
            OpenccConfigWasm::T2twp => OpenccConfig::T2twp,
            OpenccConfigWasm::T2hk => OpenccConfig::T2hk,
            OpenccConfigWasm::Tw2s => OpenccConfig::Tw2s,
            OpenccConfigWasm::Tw2sp => OpenccConfig::Tw2sp,
            OpenccConfigWasm::Tw2t => OpenccConfig::Tw2t,
            OpenccConfigWasm::Tw2tp => OpenccConfig::Tw2tp,
            OpenccConfigWasm::Hk2s => OpenccConfig::Hk2s,
            OpenccConfigWasm::Hk2t => OpenccConfig::Hk2t,
            OpenccConfigWasm::Jp2t => OpenccConfig::Jp2t,
            OpenccConfigWasm::T2jp => OpenccConfig::T2jp,
            OpenccConfigWasm::S2hkp => OpenccConfig::S2hkp,
            OpenccConfigWasm::Hk2sp => OpenccConfig::Hk2sp,
            OpenccConfigWasm::T2hkp => OpenccConfig::T2hkp,
            OpenccConfigWasm::Hk2tp => OpenccConfig::Hk2tp,
        }
    }

    /// The numeric value that JavaScript sees.
    pub fn to_u32(&self) -> (r: u32)
        ensures
            r == self.id(),
    {
        match self {
            OpenccConfigWasm::S2t => 1,
            OpenccConfigWasm::S2tw => 2,
            OpenccConfigWasm::S2twp => 3,
            OpenccConfigWasm::S2hk => 4,
            OpenccConfigWasm::T2s => 5,
            OpenccConfigWasm::T2tw => 6,
            OpenccConfigWasm::T2twp => 7,
            OpenccConfigWasm::T2hk => 8,
            OpenccConfigWasm::Tw2s => 9,
            OpenccConfigWasm::Tw2sp => 10,
            OpenccConfigWasm::Tw2t => 11,
            OpenccConfigWasm::Tw2tp => 12,
            OpenccConfigWasm::Hk2s => 13,
            OpenccConfigWasm::Hk2t => 14,
            OpenccConfigWasm::Jp2t => 15,
            OpenccConfigWasm::T2jp => 16,
            OpenccConfigWasm::S2hkp => 17,
            OpenccConfigWasm::Hk2sp => 18,
            OpenccConfigWasm::T2hkp => 19,
            OpenccConfigWasm::Hk2tp => 20,
        }
    }

    /// The backend configuration found by this value's numeric ID.
    pub fn into_backend(self) -> (r: OpenccConfig)
        ensures
            r == self.backend(),
            r.id() == self.id(),
    {
        match OpenccConfig::from_ffi(self.to_u32()) {
            Some(c) => c,
            None => {
                assert(false);
                OpenccConfig::S2t
            },
        }
    }
}

} // verus!
