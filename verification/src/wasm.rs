//! The converter that JavaScript callers hold: an engine together with its
//! current configuration, and the operations exposed on it.

use vstd::prelude::*;
use crate::config::{law_config_name_parses_back, OpenccConfig, OpenccConfigWasm};
use crate::dictionary::{apply_specs, DictionaryMaxlength};
use crate::engine::{convert_spec, OpenCC};
use crate::slot::{
    checked_spec, law_slot_name_spelling, opt_view, spec_error, CustomDictSpec, DictSlot,
    WasmCustomDictSpec,
};
use crate::tables::{detofu_chars, normalize_chars, DetofuLevel, DetofuLevelWasm, NormalizeMode};
use crate::detect::zho_result;
use crate::bundled::{bundled_compat, bundled_maps, bundled_tofu, bundled_unicode};
use crate::text::{concat_str, eq_ignore_ascii_case, string_from_str, trim};

verus! {

broadcast use vstd::string::group_string_axioms;

/// The message for an unknown configuration name.
pub open spec fn invalid_config_message(name: Seq<char>) -> Seq<char> {
    "Invalid OpenCC config: "@ + name
}

/// The configuration that an optional name selects: `s2t` when absent.
pub open spec fn wasm_config_of(config: Option<Seq<char>>) -> Option<OpenccConfig> {
    match config {
        None => Some(OpenccConfig::S2t),
        Some(n) => OpenccConfig::of_name(n),
    }
}

/// The error, if any, of the first specification that does not check.
pub open spec fn first_spec_error(specs: Seq<WasmCustomDictSpec>) -> Option<Seq<char>>
    decreases specs.len(),
{
    if specs.len() == 0 {
        None
    } else {
        match spec_error(specs[0]) {
            Some(e) => Some(e),
            None => first_spec_error(specs.drop_first()),
        }
    }
}

/// Two lists of specifications that differ at most in how their slot names
/// are spelled: surrounding white space and ASCII case.
pub open spec fn same_but_slot_spelling(a: Seq<WasmCustomDictSpec>, b: Seq<WasmCustomDictSpec>) -> bool {
    &&& a.len() == b.len()
    &&& forall|i: int|
        0 <= i < a.len() ==> {
            &&& eq_ignore_ascii_case(trim(#[trigger] a[i].slot@), trim(b[i].slot@))
            &&& a[i].pairs == b[i].pairs
            &&& opt_view(a[i].mode) == opt_view(b[i].mode)
        }
}

/// Specification lists that differ only in the spelling of their slot names
/// are accepted or refused alike and, when accepted, give the same
/// dictionaries.
pub proof fn law_slot_spelling_irrelevant(a: Seq<WasmCustomDictSpec>, b: Seq<WasmCustomDictSpec>)
    requires
        same_but_slot_spelling(a, b),
    ensures
        first_spec_error(a) is None <==> first_spec_error(b) is None,
        a.map_values(|v: WasmCustomDictSpec| checked_spec(v)) == b.map_values(
            |v: WasmCustomDictSpec| checked_spec(v),
        ),
    decreases a.len(),
{
    assert forall|i: int| 0 <= i < a.len() implies checked_spec(a[i]) == checked_spec(b[i])
        && (spec_error(a[i]) is None <==> spec_error(b[i]) is None) by {
        assert(eq_ignore_ascii_case(trim(a[i].slot@), trim(b[i].slot@)));
        law_slot_name_spelling(a[i].slot@, b[i].slot@);
    }
    if a.len() > 0 {
        assert(spec_error(a[0]) is None <==> spec_error(b[0]) is None);
        let ta = a.drop_first();
        let tb = b.drop_first();
        assert forall|i: int| 0 <= i < ta.len() implies {
            &&& eq_ignore_ascii_case(trim(#[trigger] ta[i].slot@), trim(tb[i].slot@))
            &&& ta[i].pairs == tb[i].pairs
            &&& opt_view(ta[i].mode) == opt_view(tb[i].mode)
        } by {
            assert(ta[i] == a[i + 1]);
            assert(tb[i] == b[i + 1]);
            assert(eq_ignore_ascii_case(trim(a[i + 1].slot@), trim(b[i + 1].slot@)));
        }
        law_slot_spelling_irrelevant(ta, tb);
    }
    assert(a.map_values(|v: WasmCustomDictSpec| checked_spec(v)) =~= b.map_values(
        |v: WasmCustomDictSpec| checked_spec(v),
    ));
}

/// The configuration named by `config`, `s2t` when absent, or the error that
/// names the rejected input.
pub fn parse_wasm_config(config: Option<String>) -> (r: Result<OpenccConfig, String>)
    ensures
        match r {
            Ok(c) => wasm_config_of(opt_view(config)) == Some(c),
            Err(e) => wasm_config_of(opt_view(config)) is None && e@ == invalid_config_message(
                opt_view(config)->0,
            ),
        },
{
    match config {
        None => Ok(OpenccConfig::S2t),
        Some(name) => match OpenccConfig::parse(name.as_str()) {
            Some(c) => Ok(c),
            None => Err(concat_str("Invalid OpenCC config: ", name.as_str())),
        },
    }
}

/// A converter: an engine and its current configuration.
pub struct OpenccWasm {
    inner: OpenCC,
    config: OpenccConfig,
}

impl OpenccWasm {
    /// The current configuration.
    pub closed spec fn config(&self) -> OpenccConfig {
        self.config
    }

    /// The engine's dictionaries.
    pub closed spec fn dict(&self) -> Seq<Map<Seq<char>, Seq<char>>> {
        self.inner.dict()
    }

    /// Whether complete IDS expressions are kept unconverted.
    pub closed spec fn keeps_ids(&self) -> bool {
        self.inner.keeps_ids()
    }

    /// Whether the engine may convert segments in parallel.
    pub closed spec fn parallel(&self) -> bool {
        self.inner.parallel()
    }

    /// The DeToFu table.
    pub closed spec fn tofu_table(&self) -> Map<char, (char, DetofuLevel)> {
        self.inner.tofu_table()
    }

    /// The CJK Compatibility Ideograph table.
    pub closed spec fn compat_table(&self) -> Map<char, char> {
        self.inner.compat_table()
    }

    /// The extended Unicode compatibility table.
    pub closed spec fn unicode_table(&self) -> Map<char, char> {
        self.inner.unicode_table()
    }

    /// The engine is well formed.
    pub closed spec fn wf(&self) -> bool {
        self.inner.wf()
    }

    /// The engine that this converter holds.
    pub fn engine(&self) -> (r: &OpenCC)
        ensures
            r.dict() == self.dict(),
            r.keeps_ids() == self.keeps_ids(),
            r.parallel() == self.parallel(),
            r.tofu_table() == self.tofu_table(),
            r.compat_table() == self.compat_table(),
            r.unicode_table() == self.unicode_table(),
            r.wf() == self.wf(),
    {
        &self.inner
    }

    /// The package version.
    pub fn version() -> (r: String)
        ensures
            r@ == "0.4.0"@,
    {
        string_from_str("0.4.0")
    }

    /// A converter over the bundled data, with the configuration named by
    /// `config` (`s2t` when absent); an unknown name is an error. Parallel
    /// conversion is off and IDS preservation is off.
    pub fn new(config: Option<String>) -> (r: Result<OpenccWasm, String>)
        ensures
            match r {
                Ok(w) => {
                    &&& wasm_config_of(opt_view(config)) == Some(w.config())
                    &&& w.wf()
                    &&& w.dict() == bundled_maps()
                    &&& w.tofu_table() == bundled_tofu()
                    &&& w.compat_table() == bundled_compat()
                    &&& w.unicode_table() == bundled_unicode()
                    &&& !w.parallel()
                    &&& !w.keeps_ids()
                },
                Err(e) => wasm_config_of(opt_view(config)) is None && e@ == invalid_config_message(
                    opt_view(config)->0,
                ),
            },
    {
        let config = match parse_wasm_config(config) {
            Ok(c) => c,
            Err(e) => return Err(e),
        };
        let mut inner = OpenCC::new_embedded();
        inner.set_parallel(false);
        Ok(OpenccWasm { inner, config })
    }

    /// A converter over an engine that the caller loaded (its dictionaries and
    /// tables), with the given configuration; parallel conversion is turned
    /// off, everything else of the engine is kept.
    pub fn from_engine(engine: OpenCC, config: OpenccConfig) -> (r: OpenccWasm)
        requires
            engine.wf(),
        ensures
            r.config() == config,
            r.wf(),
            r.dict() == engine.dict(),
            !r.parallel(),
            r.keeps_ids() == engine.keeps_ids(),
            r.tofu_table() == engine.tofu_table(),
            r.compat_table() == engine.compat_table(),
            r.unicode_table() == engine.unicode_table(),
    {
        let mut inner = engine;
        inner.set_parallel(false);
        OpenccWasm { inner, config }
    }

    /// A converter whose dictionaries are the bundled data changed by the
    /// custom dictionary specifications, applied in order. The configuration
    /// is checked first, then every specification in order; the first
    /// failure is the error.
    pub fn new_with_custom_dicts(config: Option<String>, specs: Vec<WasmCustomDictSpec>) -> (r:
        Result<OpenccWasm, String>)
        ensures
            match wasm_config_of(opt_view(config)) {
                None => r matches Err(e) && e@ == invalid_config_message(opt_view(config)->0),
                Some(c) => match first_spec_error(specs@) {
                    Some(msg) => r matches Err(e) && e@ == msg,
                    None => r matches Ok(w) && {
                        &&& w.config() == c
                        &&& w.wf()
                        &&& w.dict() == apply_specs(
                            bundled_maps(),
                            specs@.map_values(|v: WasmCustomDictSpec| checked_spec(v)),
                        )
                        &&& w.tofu_table() == bundled_tofu()
                        &&& w.compat_table() == bundled_compat()
                        &&& w.unicode_table() == bundled_unicode()
                        &&& !w.parallel()
                        &&& !w.keeps_ids()
                    },
                },
            },
    {
        let ghost config_view = opt_view(config);
        let config_value = match parse_wasm_config(config) {
            Ok(c) => c,
            Err(e) => return Err(e),
        };
        let ghost sv = specs@;
        let mut checked: Vec<CustomDictSpec> = Vec::new();
        let mut rest = specs;
        let mut k: usize = 0;
        let n = rest.len();
        assert(rest@ =~= sv.subrange(0, sv.len() as int));
        while rest.len() > 0
            invariant
                n == sv.len(),
                specs@ == sv,
                wasm_config_of(opt_view(config)) == Some(config_value),
                k + rest@.len() == sv.len(),
                rest@ =~= sv.subrange(k as int, sv.len() as int),
                checked@ =~= sv.subrange(0, k as int).map_values(|v: WasmCustomDictSpec| checked_spec(v)),
                first_spec_error(sv) == first_spec_error(sv.subrange(k as int, sv.len() as int)),
            decreases rest.len(),
        {
            let v = rest.remove(0);
            proof {
                assert(v == sv[k as int]);
                let tail = sv.subrange(k as int, sv.len() as int);
                assert(tail[0] == v);
                assert(tail.drop_first() =~= sv.subrange(k + 1, sv.len() as int));
            }
            proof {
                let tail = sv.subrange(k as int, sv.len() as int);
                assert(first_spec_error(tail) == match spec_error(v) {
                    Some(e) => Some(e),
                    None => first_spec_error(tail.drop_first()),
                });
            }
            match CustomDictSpec::try_from(v) {
                Ok(s) => {
                    checked.push(s);
                    proof {
                        assert(checked@ =~= sv.subrange(0, (k + 1) as int).map_values(
                            |v: WasmCustomDictSpec| checked_spec(v),
                        ));
                    }
                },
                Err(e) => {
                    return Err(e);
                },
            }
            k = k + 1;
        }
        proof {
            assert(sv.subrange(0, k as int) =~= sv);
            assert(sv.subrange(k as int, sv.len() as int) =~= Seq::<WasmCustomDictSpec>::empty());
        }
        let dictionary = DictionaryMaxlength::from_embedded().with_custom_dicts(checked.as_slice());
        let mut inner = OpenCC::from_dictionary(dictionary);
        inner.set_parallel(false);
        Ok(OpenccWasm { inner, config: config_value })
    }

    /// A converter over the bundled data with the given configuration (`s2t`
    /// when absent).
    pub fn new_with_enum(config: Option<OpenccConfigWasm>) -> (r: Result<OpenccWasm, String>)
        ensures
            r matches Ok(w) && {
                &&& w.config() == match config {
                    Some(c) => c.backend(),
                    None => OpenccConfig::S2t,
                }
                &&& w.wf()
                &&& w.dict() == bundled_maps()
                &&& w.tofu_table() == bundled_tofu()
                &&& w.compat_table() == bundled_compat()
                &&& w.unicode_table() == bundled_unicode()
                &&& !w.parallel()
                &&& !w.keeps_ids()
            },
    {
        let config = match config {
            Some(c) => c.into_backend(),
            None => OpenccConfig::S2t,
        };
        let mut inner = OpenCC::new_embedded();
        inner.set_parallel(false);
        Ok(OpenccWasm { inner, config })
    }

    /// `text` converted with the current configuration.
    pub fn convert(&self, text: &str, punctuation: bool) -> (r: String)
        requires
            self.wf(),
        ensures
            r@ == convert_spec(self.dict(), self.config(), punctuation, self.keeps_ids(), text@),
    {
        proof {
            law_config_name_parses_back(self.config);
        }
        self.inner.convert(text, self.config.as_str(), punctuation)
    }

    /// The current configuration's name.
    pub fn get_config(&self) -> (r: String)
        ensures
            r@ == self.config().name(),
    {
        string_from_str(self.config.as_str())
    }

    /// Sets the configuration named by `config` and returns `true`; for an
    /// unknown name returns `false` and changes nothing.
    pub fn set_config(&mut self, config: &str) -> (r: bool)
        ensures
            r == OpenccConfig::of_name(config@) is Some,
            r ==> final(self).config() == OpenccConfig::of_name(config@)->0,
            !r ==> final(self).config() == old(self).config(),
            final(self).dict() == old(self).dict(),
            final(self).keeps_ids() == old(self).keeps_ids(),
            final(self).parallel() == old(self).parallel(),
            final(self).tofu_table() == old(self).tofu_table(),
            final(self).compat_table() == old(self).compat_table(),
            final(self).unicode_table() == old(self).unicode_table(),
            final(self).wf() == old(self).wf(),
    {
        match OpenccConfig::parse(config) {
            Some(cfg) => {
                self.config = cfg;
                true
            },
            None => false,
        }
    }

    /// Whether `config` names a configuration.
    pub fn is_valid_config(config: &str) -> (r: bool)
        ensures
            r == OpenccConfig::of_name(config@) is Some,
    {
        OpenccConfig::is_valid_config(config)
    }

    /// The names of all configurations, in the documented order.
    pub fn get_supported_configs() -> (r: Vec<String>)
        ensures
            r@.len() == OpenccConfig::all().len(),
            forall|i: int| 0 <= i < r@.len() ==> #[trigger] r@[i]@ == OpenccConfig::all()[i].name(),
    {
        let all = OpenccConfig::all_configs();
        let mut out: Vec<String> = Vec::new();
        let mut i: usize = 0;
        while i < all.len()
            invariant
                i <= all@.len(),
                all@ == OpenccConfig::all(),
                out@.len() == i,
                forall|j: int| 0 <= j < i ==> #[trigger] out@[j]@ == OpenccConfig::all()[j].name(),
            decreases all.len() - i,
        {
            out.push(string_from_str(all[i].as_str()));
            i = i + 1;
        }
        out
    }

    /// The canonical names of all dictionary slots, as accepted by
    /// [`OpenccWasm::new_with_custom_dicts`].
    pub fn get_available_slots() -> (r: Vec<String>)
        ensures
            r@.len() == DictSlot::all().len(),
            forall|i: int| 0 <= i < r@.len() ==> #[trigger] r@[i]@ == DictSlot::all()[i].name(),
    {
        let all = DictSlot::all_slots();
        let mut out: Vec<String> = Vec::new();
        let mut i: usize = 0;
        while i < all.len()
            invariant
                i <= all@.len(),
                all@ == DictSlot::all(),
                out@.len() == i,
                forall|j: int| 0 <= j < i ==> #[trigger] out@[j]@ == DictSlot::all()[j].name(),
            decreases all.len() - i,
        {
            out.push(string_from_str(all[i].canonical_name()));
            i = i + 1;
        }
        out
    }

    /// Sets the configuration from its JavaScript-facing value.
    pub fn set_config_enum(&mut self, config: OpenccConfigWasm)
        ensures
            final(self).config() == config.backend(),
            final(self).dict() == old(self).dict(),
            final(self).keeps_ids() == old(self).keeps_ids(),
            final(self).parallel() == old(self).parallel(),
            final(self).tofu_table() == old(self).tofu_table(),
            final(self).compat_table() == old(self).compat_table(),
            final(self).unicode_table() == old(self).unicode_table(),
            final(self).wf() == old(self).wf(),
    {
        self.config = config.into_backend();
    }

    /// The numeric ID of the current configuration.
    pub fn get_config_id(&self) -> (r: u32)
        ensures
            r == self.config().id(),
    {
        self.config.to_ffi()
    }

    /// Whether complete IDS expressions are kept unconverted.
    pub fn get_preserve_ids(&self) -> (r: bool)
        ensures
            r == self.keeps_ids(),
    {
        self.inner.get_preserve_ids()
    }

    /// Enables or disables keeping complete IDS expressions unconverted.
    pub fn set_preserve_ids(&mut self, value: bool)
        ensures
            final(self).keeps_ids() == value,
            final(self).config() == old(self).config(),
            final(self).dict() == old(self).dict(),
            final(self).parallel() == old(self).parallel(),
            final(self).tofu_table() == old(self).tofu_table(),
            final(self).compat_table() == old(self).compat_table(),
            final(self).unicode_table() == old(self).unicode_table(),
            final(self).wf() == old(self).wf(),
    {
        self.inner.set_preserve_ids(value);
    }

    /// 1 when `text` reads as Traditional Chinese, 2 when Simplified, 0 otherwise.
    pub fn zho_check(&self, text: &str) -> (r: i32)
        requires
            self.wf(),
        ensures
            r == zho_result(
                self.dict()[DictSlot::TSCharacters.index()],
                self.dict()[DictSlot::STCharacters.index()],
                text@,
            ),
    {
        self.inner.zho_check(text)
    }

    /// `text` with CJK Compatibility Ideographs normalized.
    pub fn normalize_compat(&self, text: &str) -> (r: String)
        ensures
            r@ == normalize_chars(NormalizeMode::Compat, self.compat_table(), self.unicode_table(), text@),
    {
        self.inner.normalize_compat(text)
    }

    /// `text` after complete compatibility normalization: the ideograph table
    /// takes precedence, the extended table handles what it leaves unchanged.
    pub fn normalize_compat_extended(&self, text: &str) -> (r: String)
        ensures
            r@ == normalize_chars(NormalizeMode::Full, self.compat_table(), self.unicode_table(), text@),
    {
        self.inner.normalize_compat_extended(text)
    }

    /// `text` after the extended Unicode compatibility table alone.
    pub fn normalize_unicode_compat(&self, text: &str) -> (r: String)
        ensures
            r@ == normalize_chars(NormalizeMode::Extended, self.compat_table(), self.unicode_table(), text@),
    {
        self.inner.normalize_unicode_compat(text)
    }

    /// `text` after DeToFu at `level`, the highest extension block considered
    /// safe: characters of later blocks that have a fallback are replaced.
    pub fn detofu(&self, text: &str, level: DetofuLevelWasm) -> (r: String)
        ensures
            r@ == detofu_chars(self.tofu_table(), level.backend(), text@),
    {
        self.inner.detofu(text, level.into_backend())
    }

    /// `text` converted with the current configuration, then after DeToFu at `level`.
    pub fn convert_detofu(&self, text: &str, punctuation: bool, level: DetofuLevelWasm) -> (r: String)
        requires
            self.wf(),
        ensures
            r@ == detofu_chars(
                self.tofu_table(),
                level.backend(),
                convert_spec(self.dict(), self.config(), punctuation, self.keeps_ids(), text@),
            ),
    {
        let converted = self.convert(text, punctuation);
        let mut output = String::new();
        self.inner.detofu_into(converted.as_str(), level.into_backend(), &mut output);
        output
    }

    /// The `s2t` conversion of `"汉字"`, without punctuation, for checking that
    /// the engine works.
    pub fn debug_ping(&self) -> (r: String)
        requires
            self.wf(),
        ensures
            r@ == convert_spec(self.dict(), OpenccConfig::S2t, false, self.keeps_ids(), "汉字"@),
    {
        proof {
            law_config_name_parses_back(OpenccConfig::S2t);
        }
        self.inner.convert("汉字", "s2t", false)
    }
}

} // verus!
