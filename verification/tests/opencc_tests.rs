use opencc_fmmseg_wasm::bundled::{compat_ideographs, unicode_compat};
use opencc_fmmseg_wasm::slot::{parse_custom_dict_mode, parse_dict_slot};
use opencc_fmmseg_wasm::wasm::parse_wasm_config;
use opencc_fmmseg_wasm::{
    CharTable, CustomDictMode, CustomDictSpec, DetofuLevel, DetofuLevelWasm, DictSlot,
    DictionaryMaxlength, OpenCC, OpenccConfig, OpenccConfigWasm, OpenccWasm, TofuTable,
    WasmCustomDictSpec,
};

fn spec(slot: DictSlot, mode: CustomDictMode, pairs: &[(&str, &str)]) -> CustomDictSpec {
    CustomDictSpec {
        slot,
        pairs: pairs
            .iter()
            .map(|(a, b)| (a.to_string(), b.to_string()))
            .collect(),
        mode,
    }
}

fn dictionary(specs: Vec<CustomDictSpec>) -> DictionaryMaxlength {
    DictionaryMaxlength::empty().with_custom_dicts(&specs)
}

fn wasm_spec(slot: &str, mode: Option<&str>, pairs: &[(&str, &str)]) -> WasmCustomDictSpec {
    WasmCustomDictSpec {
        slot: slot.to_string(),
        pairs: pairs
            .iter()
            .map(|(a, b)| (a.to_string(), b.to_string()))
            .collect(),
        mode: mode.map(|m| m.to_string()),
    }
}

#[test]
fn test_cbor_load_and_convert() {
    let cc = OpenccWasm::new(None).unwrap();

    assert_eq!(cc.convert("汉字", false), "漢字");

    let mut cc2 = OpenccWasm::new(Some("t2s".to_string())).unwrap();

    assert_eq!(cc2.convert("漢字", false), "汉字");

    cc2.set_config("s2t");

    assert_eq!(cc2.convert("汉字", false), "漢字");
}

#[test]
fn test_zho_check() {
    let cc = OpenccWasm::new(None).unwrap();

    assert_eq!(cc.zho_check("漢字"), 1);
    assert_eq!(cc.zho_check("汉字"), 2);
}

#[test]
fn test_config_validation() {
    assert!(OpenccWasm::is_valid_config("s2t"));
    assert!(OpenccWasm::is_valid_config("T2JP"));
    assert!(!OpenccWasm::is_valid_config("bad"));
}

#[test]
fn wasm_config_enum_matches_backend() {
    for config in OpenccConfig::all_configs() {
        let id = config.to_ffi();

        assert!(matches!(id, 1..=20));
        assert_eq!(OpenccConfig::from_ffi(id), Some(config));
    }

    assert_eq!(OpenccConfigWasm::S2t.to_u32(), OpenccConfig::S2t.to_ffi());
    assert_eq!(OpenccConfigWasm::T2jp.to_u32(), OpenccConfig::T2jp.to_ffi());
    assert_eq!(OpenccConfigWasm::S2hkp.to_u32(), OpenccConfig::S2hkp.to_ffi());
    assert_eq!(OpenccConfigWasm::Hk2sp.to_u32(), OpenccConfig::Hk2sp.to_ffi());
    assert_eq!(OpenccConfigWasm::T2hkp.to_u32(), OpenccConfig::T2hkp.to_ffi());
    assert_eq!(OpenccConfigWasm::Hk2tp.to_u32(), OpenccConfig::Hk2tp.to_ffi());
}

#[test]
fn test_hk_phrase_configs() {
    let s2hkp = OpenccWasm::new(Some("s2hkp".to_string())).unwrap();
    assert_eq!(
        s2hkp.convert("别随便录影侵犯个人隐私权", false),
        "別隨便錄影侵犯個人私隱權"
    );

    let hk2sp = OpenccWasm::new(Some("hk2sp".to_string())).unwrap();
    assert_eq!(
        hk2sp.convert("別隨便錄影侵犯個人私隱權", false),
        "别随便录影侵犯个人隐私权"
    );
}

#[test]
fn test_detofu() {
    let cc = OpenccWasm::new(Some("t2s".to_string())).unwrap();

    let converted = cc.convert("儼驂騑於上路，訪風景於崇阿", false);
    assert_eq!(converted, "俨骖𬴂于上路，访风景于崇阿");

    let safe = cc.detofu(&converted, DetofuLevelWasm::ExtB);
    assert_eq!(safe, "俨骖騑于上路，访风景于崇阿");
}

#[test]
fn test_wasm_custom_dict_spec_to_custom_dict_spec() {
    let spec = WasmCustomDictSpec {
        slot: "STPhrases".to_string(),
        mode: Some("Append".to_string()),
        pairs: vec![("帕兰蒂尔".to_string(), "柏蘭蒂爾".to_string())],
    };

    let spec: CustomDictSpec = CustomDictSpec::try_from(spec).unwrap();

    assert_eq!(spec.slot, DictSlot::STPhrases);
    assert_eq!(spec.mode, CustomDictMode::Append);
    assert_eq!(
        spec.pairs,
        vec![("帕兰蒂尔".to_string(), "柏蘭蒂爾".to_string())]
    );
}

#[test]
fn test_new_with_custom_dicts_append_pairs() {
    let spec = CustomDictSpec {
        slot: DictSlot::STPhrases,
        mode: CustomDictMode::Append,
        pairs: vec![("帕兰蒂尔".to_string(), "柏蘭蒂爾".to_string())],
    };

    let dictionary = DictionaryMaxlength::from_embedded().with_custom_dicts(&[spec]);

    let mut inner = OpenCC::from_dictionary(dictionary);
    inner.set_parallel(false);

    let output = inner.convert_with_config("帕兰蒂尔", OpenccConfig::S2t, false);
    assert_eq!(output, "柏蘭蒂爾");
}

#[test]
fn test_wasm_custom_dict_spec_invalid_slot() {
    let spec = WasmCustomDictSpec {
        slot: "STPhrases.txt".to_string(),
        mode: Some("Append".to_string()),
        pairs: vec![],
    };

    assert!(CustomDictSpec::try_from(spec).is_err());
}

// ---------------------------------------------------------------------------
// Configuration names and IDs.

#[test]
fn config_names_parse_case_insensitively_without_trimming() {
    assert_eq!(OpenccConfig::parse("s2t"), Some(OpenccConfig::S2t));
    assert_eq!(OpenccConfig::parse("HK2TP"), Some(OpenccConfig::Hk2tp));
    assert_eq!(OpenccConfig::parse("Tw2Sp"), Some(OpenccConfig::Tw2sp));
    assert_eq!(OpenccConfig::parse(" s2t"), None);
    assert_eq!(OpenccConfig::parse("s2t "), None);
    assert_eq!(OpenccConfig::parse(""), None);
    assert_eq!(OpenccConfig::parse("s2"), None);
}

#[test]
fn config_name_round_trips_for_every_config() {
    for config in OpenccConfig::all_configs() {
        assert_eq!(OpenccConfig::parse(config.as_str()), Some(config));
    }
    assert_eq!(OpenccConfig::from_ffi(0), None);
    assert_eq!(OpenccConfig::from_ffi(21), None);
    assert_eq!(OpenccConfig::T2jp.to_ffi(), 16);
    assert_eq!(OpenccConfig::Jp2t.to_ffi(), 15);
}

#[test]
fn supported_configs_in_documented_order() {
    let names = OpenccWasm::get_supported_configs();
    let expected = [
        "s2t", "s2tw", "s2twp", "s2hk", "s2hkp", "t2s", "t2tw", "t2twp", "t2hk", "t2hkp", "tw2s",
        "tw2sp", "tw2t", "tw2tp", "hk2s", "hk2sp", "hk2t", "hk2tp", "jp2t", "t2jp",
    ];
    assert_eq!(names.len(), 20);
    for (got, want) in names.iter().zip(expected.iter()) {
        assert_eq!(got, want);
        assert!(OpenccWasm::is_valid_config(got));
    }
}

#[test]
fn available_slots_are_canonical_and_accepted() {
    let slots = OpenccWasm::get_available_slots();
    assert_eq!(slots.len(), 21);
    assert_eq!(slots[0], "STCharacters");
    assert_eq!(slots[1], "STPhrases");
    assert_eq!(slots[2], "STPunctuations");
    assert_eq!(slots[20], "JPSPhrases");
    for name in &slots {
        assert!(DictSlot::from_name_ignore_ascii_case(name).is_some());
    }
}

#[test]
fn wasm_enum_values_and_backend() {
    assert_eq!(OpenccConfigWasm::S2t.to_u32(), 1);
    assert_eq!(OpenccConfigWasm::Hk2tp.to_u32(), 20);
    assert_eq!(OpenccConfigWasm::Jp2t.into_backend(), OpenccConfig::Jp2t);
    assert_eq!(DetofuLevelWasm::ExtB.to_u32(), 2);
    assert_eq!(DetofuLevelWasm::ExtI.to_u32(), 9);
    assert_eq!(DetofuLevelWasm::ExtE.into_backend(), DetofuLevel::ExtE);
}

// ---------------------------------------------------------------------------
// Slots, modes and custom dictionary specifications.

#[test]
fn slot_names_are_trimmed_and_case_folded() {
    assert_eq!(
        DictSlot::from_name_ignore_ascii_case("stphrases"),
        Some(DictSlot::STPhrases)
    );
    assert_eq!(
        DictSlot::from_name_ignore_ascii_case(" STPhrases "),
        Some(DictSlot::STPhrases)
    );
    assert_eq!(
        DictSlot::from_name_ignore_ascii_case("\tSTPHRASES\n"),
        Some(DictSlot::STPhrases)
    );
    assert_eq!(
        DictSlot::from_name_ignore_ascii_case("\u{3000}hkphrasesrev"),
        Some(DictSlot::HKPhrasesRev)
    );
    assert_eq!(DictSlot::from_name_ignore_ascii_case("STPhrases.txt"), None);
    assert_eq!(DictSlot::from_name_ignore_ascii_case(""), None);
    assert_eq!(DictSlot::from_name_ignore_ascii_case("ST Phrases"), None);
}

#[test]
fn slot_parse_error_names_the_input() {
    assert_eq!(parse_dict_slot("twphrases"), Ok(DictSlot::TWPhrases));
    assert_eq!(
        parse_dict_slot("Nope"),
        Err("Invalid DictSlot: Nope".to_string())
    );
}

#[test]
fn mode_names_accept_four_spellings() {
    assert_eq!(parse_custom_dict_mode(None), Ok(CustomDictMode::Append));
    assert_eq!(parse_custom_dict_mode(Some("Append")), Ok(CustomDictMode::Append));
    assert_eq!(parse_custom_dict_mode(Some("append")), Ok(CustomDictMode::Append));
    assert_eq!(parse_custom_dict_mode(Some("Override")), Ok(CustomDictMode::Override));
    assert_eq!(parse_custom_dict_mode(Some("override")), Ok(CustomDictMode::Override));
    assert_eq!(
        parse_custom_dict_mode(Some("APPEND")),
        Err("Invalid CustomDictMode: APPEND".to_string())
    );
    assert_eq!(
        parse_custom_dict_mode(Some(" append")),
        Err("Invalid CustomDictMode:  append".to_string())
    );
}

#[test]
fn spec_check_reports_slot_before_mode() {
    let bad_both = wasm_spec("Nope", Some("Merge"), &[]);
    assert_eq!(
        CustomDictSpec::try_from(bad_both).unwrap_err(),
        "Invalid DictSlot: Nope"
    );
    let bad_mode = wasm_spec("STPhrases", Some("Merge"), &[]);
    assert_eq!(
        CustomDictSpec::try_from(bad_mode).unwrap_err(),
        "Invalid CustomDictMode: Merge"
    );
    let default_mode = CustomDictSpec::try_from(wasm_spec(" tsphrases", None, &[("a", "b")])).unwrap();
    assert_eq!(default_mode.slot, DictSlot::TSPhrases);
    assert_eq!(default_mode.mode, CustomDictMode::Append);
    assert_eq!(default_mode.pairs, vec![("a".to_string(), "b".to_string())]);
}

// ---------------------------------------------------------------------------
// Converters built from configuration names and custom dictionaries.

#[test]
fn constructor_defaults_and_errors() {
    let cc = OpenccWasm::new(None).unwrap();
    assert_eq!(cc.get_config(), "s2t");
    assert_eq!(cc.get_config_id(), 1);
    assert!(!cc.get_preserve_ids());

    let cc = OpenccWasm::new(Some("T2S".to_string())).unwrap();
    assert_eq!(cc.get_config(), "t2s");

    let err = OpenccWasm::new(Some("bad".to_string())).err().unwrap();
    assert_eq!(err, "Invalid OpenCC config: bad");

    assert_eq!(
        parse_wasm_config(Some(" s2t".to_string())),
        Err("Invalid OpenCC config:  s2t".to_string())
    );
}

#[test]
fn readme_conversion_examples() {
    let cc = OpenccWasm::new(Some("s2t".to_string())).unwrap();
    assert_eq!(cc.convert("汉字转换测试", false), "漢字轉換測試");

    let cc = OpenccWasm::new(Some("s2twp".to_string())).unwrap();
    assert_eq!(cc.convert("预订‘奔驰’品牌出租车", true), "預訂『賓士』品牌計程車");

    let cc = OpenccWasm::new(Some("hk2sp".to_string())).unwrap();
    assert_eq!(cc.convert("作業系統加密保護個人私隱權", false), "操作系统加密保护个人隐私权");

    let cc = OpenccWasm::new_with_enum(Some(OpenccConfigWasm::S2hkp)).unwrap();
    assert_eq!(cc.get_config(), "s2hkp");
    assert_eq!(cc.get_config_id(), 17);
    assert_eq!(cc.convert("操作系统加密保护个人隐私权", false), "作業系統加密保護個人私隱權");
}

#[test]
fn readme_normalization_and_detofu_examples() {
    let cc = OpenccWasm::new(Some("t2s".to_string())).unwrap();

    let input = "天\u{f9c4}八部\u{2f8cc}\u{f9e8}的喬峰是\u{f909}\u{f95e}人";
    let normalized = cc.normalize_compat(input);
    assert_eq!(normalized, "天龍八部書裡的喬峰是契丹人");
    assert_eq!(cc.convert(&normalized, false), "天龙八部书里的乔峰是契丹人");

    let normalized = cc.normalize_unicode_compat("聼聼竒羙⽟䂖甁噐⾳");
    assert_eq!(normalized, "聽聽奇美玉石瓶器音");
    assert_eq!(cc.convert(&normalized, false), "听听奇美玉石瓶器音");

    let normalized = cc.normalize_compat_extended("天\u{f9c4}八部\u{2f8cc}\u{f9e8}的聼眾");
    assert_eq!(normalized, "天龍八部書裡的聽眾");
    assert_eq!(cc.convert(&normalized, false), "天龙八部书里的听众");

    assert_eq!(cc.normalize_compat("\u{FA11}abc123，測試。"), "\u{FA11}abc123，測試。");

    let converted = cc.convert("儼驂騑於上路", false);
    assert_eq!(converted, "俨骖𬴂于上路");
    assert_eq!(cc.detofu(&converted, DetofuLevelWasm::ExtB), "俨骖騑于上路");
    assert_eq!(cc.convert_detofu("儼驂騑於上路", false, DetofuLevelWasm::ExtB), "俨骖騑于上路");
}

#[test]
fn bundled_converter_edge_cases() {
    let mut cc = OpenccWasm::new(None).unwrap();
    assert_eq!(cc.convert("汉字\r\n转换\n测试\r完成", false), "漢字\r\n轉換\n測試\r完成");
    assert_eq!(cc.convert("", false), "");
    cc.set_preserve_ids(true);
    assert_eq!(cc.convert("\u{2FF0}车专", false), "\u{2FF0}车专");
    assert_eq!(cc.convert("\u{2FF0}车", false), "\u{2FF0}車");

    let cc = OpenccWasm::new(Some("t2s".to_string())).unwrap();
    assert_eq!(cc.debug_ping(), "漢字");
}

#[test]
fn traditional_only_configs_ignore_punctuation() {
    for name in ["t2tw", "t2twp", "t2hk", "t2hkp", "tw2t", "tw2tp", "hk2t", "hk2tp", "jp2t", "t2jp"] {
        let cc = OpenccWasm::new(Some(name.to_string())).unwrap();
        let text = "“裏面”‘說’";
        assert_eq!(cc.convert(text, true), cc.convert(text, false));
    }
}

#[test]
fn enum_constructor_and_setter() {
    let mut cc = OpenccWasm::new_with_enum(Some(OpenccConfigWasm::Hk2tp)).unwrap();
    assert_eq!(cc.get_config(), "hk2tp");
    assert_eq!(cc.get_config_id(), 20);

    cc.set_config_enum(OpenccConfigWasm::Jp2t);
    assert_eq!(cc.get_config(), "jp2t");
    assert_eq!(cc.get_config_id(), 15);

    let cc = OpenccWasm::new_with_enum(None).unwrap();
    assert_eq!(cc.get_config(), "s2t");
}

#[test]
fn set_config_reports_and_keeps_on_failure() {
    let mut cc = OpenccWasm::new(Some("t2s".to_string())).unwrap();
    assert!(!cc.set_config("nope"));
    assert_eq!(cc.get_config(), "t2s");
    assert!(cc.set_config("S2HKP"));
    assert_eq!(cc.get_config(), "s2hkp");
    assert_eq!(cc.get_config_id(), 17);
}

#[test]
fn custom_dicts_readme_example() {
    let specs = vec![wasm_spec(
        "STPhrases",
        Some("Append"),
        &[("帕兰蒂尔", "柏蘭蒂爾"), ("软件", "軟體")],
    )];
    let cc = OpenccWasm::new_with_custom_dicts(Some("s2t".to_string()), specs).unwrap();
    assert_eq!(cc.convert("帕兰蒂尔软件", false), "柏蘭蒂爾軟體");
}

#[test]
fn custom_dicts_last_pair_wins() {
    let specs = vec![wasm_spec(
        "stphrases",
        None,
        &[("软件", "軟件"), ("软件", "軟體")],
    )];
    let cc = OpenccWasm::new_with_custom_dicts(None, specs).unwrap();
    assert_eq!(cc.convert("软件", false), "軟體");
}

#[test]
fn custom_dicts_override_clears_slot_and_specs_apply_in_order() {
    let specs = vec![
        wasm_spec("STPhrases", Some("Append"), &[("测试", "X1"), ("软件", "軟件")]),
        wasm_spec("STPhrases", Some("Override"), &[("软件", "軟體")]),
    ];
    let cc = OpenccWasm::new_with_custom_dicts(None, specs).unwrap();
    assert_eq!(cc.convert("软件", false), "軟體");
    // The overridden slot no longer holds 测试; the characters still convert.
    assert_eq!(cc.convert("测试", false), "測試");

    let specs = vec![
        wasm_spec("STPhrases", Some("Override"), &[("软件", "軟體")]),
        wasm_spec("STPhrases", Some("Append"), &[("云端", "雲端")]),
    ];
    let cc = OpenccWasm::new_with_custom_dicts(None, specs).unwrap();
    assert_eq!(cc.convert("软件云端", false), "軟體雲端");
}

#[test]
fn custom_dicts_error_order() {
    let specs = vec![wasm_spec("Nope", None, &[])];
    let err = OpenccWasm::new_with_custom_dicts(Some("bad".to_string()), specs)
        .err()
        .unwrap();
    assert_eq!(err, "Invalid OpenCC config: bad");

    let specs = vec![
        wasm_spec("STPhrases", None, &[("a", "b")]),
        wasm_spec("Nope", Some("Append"), &[]),
        wasm_spec("STPhrases", Some("Merge"), &[]),
    ];
    let err = OpenccWasm::new_with_custom_dicts(None, specs).err().unwrap();
    assert_eq!(err, "Invalid DictSlot: Nope");

    let specs = vec![wasm_spec("STPhrases", Some("Merge"), &[])];
    let err = OpenccWasm::new_with_custom_dicts(None, specs).err().unwrap();
    assert_eq!(err, "Invalid CustomDictMode: Merge");
}

// ---------------------------------------------------------------------------
// Maximum matching, segmentation and rounds.

#[test]
fn longest_phrase_wins_over_characters() {
    let d = dictionary(vec![
        spec(DictSlot::STPhrases, CustomDictMode::Append, &[("头发", "頭髮")]),
        spec(
            DictSlot::STCharacters,
            CustomDictMode::Append,
            &[("头", "頭"), ("发", "發")],
        ),
    ]);
    let cc = OpenCC::from_dictionary(d);
    assert_eq!(cc.convert("头发", "s2t", false), "頭髮");
    assert_eq!(cc.convert("发现头", "s2t", false), "發现頭");
}

#[test]
fn first_dictionary_of_a_round_wins() {
    let d = dictionary(vec![
        spec(DictSlot::STPhrases, CustomDictMode::Append, &[("干", "幹")]),
        spec(DictSlot::STCharacters, CustomDictMode::Append, &[("干", "乾")]),
    ]);
    let cc = OpenCC::from_dictionary(d);
    assert_eq!(cc.convert("干", "s2t", false), "幹");
}

#[test]
fn phrases_do_not_cross_delimiters() {
    let d = dictionary(vec![spec(
        DictSlot::STPhrases,
        CustomDictMode::Append,
        &[("头发", "頭髮"), ("头，发", "X")],
    )]);
    let cc = OpenCC::from_dictionary(d);
    assert_eq!(cc.convert("头，发", "s2t", false), "头，发");
    assert_eq!(cc.convert("头发，头发", "s2t", false), "頭髮，頭髮");
}

#[test]
fn segments_convert_independently() {
    let d = dictionary(vec![
        spec(DictSlot::STPhrases, CustomDictMode::Append, &[("头发", "頭髮"), ("发，头", "X")]),
        spec(DictSlot::STCharacters, CustomDictMode::Append, &[("发", "發")]),
    ]);
    let cc = OpenCC::from_dictionary(d);
    let a = "发头发，";
    let b = "头发发";
    let whole = cc.convert(&format!("{a}{b}"), "s2t", false);
    assert_eq!(
        whole,
        format!("{}{}", cc.convert(a, "s2t", false), cc.convert(b, "s2t", false))
    );
    assert_eq!(whole, "發頭髮，頭髮發");
}

#[test]
fn lone_delimiter_segment_is_kept() {
    // A delimiter right after another delimiter forms a segment of its own
    // and is copied; one that ends a longer segment is matched with it.
    let d = dictionary(vec![spec(
        DictSlot::STPunctuations,
        CustomDictMode::Append,
        &[("，", "、")],
    )]);
    let cc = OpenCC::from_dictionary(d);
    assert_eq!(cc.convert("a，，", "s2t", true), "a、，");
}

#[test]
fn unknown_config_name_gives_message() {
    let cc = OpenCC::new_embedded();
    assert_eq!(cc.convert("汉字", "bad", false), "Invalid config: bad");
}

#[test]
fn punctuation_rounds() {
    let d = dictionary(vec![
        spec(DictSlot::STCharacters, CustomDictMode::Append, &[("汉", "漢")]),
        spec(DictSlot::TSCharacters, CustomDictMode::Append, &[("漢", "汉")]),
        spec(DictSlot::TWVariants, CustomDictMode::Append, &[("裏", "裡")]),
        spec(
            DictSlot::STPunctuations,
            CustomDictMode::Append,
            &[("“", "「"), ("”", "」")],
        ),
        spec(
            DictSlot::TSPunctuations,
            CustomDictMode::Append,
            &[("「", "“"), ("」", "”")],
        ),
    ]);
    let cc = OpenCC::from_dictionary(d);
    assert_eq!(cc.convert("“汉字”", "s2t", true), "「漢字」");
    assert_eq!(cc.convert("“汉字”", "s2t", false), "“漢字”");
    assert_eq!(cc.convert("「漢字」", "t2s", true), "“汉字”");
    assert_eq!(cc.convert("「漢字」", "t2s", false), "「汉字」");
    assert_eq!(cc.convert("“裏”", "t2tw", true), "“裡”");
    assert_eq!(cc.convert("“裏”", "t2tw", false), "“裡”");
}

#[test]
fn two_round_taiwan_phrases() {
    let d = dictionary(vec![
        spec(
            DictSlot::STPhrases,
            CustomDictMode::Append,
            &[("奔驰", "奔馳"), ("出租车", "出租車")],
        ),
        spec(
            DictSlot::STCharacters,
            CustomDictMode::Append,
            &[("预", "預"), ("订", "訂")],
        ),
        spec(
            DictSlot::STPunctuations,
            CustomDictMode::Append,
            &[("‘", "『"), ("’", "』")],
        ),
        spec(
            DictSlot::TWPhrases,
            CustomDictMode::Append,
            &[("奔馳", "賓士"), ("出租車", "計程車")],
        ),
    ]);
    let cc = OpenCC::from_dictionary(d);
    assert_eq!(
        cc.convert("预订‘奔驰’品牌出租车", "s2twp", true),
        "預訂『賓士』品牌計程車"
    );
}

#[test]
fn ids_preservation() {
    let d = dictionary(vec![spec(
        DictSlot::STCharacters,
        CustomDictMode::Append,
        &[("汉", "漢")],
    )]);
    let mut cc = OpenCC::from_dictionary(d);
    assert!(!cc.get_preserve_ids());
    assert_eq!(cc.convert("汉⿰汉字汉", "s2t", false), "漢⿰漢字漢");
    cc.set_preserve_ids(true);
    assert!(cc.get_preserve_ids());
    assert_eq!(cc.convert("汉⿰汉字汉", "s2t", false), "漢⿰汉字漢");
    assert_eq!(cc.convert("⿰汉字", "s2t", false), "⿰汉字");
    // An incomplete sequence is converted as ordinary text.
    assert_eq!(cc.convert("⿰汉", "s2t", false), "⿰漢");
}

#[test]
fn converter_preserve_ids_switch() {
    let d = dictionary(vec![spec(
        DictSlot::STCharacters,
        CustomDictMode::Append,
        &[("汉", "漢")],
    )]);
    let mut cc = OpenccWasm::from_engine(OpenCC::from_dictionary(d), OpenccConfig::S2t);
    assert_eq!(cc.convert("⿱汉字", false), "⿱漢字");
    cc.set_preserve_ids(true);
    assert!(cc.get_preserve_ids());
    assert_eq!(cc.get_config(), "s2t");
    assert_eq!(cc.convert("⿱汉字", false), "⿱汉字");
}

#[test]
fn parallel_switch() {
    let mut cc = OpenCC::new_embedded();
    assert!(cc.get_parallel());
    cc.set_parallel(false);
    assert!(!cc.get_parallel());
}

// ---------------------------------------------------------------------------
// Script detection.

#[test]
fn zho_check_edge_cases() {
    let cc = OpenCC::from_dictionary(dictionary(vec![
        spec(
            DictSlot::TSCharacters,
            CustomDictMode::Append,
            &[("漢", "汉"), ("著", "着")],
        ),
        spec(DictSlot::STCharacters, CustomDictMode::Append, &[("汉", "漢")]),
    ]));
    assert_eq!(cc.zho_check(""), 0);
    assert_eq!(cc.zho_check("abc 123!"), 0);
    assert_eq!(cc.zho_check("字字"), 0);
    // `著` is left out of the sample.
    assert_eq!(cc.zho_check("著"), 0);
    assert_eq!(cc.zho_check("abc 漢"), 1);
}

#[test]
fn zho_check_sample_bounds() {
    let cc = OpenCC::from_dictionary(dictionary(vec![spec(
        DictSlot::TSCharacters,
        CustomDictMode::Append,
        &[("漢", "汉")],
    )]));
    // 65 three-byte characters and one more fit in 200 bytes; 66 do not.
    let inside = format!("{}漢", "字".repeat(65));
    let outside = format!("{}漢", "字".repeat(66));
    assert_eq!(cc.zho_check(&inside), 1);
    assert_eq!(cc.zho_check(&outside), 0);
    // ASCII is removed before the 200-byte cut, but after the 1000-byte one.
    let ascii_first = format!("{}漢", "a".repeat(500));
    assert_eq!(cc.zho_check(&ascii_first), 1);
    let ascii_long = format!("{}漢", "a".repeat(1000));
    assert_eq!(cc.zho_check(&ascii_long), 0);
}

// ---------------------------------------------------------------------------
// DeToFu and normalization.

#[test]
fn detofu_levels() {
    let engine = OpenCC::from_parts(
        DictionaryMaxlength::empty(),
        TofuTable::from_entries(vec![('𬴂', '騑', DetofuLevel::ExtE), ('騑', 'X', DetofuLevel::ExtB)]),
        CharTable::empty(),
        CharTable::empty(),
    );
    assert_eq!(engine.detofu("a𬴂騑", DetofuLevel::ExtB), "a騑騑");
    assert_eq!(engine.detofu("a𬴂騑", DetofuLevel::ExtD), "a騑騑");
    assert_eq!(engine.detofu("a𬴂騑", DetofuLevel::ExtE), "a𬴂騑");
    assert_eq!(engine.detofu("a𬴂騑", DetofuLevel::ExtF), "a𬴂騑");
    let mut out = String::from(">");
    engine.detofu_into("𬴂", DetofuLevel::ExtC, &mut out);
    assert_eq!(out, ">騑");
}

#[test]
fn convert_detofu_is_convert_then_detofu() {
    let cc = OpenccWasm::new(Some("t2s".to_string())).unwrap();
    let text = "儼驂騑於上路";
    let direct = cc.convert_detofu(text, false, DetofuLevelWasm::ExtB);
    assert_eq!(direct, "俨骖騑于上路");
    assert_eq!(direct, cc.detofu(&cc.convert(text, false), DetofuLevelWasm::ExtB));
    assert_eq!(
        cc.convert_detofu(text, false, DetofuLevelWasm::ExtF),
        "俨骖𬴂于上路"
    );
}

fn normalizing_converter() -> OpenccWasm {
    let engine = OpenCC::from_parts(
        DictionaryMaxlength::empty(),
        TofuTable::empty(),
        CharTable::from_pairs(vec![('\u{F90A}', '金'), ('a', 'b')]),
        CharTable::from_pairs(vec![('金', '銀'), ('聼', '听'), ('聼', '聽'), ('⺙', '攵')]),
    );
    OpenccWasm::from_engine(engine, OpenccConfig::T2s)
}

#[test]
fn normalization_passes() {
    let cc = normalizing_converter();
    // The ideograph pass only looks at the compatibility blocks.
    assert_eq!(cc.normalize_compat("\u{F90A}金a"), "金金a");
    // The extended pass never changes ASCII; later pairs win.
    assert_eq!(cc.normalize_unicode_compat("\u{F90A}金聼⺙a"), "\u{F90A}銀聽攵a");
    // Complete normalization: the ideograph result is not passed on.
    assert_eq!(cc.normalize_compat_extended("\u{F90A}金聼a"), "金銀聽a");
    assert_eq!(cc.normalize_compat_extended("ABC123 中文"), "ABC123 中文");
}

#[test]
fn version_string() {
    assert_eq!(OpenccWasm::version(), "0.4.0");
}

#[test]
fn debug_ping_converts_sample() {
    let cc = OpenccWasm::from_engine(
        OpenCC::from_dictionary(dictionary(vec![spec(
            DictSlot::STCharacters,
            CustomDictMode::Append,
            &[("汉", "漢")],
        )])),
        OpenccConfig::T2s,
    );
    assert_eq!(cc.debug_ping(), "漢字");
}

#[test]
fn slot_spelling_does_not_change_the_converter() {
    let a = vec![wasm_spec("stphrases", None, &[("帕兰蒂尔", "柏蘭蒂爾")])];
    let b = vec![wasm_spec(" STPhrases ", Some("Append"), &[("帕兰蒂尔", "柏蘭蒂爾")])];
    let ca = OpenccWasm::new_with_custom_dicts(None, a).unwrap();
    let cb = OpenccWasm::new_with_custom_dicts(None, b).unwrap();
    for text in ["帕兰蒂尔软件", "汉字转换测试"] {
        assert_eq!(ca.convert(text, false), cb.convert(text, false));
    }
    assert_eq!(ca.convert("帕兰蒂尔", false), "柏蘭蒂爾");
}

#[test]
fn ids_switch_leaves_text_without_operators() {
    let mut cc = OpenccWasm::new(Some("s2twp".to_string())).unwrap();
    let text = "预订‘奔驰’品牌出租车，汉字转换测试";
    let off = cc.convert(text, true);
    cc.set_preserve_ids(true);
    assert_eq!(cc.convert(text, true), off);
}

#[test]
fn detofu_levels_are_ordered() {
    assert!(DetofuLevel::ExtB < DetofuLevel::ExtC);
    assert!(DetofuLevel::ExtH < DetofuLevel::ExtI);
    assert!(DetofuLevel::ExtE >= DetofuLevel::ExtE);
}

#[test]
fn bundled_engine_is_shared_by_dictionary_constructor() {
    let a = OpenCC::new_embedded();
    let b = OpenCC::from_dictionary(DictionaryMaxlength::from_embedded());
    for text in ["汉字转换测试", "头发"] {
        assert_eq!(a.convert(text, "s2t", false), b.convert(text, "s2t", false));
    }
    assert_eq!(a.convert("汉字转换测试", "s2t", false), "漢字轉換測試");
    assert_eq!(a.convert("漢字轉換測試", "t2s", false), "汉字转换测试");
}

#[test]
fn detofu_level_is_highest_safe_block() {
    let cc = OpenccWasm::new(None).unwrap();
    assert_eq!(cc.detofu("\u{2CD02}", DetofuLevelWasm::ExtE), "\u{2CD02}");
    assert_eq!(cc.detofu("\u{2CD02}", DetofuLevelWasm::ExtF), "\u{2CD02}");
    assert_eq!(cc.detofu("\u{2CD02}", DetofuLevelWasm::ExtD), "騑");
    assert_eq!(cc.detofu("\u{2CD02}", DetofuLevelWasm::ExtB), "騑");
}

#[test]
fn bundled_compat_normalization_is_idempotent() {
    let cc = OpenccWasm::new(None).unwrap();
    let mut text = String::new();
    for u in (0xF900u32..=0xFAFF).chain(0x2F800..=0x2FA1F) {
        text.push(char::from_u32(u).unwrap());
    }
    let once = cc.normalize_compat(&text);
    assert_eq!(once.chars().count(), text.chars().count());
    assert_eq!(cc.normalize_compat(&once), once);
}

#[test]
fn bundled_complete_normalization_is_extended_then_compat() {
    let cc = OpenccWasm::new(None).unwrap();
    let mut text = String::new();
    for (i, c) in unicode_compat::UNICODE_COMPAT_0.chars().enumerate() {
        if i % 2 == 0 {
            text.push(c);
        }
    }
    for c in compat_ideographs::COMPAT_IDEOGRAPHS_0.chars() {
        text.push(c);
    }
    text.push_str("ABC123 中文");
    let complete = cc.normalize_compat_extended(&text);
    assert_eq!(complete, cc.normalize_compat(&cc.normalize_unicode_compat(&text)));
}

#[test]
fn slot_spelling_invalid_names_fail_alike() {
    let a = vec![wasm_spec("Nope", None, &[])];
    let b = vec![wasm_spec(" NOPE ", None, &[])];
    assert!(OpenccWasm::new_with_custom_dicts(None, a).is_err());
    assert!(OpenccWasm::new_with_custom_dicts(None, b).is_err());
}
