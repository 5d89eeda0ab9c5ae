use input_switcher::errors::ImeError;
use input_switcher::lang::LangID;

#[test]
fn from_code_knows_the_seven_languages() {
    assert_eq!(LangID::from(0x0409), LangID::EN);
    assert_eq!(LangID::from(0x0804), LangID::ZH);
    assert_eq!(LangID::from(0x0404), LangID::Zhtw);
    assert_eq!(LangID::from(0x0411), LangID::JA);
    assert_eq!(LangID::from(0x0412), LangID::KO);
    assert_eq!(LangID::from(0x040C), LangID::FR);
    assert_eq!(LangID::from(0x0407), LangID::DE);
}

#[test]
fn from_code_keeps_any_other_identifier() {
    assert_eq!(LangID::from(0), LangID::Other(0));
    assert_eq!(LangID::from(0x0809), LangID::Other(0x0809));
    assert_eq!(LangID::from(0x0408), LangID::Other(0x0408));
    assert_eq!(LangID::from(u32::MAX), LangID::Other(u32::MAX));
}

#[test]
fn into_goes_through_from() {
    let lang: LangID = 0x0411u32.into();
    assert_eq!(lang, LangID::JA);
}

#[test]
fn an_identifier_of_the_table_is_never_other() {
    for code in [0x0409u32, 0x0804, 0x0404, 0x0411, 0x0412, 0x040C, 0x0407] {
        assert_ne!(LangID::from(code), LangID::Other(code));
    }
}

#[test]
fn try_from_reads_every_tag() {
    assert_eq!(LangID::try_from("en").unwrap(), LangID::EN);
    assert_eq!(LangID::try_from("zh").unwrap(), LangID::ZH);
    assert_eq!(LangID::try_from("zh-cn").unwrap(), LangID::ZH);
    assert_eq!(LangID::try_from("zh-tw").unwrap(), LangID::Zhtw);
    assert_eq!(LangID::try_from("ja").unwrap(), LangID::JA);
    assert_eq!(LangID::try_from("jp").unwrap(), LangID::JA);
    assert_eq!(LangID::try_from("ko").unwrap(), LangID::KO);
    assert_eq!(LangID::try_from("fr").unwrap(), LangID::FR);
    assert_eq!(LangID::try_from("de").unwrap(), LangID::DE);
}

#[test]
fn try_from_ignores_the_case_of_a_tag() {
    assert_eq!(LangID::try_from("EN").unwrap(), LangID::EN);
    assert_eq!(LangID::try_from("Zh-TW").unwrap(), LangID::Zhtw);
    assert_eq!(LangID::try_from("zh-CN").unwrap(), LangID::ZH);
    assert_eq!(LangID::try_from("Jp").unwrap(), LangID::JA);
    assert_eq!(LangID::try_from("DE").unwrap(), LangID::DE);
}

#[test]
fn try_from_lowers_what_is_no_ascii_letter() {
    // U+212A, the Kelvin sign, has the small letter k as its lower case.
    assert_eq!(LangID::try_from("\u{212A}o").unwrap(), LangID::KO);
}

#[test]
fn try_from_reads_a_hexadecimal_identifier() {
    assert_eq!(LangID::try_from("0x409").unwrap(), LangID::EN);
    assert_eq!(LangID::try_from("0x0409").unwrap(), LangID::EN);
    assert_eq!(LangID::try_from("0x0804").unwrap(), LangID::ZH);
    assert_eq!(LangID::try_from("0x040c").unwrap(), LangID::FR);
    assert_eq!(LangID::try_from("0x040C").unwrap(), LangID::FR);
    assert_eq!(LangID::try_from("0x1234").unwrap(), LangID::Other(0x1234));
    assert_eq!(LangID::try_from("0xFFFFFFFF").unwrap(), LangID::Other(u32::MAX));
    assert_eq!(LangID::try_from("0x+409").unwrap(), LangID::EN);
    assert_eq!(LangID::try_from("0x0").unwrap(), LangID::Other(0));
}

#[test]
fn try_from_reads_a_decimal_identifier() {
    assert_eq!(LangID::try_from("1033").unwrap(), LangID::EN);
    assert_eq!(LangID::try_from("2052").unwrap(), LangID::ZH);
    assert_eq!(LangID::try_from("+1041").unwrap(), LangID::JA);
    assert_eq!(LangID::try_from("0").unwrap(), LangID::Other(0));
    assert_eq!(LangID::try_from("0409").unwrap(), LangID::Other(409));
    assert_eq!(LangID::try_from("4294967295").unwrap(), LangID::Other(u32::MAX));
}

#[test]
fn try_from_refuses_what_is_neither_tag_nor_identifier() {
    for text in [
        "", " ", "english", "en ", " en", "e n", "zh_tw", "0x", "0X409", "0xG", "0x100000000",
        "4294967296", "-1", "10 33", "1_033", "x409", "--toggle",
    ] {
        match LangID::try_from(text) {
            Err(ImeError::Unsupported(given)) => assert_eq!(given, text),
            Ok(lang) => panic!("{:?} was read as {:?}", text, lang),
        }
    }
}

#[test]
fn a_hexadecimal_identifier_comes_before_a_decimal_one() {
    // After `0x` the digits are hexadecimal even where they look decimal.
    assert_eq!(LangID::try_from("0x1033").unwrap(), LangID::Other(0x1033));
    assert_eq!(LangID::try_from("0x10").unwrap(), LangID::Other(16));
}

#[test]
fn resolve_takes_the_lowered_text_as_given() {
    assert_eq!(LangID::resolve("EN", "en").unwrap(), LangID::EN);
    assert_eq!(LangID::resolve("anything", "ko").unwrap(), LangID::KO);
    assert_eq!(LangID::resolve("0x0407", "fr").unwrap(), LangID::DE);
    assert_eq!(LangID::resolve("1033", "ja").unwrap(), LangID::JA);
    assert_eq!(LangID::resolve("1033", "1033").unwrap(), LangID::EN);
    assert_eq!(LangID::resolve("0xZZ", "de").unwrap(), LangID::DE);
    match LangID::resolve("EN", "EN") {
        Err(ImeError::Unsupported(given)) => assert_eq!(given, "EN"),
        Ok(lang) => panic!("read as {:?}", lang),
    }
}

#[test]
fn from_tag_is_exact() {
    assert_eq!(LangID::from_tag("en"), Some(LangID::EN));
    assert_eq!(LangID::from_tag("zh-cn"), Some(LangID::ZH));
    assert_eq!(LangID::from_tag("jp"), Some(LangID::JA));
    assert_eq!(LangID::from_tag("EN"), None);
    assert_eq!(LangID::from_tag("e"), None);
    assert_eq!(LangID::from_tag("enn"), None);
    assert_eq!(LangID::from_tag("zh-"), None);
    assert_eq!(LangID::from_tag(""), None);
    assert_eq!(LangID::from_tag("1033"), None);
}

#[test]
fn from_numeral_reads_in_the_radix_given() {
    assert_eq!(LangID::from_numeral("409", 16), Some(LangID::EN));
    assert_eq!(LangID::from_numeral("409", 10), Some(LangID::Other(409)));
    assert_eq!(LangID::from_numeral("10000001001", 2), Some(LangID::EN));
    assert_eq!(LangID::from_numeral("100000000", 16), None);
    assert_eq!(LangID::from_numeral("", 10), None);
}

#[test]
fn name_of_each_language() {
    assert_eq!(LangID::EN.name(), "英文");
    assert_eq!(LangID::ZH.name(), "中文 (简体)");
    assert_eq!(LangID::Zhtw.name(), "中文 (繁体)");
    assert_eq!(LangID::JA.name(), "日语");
    assert_eq!(LangID::KO.name(), "韩语");
    assert_eq!(LangID::FR.name(), "法语");
    assert_eq!(LangID::DE.name(), "德语");
    assert_eq!(LangID::Other(7).name(), "其他");
    assert_eq!(LangID::Other(0x0409).name(), "其他");
}

#[test]
fn to_string_shows_the_word_or_the_identifier() {
    assert_eq!(LangID::EN.to_string(), "英语");
    assert_eq!(LangID::ZH.to_string(), "中文(简体)");
    assert_eq!(LangID::Zhtw.to_string(), "中文(繁体)");
    assert_eq!(LangID::JA.to_string(), "日语");
    assert_eq!(LangID::KO.to_string(), "韩语");
    assert_eq!(LangID::FR.to_string(), "法语");
    assert_eq!(LangID::DE.to_string(), "德语");
    assert_eq!(LangID::Other(0).to_string(), "自定义: 0");
    assert_eq!(LangID::Other(2057).to_string(), "自定义: 2057");
    assert_eq!(LangID::Other(u32::MAX).to_string(), "自定义: 4294967295");
}

#[test]
fn ime_error_reports_the_text_it_was_given() {
    let e = ImeError::Unsupported(String::from("klingon"));
    assert_eq!(e.message(), "Unsupported language format: klingon");
    let e = LangID::try_from("").unwrap_err();
    assert_eq!(e.message(), "Unsupported language format: ");
}

#[test]
fn languages_are_ordered_by_identifier() {
    assert!(LangID::Zhtw < LangID::DE);
    assert!(LangID::DE < LangID::EN);
    assert!(LangID::EN < LangID::FR);
    assert!(LangID::FR < LangID::JA);
    assert!(LangID::JA < LangID::KO);
    assert!(LangID::KO < LangID::ZH);
    assert!(LangID::ZH > LangID::EN);
    assert!(LangID::EN <= LangID::EN);
}

#[test]
fn languages_outside_the_table_are_ordered_between_german_and_english() {
    assert!(LangID::DE < LangID::Other(0));
    assert!(LangID::Other(u32::MAX) < LangID::EN);
    assert!(LangID::Zhtw < LangID::Other(0x0001));
    assert!(LangID::Other(0x0FFF) < LangID::ZH);
    assert!(LangID::Other(1) < LangID::Other(2));
    assert!(LangID::Other(0x0809) > LangID::Other(0x0408));
    assert!(LangID::Other(7) >= LangID::Other(7));
}

#[test]
fn code_of_each_language() {
    assert_eq!(LangID::EN.code(), 0x0409);
    assert_eq!(LangID::ZH.code(), 0x0804);
    assert_eq!(LangID::Zhtw.code(), 0x0404);
    assert_eq!(LangID::JA.code(), 0x0411);
    assert_eq!(LangID::KO.code(), 0x0412);
    assert_eq!(LangID::FR.code(), 0x040C);
    assert_eq!(LangID::DE.code(), 0x0407);
    assert_eq!(LangID::Other(0x0809).code(), 0x0809);
    assert_eq!(LangID::Other(0x0409).code(), 0x0409);
    assert_eq!(LangID::Other(u32::MAX).code(), u32::MAX);
}

#[test]
fn an_identifier_comes_back_from_its_language() {
    for code in [0u32, 1, 0x0404, 0x0407, 0x0408, 0x0409, 0x040C, 0x0411, 0x0412, 0x0804, 0xFFFF, u32::MAX] {
        assert_eq!(LangID::from(code).code(), code);
    }
    for lang in [
        LangID::EN, LangID::ZH, LangID::Zhtw, LangID::JA, LangID::KO, LangID::FR, LangID::DE,
        LangID::Other(0x0809),
    ] {
        assert_eq!(LangID::from(lang.code()), lang);
    }
    assert_eq!(LangID::from(LangID::Other(0x0409).code()), LangID::EN);
}
