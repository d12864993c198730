use dictum_core::lang_id::{detection_allowlist, iso639_1_for_whatlang, whatlang_lang_for_iso639_1};
use whatlang::Lang;

#[test]
fn chinese_maps_between_zh_and_cmn() {
    assert_eq!(whatlang_lang_for_iso639_1("zh").and_then(Lang::from_code), Some(Lang::Cmn));
    assert_eq!(iso639_1_for_whatlang(Lang::Cmn.code()), Some("zh"));
}

#[test]
fn iso_codes_map_through_639_3() {
    assert_eq!(whatlang_lang_for_iso639_1("pt"), Some("por"));
    assert_eq!(whatlang_lang_for_iso639_1("en"), Some("eng"));
    assert_eq!(whatlang_lang_for_iso639_1("xx"), None);
    assert_eq!(whatlang_lang_for_iso639_1("eng"), None);
    assert_eq!(iso639_1_for_whatlang("por"), Some("pt"));
    let allow = detection_allowlist(&vec!["en".to_string(), "zz".to_string(), "zh".to_string()]);
    assert_eq!(allow, vec!["eng", "cmn"]);
}
