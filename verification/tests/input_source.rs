use dictum_core::input_source::{
    get_current_input_source, get_language_from_input_source, input_source_to_language,
    parse_linux_input_source, parse_macos_input_source, parse_windows_input_source, source_entries, HostOs,
};

#[test]
fn table_maps_sources_to_languages() {
    assert_eq!(input_source_to_language("com.apple.keylayout.US"), Some("en"));
    assert_eq!(input_source_to_language("com.apple.keylayout.Russian-PC"), Some("ru"));
    assert_eq!(input_source_to_language("00000407"), Some("de"));
    assert_eq!(input_source_to_language("vn"), Some("vi"));
    assert_eq!(input_source_to_language("unknown.layout"), None);
    assert!(source_entries().len() > 100);
}

#[test]
fn unknown_variant_falls_back_to_base_layout() {
    // A layout variant missing from the table is looked up by its base layout.
    assert_eq!(input_source_to_language("ru-phonetic"), input_source_to_language("ru"));
    assert_eq!(input_source_to_language("zz-variant"), None);
}

#[test]
fn language_from_input_source_passes_none_through() {
    assert_eq!(get_language_from_input_source(None), None);
    assert_eq!(get_language_from_input_source(Some("com.apple.keylayout.German")), Some("de".to_string()));
    assert_eq!(get_language_from_input_source(Some("nope")), None);
}

#[test]
fn macos_layout_name_wins_over_source_id() {
    let out = "(\n    {\n        InputSourceKind = \"Keyboard Layout\";\n        \"KeyboardLayout ID\" = 19458;\n        \"KeyboardLayout Name\" = \"Russian - PC\";\n    }\n)\n";
    assert_eq!(parse_macos_input_source(out), Some("com.apple.keylayout.Russian-PC".to_string()));
}

#[test]
fn macos_input_source_id_is_used_without_layout_name() {
    let out = "(\n    {\n        \"Bundle ID\" = \"com.apple.inputmethod.Kotoeri\";\n        \"Input Source ID\" = \"com.apple.inputmethod.Japanese\";\n    }\n)\n";
    assert_eq!(parse_macos_input_source(out), Some("com.apple.inputmethod.Japanese".to_string()));
    assert_eq!(parse_macos_input_source("(\n)\n"), None);
    assert_eq!(parse_macos_input_source("\"Input Source ID\" = \"org.other\";"), None);
}

#[test]
fn windows_takes_the_lowercased_last_field() {
    assert_eq!(parse_windows_input_source("0409:00000409\r\n"), "00000409");
    assert_eq!(parse_windows_input_source("  0407:0000040A  "), "0000040a");
    assert_eq!(parse_windows_input_source("noColon"), "nocolon");
}

#[test]
fn linux_reads_first_layout_then_lang() {
    let out = "rules:      evdev\nmodel:      pc105\nlayout:     us,ru\n";
    assert_eq!(parse_linux_input_source(Some(out), Some("de_DE.UTF-8")), Some("us".to_string()));
    assert_eq!(parse_linux_input_source(Some("rules: evdev\n"), Some("de_DE.UTF-8")), Some("de".to_string()));
    assert_eq!(parse_linux_input_source(None, Some("PT_BR.UTF-8")), Some("pt".to_string()));
    assert_eq!(parse_linux_input_source(None, None), None);
}

#[test]
fn current_input_source_dispatches_on_the_platform() {
    assert_eq!(
        get_current_input_source(HostOs::Windows, Some("0409:00000409"), None),
        Some("00000409".to_string())
    );
    assert_eq!(get_current_input_source(HostOs::Linux, None, Some("fr_FR.UTF-8")), Some("fr".to_string()));
    assert_eq!(get_current_input_source(HostOs::Other, Some("x"), Some("fr_FR")), None);
}
