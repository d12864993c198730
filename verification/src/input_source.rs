//! The keyboard input source, and the language it implies.
//!
//! The current input source is read from the platform (macOS `defaults`,
//! Windows PowerShell, Linux `setxkbmap` or `LANG`); the caller runs the
//! command and hands its output here. Input source ids map to ISO 639-1
//! language codes through a fixed table.

use vstd::prelude::*;
use vstd::string::*;
use crate::scan::{
    contains_chars, find_first, has_substring, lines, lines_of, remove_all, remove_char, split_on,
    split_segments, starts_with, starts_with_chars, tail_from, trim, trim_chars, TrimSet,
};
use crate::text::{before_first, chars_of, lowercase_of, split_first, str_eq, string_from_chars, to_lowercase};

verus! {

/// Input source ids (macOS TIS identifiers, Windows keyboard layout ids,
/// Linux XKB layouts) and the ISO 639-1 language each one types.
pub open spec fn source_table() -> Seq<(Seq<char>, Seq<char>)> {
    seq![
        ("com.apple.keylayout.US"@, "en"@),
        ("com.apple.keylayout.British"@, "en"@),
        ("com.apple.keylayout.ABC"@, "en"@),
        ("com.apple.keylayout.Australian"@, "en"@),
        ("com.apple.keylayout.Russian"@, "ru"@),
        ("com.apple.keylayout.Russian-PC"@, "ru"@),
        ("com.apple.keylayout.RussianWin"@, "ru"@),
        ("com.apple.keylayout.German"@, "de"@),
        ("com.apple.keylayout.Spanish"@, "es"@),
        ("com.apple.keylayout.Spanish-ISO"@, "es"@),
        ("com.apple.keylayout.French"@, "fr"@),
        ("com.apple.keylayout.Italian"@, "it"@),
        ("com.apple.keylayout.Portuguese"@, "pt"@),
        ("com.apple.keylayout.Brazilian"@, "pt"@),
        ("com.apple.keylayout.Japanese"@, "ja"@),
        ("com.apple.keylayout.Chinese"@, "zh"@),
        ("com.apple.keylayout.SimplifiedChinese"@, "zh"@),
        ("com.apple.keylayout.TraditionalChinese"@, "zh"@),
        ("com.apple.keylayout.Korean"@, "ko"@),
        ("com.apple.keylayout.Arabic"@, "ar"@),
        ("com.apple.keylayout.Hebrew"@, "he"@),
        ("com.apple.keylayout.Turkish"@, "tr"@),
        ("com.apple.keylayout.Polish"@, "pl"@),
        ("com.apple.keylayout.Dutch"@, "nl"@),
        ("com.apple.keylayout.Ukrainian"@, "uk"@),
        ("com.apple.keylayout.Greek"@, "el"@),
        ("com.apple.keylayout.Swedish"@, "sv"@),
        ("com.apple.keylayout.Norwegian"@, "no"@),
        ("com.apple.keylayout.Danish"@, "da"@),
        ("com.apple.keylayout.Finnish"@, "fi"@),
        ("com.apple.keylayout.Czech"@, "cs"@),
        ("com.apple.keylayout.Hungarian"@, "hu"@),
        ("com.apple.keylayout.Romanian"@, "ro"@),
        ("com.apple.keylayout.Thai"@, "th"@),
        ("com.apple.keylayout.Vietnamese"@, "vi"@),
        ("com.apple.keylayout.Hindi"@, "hi"@),
        ("com.apple.keylayout.Indonesian"@, "id"@),
        ("com.apple.keylayout.Malay"@, "ms"@),
        ("com.apple.inputmethod.SCIM.ITABC"@, "zh"@),
        ("com.apple.inputmethod.SCIM.Shuangpin"@, "zh"@),
        ("com.apple.inputmethod.TCIM.Cangjie"@, "zh"@),
        ("com.apple.inputmethod.Kotoeri.Japanese"@, "ja"@),
        ("com.apple.inputmethod.Korean"@, "ko"@),
        ("00000409"@, "en"@),
        ("00000809"@, "en"@),
        ("00000419"@, "ru"@),
        ("00000407"@, "de"@),
        ("0000040a"@, "es"@),
        ("0000040c"@, "fr"@),
        ("00000410"@, "it"@),
        ("00000816"@, "pt"@),
        ("00000416"@, "pt"@),
        ("00000411"@, "ja"@),
        ("00000804"@, "zh"@),
        ("00000404"@, "zh"@),
        ("00000412"@, "ko"@),
        ("00000401"@, "ar"@),
        ("0000040d"@, "he"@),
        ("0000041f"@, "tr"@),
        ("00000415"@, "pl"@),
        ("00000413"@, "nl"@),
        ("00000422"@, "uk"@),
        ("00000408"@, "el"@),
        ("0000041d"@, "sv"@),
        ("00000414"@, "no"@),
        ("00000406"@, "da"@),
        ("0000040b"@, "fi"@),
        ("00000405"@, "cs"@),
        ("0000040e"@, "hu"@),
        ("00000418"@, "ro"@),
        ("0000041e"@, "th"@),
        ("0000042a"@, "vi"@),
        ("00000439"@, "hi"@),
        ("00000421"@, "id"@),
        ("0000043e"@, "ms"@),
        ("us"@, "en"@),
        ("gb"@, "en"@),
        ("ru"@, "ru"@),
        ("de"@, "de"@),
        ("es"@, "es"@),
        ("fr"@, "fr"@),
        ("it"@, "it"@),
        ("pt"@, "pt"@),
        ("br"@, "pt"@),
        ("jp"@, "ja"@),
        ("cn"@, "zh"@),
        ("tw"@, "zh"@),
        ("kr"@, "ko"@),
        ("ara"@, "ar"@),
        ("il"@, "he"@),
        ("tr"@, "tr"@),
        ("pl"@, "pl"@),
        ("nl"@, "nl"@),
        ("ua"@, "uk"@),
        ("gr"@, "el"@),
        ("se"@, "sv"@),
        ("no"@, "no"@),
        ("dk"@, "da"@),
        ("fi"@, "fi"@),
        ("cz"@, "cs"@),
        ("hu"@, "hu"@),
        ("ro"@, "ro"@),
        ("th"@, "th"@),
        ("vn"@, "vi"@),
        ("in"@, "hi"@),
        ("id"@, "id"@),
        ("my"@, "ms"@)
    ]
}

/// Law: the input source table, entry by entry: each macOS layout,
/// Windows keyboard layout id and XKB layout with the ISO 639-1 code of the
/// language it types (for example the French layout and the Windows French
/// layout `0000040c` both type `fr`). The lookup walks these entries in this
/// order.
pub proof fn law_input_source_languages()
    ensures
        source_table().len() == 107,
        source_table()[0] == ("com.apple.keylayout.US"@, "en"@),
        source_table()[1] == ("com.apple.keylayout.British"@, "en"@),
        source_table()[2] == ("com.apple.keylayout.ABC"@, "en"@),
        source_table()[3] == ("com.apple.keylayout.Australian"@, "en"@),
        source_table()[4] == ("com.apple.keylayout.Russian"@, "ru"@),
        source_table()[5] == ("com.apple.keylayout.Russian-PC"@, "ru"@),
        source_table()[6] == ("com.apple.keylayout.RussianWin"@, "ru"@),
        source_table()[7] == ("com.apple.keylayout.German"@, "de"@),
        source_table()[8] == ("com.apple.keylayout.Spanish"@, "es"@),
        source_table()[9] == ("com.apple.keylayout.Spanish-ISO"@, "es"@),
        source_table()[10] == ("com.apple.keylayout.French"@, "fr"@),
        source_table()[11] == ("com.apple.keylayout.Italian"@, "it"@),
        source_table()[12] == ("com.apple.keylayout.Portuguese"@, "pt"@),
        source_table()[13] == ("com.apple.keylayout.Brazilian"@, "pt"@),
        source_table()[14] == ("com.apple.keylayout.Japanese"@, "ja"@),
        source_table()[15] == ("com.apple.keylayout.Chinese"@, "zh"@),
        source_table()[16] == ("com.apple.keylayout.SimplifiedChinese"@, "zh"@),
        source_table()[17] == ("com.apple.keylayout.TraditionalChinese"@, "zh"@),
        source_table()[18] == ("com.apple.keylayout.Korean"@, "ko"@),
        source_table()[19] == ("com.apple.keylayout.Arabic"@, "ar"@),
        source_table()[20] == ("com.apple.keylayout.Hebrew"@, "he"@),
        source_table()[21] == ("com.apple.keylayout.Turkish"@, "tr"@),
        source_table()[22] == ("com.apple.keylayout.Polish"@, "pl"@),
        source_table()[23] == ("com.apple.keylayout.Dutch"@, "nl"@),
        source_table()[24] == ("com.apple.keylayout.Ukrainian"@, "uk"@),
        source_table()[25] == ("com.apple.keylayout.Greek"@, "el"@),
        source_table()[26] == ("com.apple.keylayout.Swedish"@, "sv"@),
        source_table()[27] == ("com.apple.keylayout.Norwegian"@, "no"@),
        source_table()[28] == ("com.apple.keylayout.Danish"@, "da"@),
        source_table()[29] == ("com.apple.keylayout.Finnish"@, "fi"@),
        source_table()[30] == ("com.apple.keylayout.Czech"@, "cs"@),
        source_table()[31] == ("com.apple.keylayout.Hungarian"@, "hu"@),
        source_table()[32] == ("com.apple.keylayout.Romanian"@, "ro"@),
        source_table()[33] == ("com.apple.keylayout.Thai"@, "th"@),
        source_table()[34] == ("com.apple.keylayout.Vietnamese"@, "vi"@),
        source_table()[35] == ("com.apple.keylayout.Hindi"@, "hi"@),
        source_table()[36] == ("com.apple.keylayout.Indonesian"@, "id"@),
        source_table()[37] == ("com.apple.keylayout.Malay"@, "ms"@),
        source_table()[38] == ("com.apple.inputmethod.SCIM.ITABC"@, "zh"@),
        source_table()[39] == ("com.apple.inputmethod.SCIM.Shuangpin"@, "zh"@),
        source_table()[40] == ("com.apple.inputmethod.TCIM.Cangjie"@, "zh"@),
        source_table()[41] == ("com.apple.inputmethod.Kotoeri.Japanese"@, "ja"@),
        source_table()[42] == ("com.apple.inputmethod.Korean"@, "ko"@),
        source_table()[43] == ("00000409"@, "en"@),
        source_table()[44] == ("00000809"@, "en"@),
        source_table()[45] == ("00000419"@, "ru"@),
        source_table()[46] == ("00000407"@, "de"@),
        source_table()[47] == ("0000040a"@, "es"@),
        source_table()[48] == ("0000040c"@, "fr"@),
        source_table()[49] == ("00000410"@, "it"@),
        source_table()[50] == ("00000816"@, "pt"@),
        source_table()[51] == ("00000416"@, "pt"@),
        source_table()[52] == ("00000411"@, "ja"@),
        source_table()[53] == ("00000804"@, "zh"@),
        source_table()[54] == ("00000404"@, "zh"@),
        source_table()[55] == ("00000412"@, "ko"@),
        source_table()[56] == ("00000401"@, "ar"@),
        source_table()[57] == ("0000040d"@, "he"@),
        source_table()[58] == ("0000041f"@, "tr"@),
        source_table()[59] == ("00000415"@, "pl"@),
        source_table()[60] == ("00000413"@, "nl"@),
        source_table()[61] == ("00000422"@, "uk"@),
        source_table()[62] == ("00000408"@, "el"@),
        source_table()[63] == ("0000041d"@, "sv"@),
        source_table()[64] == ("00000414"@, "no"@),
        source_table()[65] == ("00000406"@, "da"@),
        source_table()[66] == ("0000040b"@, "fi"@),
        source_table()[67] == ("00000405"@, "cs"@),
        source_table()[68] == ("0000040e"@, "hu"@),
        source_table()[69] == ("00000418"@, "ro"@),
        source_table()[70] == ("0000041e"@, "th"@),
        source_table()[71] == ("0000042a"@, "vi"@),
        source_table()[72] == ("00000439"@, "hi"@),
        source_table()[73] == ("00000421"@, "id"@),
        source_table()[74] == ("0000043e"@, "ms"@),
        source_table()[75] == ("us"@, "en"@),
        source_table()[76] == ("gb"@, "en"@),
        source_table()[77] == ("ru"@, "ru"@),
        source_table()[78] == ("de"@, "de"@),
        source_table()[79] == ("es"@, "es"@),
        source_table()[80] == ("fr"@, "fr"@),
        source_table()[81] == ("it"@, "it"@),
        source_table()[82] == ("pt"@, "pt"@),
        source_table()[83] == ("br"@, "pt"@),
        source_table()[84] == ("jp"@, "ja"@),
        source_table()[85] == ("cn"@, "zh"@),
        source_table()[86] == ("tw"@, "zh"@),
        source_table()[87] == ("kr"@, "ko"@),
        source_table()[88] == ("ara"@, "ar"@),
        source_table()[89] == ("il"@, "he"@),
        source_table()[90] == ("tr"@, "tr"@),
        source_table()[91] == ("pl"@, "pl"@),
        source_table()[92] == ("nl"@, "nl"@),
        source_table()[93] == ("ua"@, "uk"@),
        source_table()[94] == ("gr"@, "el"@),
        source_table()[95] == ("se"@, "sv"@),
        source_table()[96] == ("no"@, "no"@),
        source_table()[97] == ("dk"@, "da"@),
        source_table()[98] == ("fi"@, "fi"@),
        source_table()[99] == ("cz"@, "cs"@),
        source_table()[100] == ("hu"@, "hu"@),
        source_table()[101] == ("ro"@, "ro"@),
        source_table()[102] == ("th"@, "th"@),
        source_table()[103] == ("vn"@, "vi"@),
        source_table()[104] == ("in"@, "hi"@),
        source_table()[105] == ("id"@, "id"@),
        source_table()[106] == ("my"@, "ms"@),
{
}

proof fn lemma_lookup_at(t: Seq<(Seq<char>, Seq<char>)>, key: Seq<char>, i: int)
    requires
        0 <= i < t.len(),
        t[i].0 == key,
        forall|j: int| 0 <= j < i ==> #[trigger] t[j].0 != key,
    ensures
        table_lookup(t, key) == Some(t[i].1),
    decreases i,
{
    if i > 0 {
        assert(t[0].0 != key);
        let rest = t.drop_first();
        assert forall|j: int| 0 <= j < i - 1 implies #[trigger] rest[j].0 != key by {
            assert(rest[j] == t[j + 1]);
        }
        lemma_lookup_at(rest, key, i - 1);
    }
}

/// Law: the French layouts type French: the macOS French layout and the
/// Windows French keyboard layout `0000040c` are looked up as `fr`.
pub proof fn law_french_layouts_type_french()
    ensures
        source_language("com.apple.keylayout.French"@) == Some("fr"@),
        source_language("0000040c"@) == Some("fr"@),
{
    law_input_source_languages();
    reveal_strlit("com.apple.keylayout.US");
    reveal_strlit("com.apple.keylayout.British");
    reveal_strlit("com.apple.keylayout.ABC");
    reveal_strlit("com.apple.keylayout.Australian");
    reveal_strlit("com.apple.keylayout.Russian");
    reveal_strlit("com.apple.keylayout.Russian-PC");
    reveal_strlit("com.apple.keylayout.RussianWin");
    reveal_strlit("com.apple.keylayout.German");
    reveal_strlit("com.apple.keylayout.Spanish");
    reveal_strlit("com.apple.keylayout.Spanish-ISO");
    reveal_strlit("com.apple.keylayout.French");
    reveal_strlit("com.apple.keylayout.Italian");
    reveal_strlit("com.apple.keylayout.Portuguese");
    reveal_strlit("com.apple.keylayout.Brazilian");
    reveal_strlit("com.apple.keylayout.Japanese");
    reveal_strlit("com.apple.keylayout.Chinese");
    reveal_strlit("com.apple.keylayout.SimplifiedChinese");
    reveal_strlit("com.apple.keylayout.TraditionalChinese");
    reveal_strlit("com.apple.keylayout.Korean");
    reveal_strlit("com.apple.keylayout.Arabic");
    reveal_strlit("com.apple.keylayout.Hebrew");
    reveal_strlit("com.apple.keylayout.Turkish");
    reveal_strlit("com.apple.keylayout.Polish");
    reveal_strlit("com.apple.keylayout.Dutch");
    reveal_strlit("com.apple.keylayout.Ukrainian");
    reveal_strlit("com.apple.keylayout.Greek");
    reveal_strlit("com.apple.keylayout.Swedish");
    reveal_strlit("com.apple.keylayout.Norwegian");
    reveal_strlit("com.apple.keylayout.Danish");
    reveal_strlit("com.apple.keylayout.Finnish");
    reveal_strlit("com.apple.keylayout.Czech");
    reveal_strlit("com.apple.keylayout.Hungarian");
    reveal_strlit("com.apple.keylayout.Romanian");
    reveal_strlit("com.apple.keylayout.Thai");
    reveal_strlit("com.apple.keylayout.Vietnamese");
    reveal_strlit("com.apple.keylayout.Hindi");
    reveal_strlit("com.apple.keylayout.Indonesian");
    reveal_strlit("com.apple.keylayout.Malay");
    reveal_strlit("com.apple.inputmethod.SCIM.ITABC");
    reveal_strlit("com.apple.inputmethod.SCIM.Shuangpin");
    reveal_strlit("com.apple.inputmethod.TCIM.Cangjie");
    reveal_strlit("com.apple.inputmethod.Kotoeri.Japanese");
    reveal_strlit("com.apple.inputmethod.Korean");
    reveal_strlit("00000409");
    reveal_strlit("00000809");
    reveal_strlit("00000419");
    reveal_strlit("00000407");
    reveal_strlit("0000040a");
    reveal_strlit("0000040c");
    let t = source_table();
    assert(t[0].0 != "com.apple.keylayout.French"@);
    assert(t[1].0 != "com.apple.keylayout.French"@);
    assert(t[2].0 != "com.apple.keylayout.French"@);
    assert(t[3].0 != "com.apple.keylayout.French"@);
    assert(t[4].0 != "com.apple.keylayout.French"@);
    assert(t[5].0 != "com.apple.keylayout.French"@);
    assert(t[6].0 != "com.apple.keylayout.French"@);
    assert(t[7].0[20] != "com.apple.keylayout.French"@[20]);
    assert(t[7].0 != "com.apple.keylayout.French"@);
    assert(t[8].0 != "com.apple.keylayout.French"@);
    assert(t[9].0 != "com.apple.keylayout.French"@);
    assert forall|j: int| 0 <= j < 10 implies #[trigger] t[j].0 != "com.apple.keylayout.French"@ by {
        assert(j == 0 || j == 1 || j == 2 || j == 3 || j == 4 || j == 5 || j == 6 || j == 7 || j == 8 || j == 9);
    }
    lemma_lookup_at(t, "com.apple.keylayout.French"@, 10);
    assert(t[0].0 != "0000040c"@);
    assert(t[1].0 != "0000040c"@);
    assert(t[2].0 != "0000040c"@);
    assert(t[3].0 != "0000040c"@);
    assert(t[4].0 != "0000040c"@);
    assert(t[5].0 != "0000040c"@);
    assert(t[6].0 != "0000040c"@);
    assert(t[7].0 != "0000040c"@);
    assert(t[8].0 != "0000040c"@);
    assert(t[9].0 != "0000040c"@);
    assert(t[10].0 != "0000040c"@);
    assert(t[11].0 != "0000040c"@);
    assert(t[12].0 != "0000040c"@);
    assert(t[13].0 != "0000040c"@);
    assert(t[14].0 != "0000040c"@);
    assert(t[15].0 != "0000040c"@);
    assert(t[16].0 != "0000040c"@);
    assert(t[17].0 != "0000040c"@);
    assert(t[18].0 != "0000040c"@);
    assert(t[19].0 != "0000040c"@);
    assert(t[20].0 != "0000040c"@);
    assert(t[21].0 != "0000040c"@);
    assert(t[22].0 != "0000040c"@);
    assert(t[23].0 != "0000040c"@);
    assert(t[24].0 != "0000040c"@);
    assert(t[25].0 != "0000040c"@);
    assert(t[26].0 != "0000040c"@);
    assert(t[27].0 != "0000040c"@);
    assert(t[28].0 != "0000040c"@);
    assert(t[29].0 != "0000040c"@);
    assert(t[30].0 != "0000040c"@);
    assert(t[31].0 != "0000040c"@);
    assert(t[32].0 != "0000040c"@);
    assert(t[33].0 != "0000040c"@);
    assert(t[34].0 != "0000040c"@);
    assert(t[35].0 != "0000040c"@);
    assert(t[36].0 != "0000040c"@);
    assert(t[37].0 != "0000040c"@);
    assert(t[38].0 != "0000040c"@);
    assert(t[39].0 != "0000040c"@);
    assert(t[40].0 != "0000040c"@);
    assert(t[41].0 != "0000040c"@);
    assert(t[42].0 != "0000040c"@);
    assert(t[43].0[7] != "0000040c"@[7]);
    assert(t[43].0 != "0000040c"@);
    assert(t[44].0[5] != "0000040c"@[5]);
    assert(t[44].0 != "0000040c"@);
    assert(t[45].0[6] != "0000040c"@[6]);
    assert(t[45].0 != "0000040c"@);
    assert(t[46].0[7] != "0000040c"@[7]);
    assert(t[46].0 != "0000040c"@);
    assert(t[47].0[7] != "0000040c"@[7]);
    assert(t[47].0 != "0000040c"@);
    assert forall|j: int| 0 <= j < 48 implies #[trigger] t[j].0 != "0000040c"@ by {
        assert(j == 0 || j == 1 || j == 2 || j == 3 || j == 4 || j == 5 || j == 6 || j == 7 || j == 8 || j == 9 || j == 10 || j == 11 || j == 12 || j == 13 || j == 14 || j == 15 || j == 16 || j == 17 || j == 18 || j == 19 || j == 20 || j == 21 || j == 22 || j == 23 || j == 24 || j == 25 || j == 26 || j == 27 || j == 28 || j == 29 || j == 30 || j == 31 || j == 32 || j == 33 || j == 34 || j == 35 || j == 36 || j == 37 || j == 38 || j == 39 || j == 40 || j == 41 || j == 42 || j == 43 || j == 44 || j == 45 || j == 46 || j == 47);
    }
    lemma_lookup_at(t, "0000040c"@, 48);
}

/// The input source table, as the lookup walks it.
pub fn source_entries() -> (res: Vec<(&'static str, &'static str)>)
    ensures
        res@.map_values(|e: (&'static str, &'static str)| (e.0@, e.1@)) == source_table(),
{
    let v = vec![
        ("com.apple.keylayout.US", "en"),
        ("com.apple.keylayout.British", "en"),
        ("com.apple.keylayout.ABC", "en"),
        ("com.apple.keylayout.Australian", "en"),
        ("com.apple.keylayout.Russian", "ru"),
        ("com.apple.keylayout.Russian-PC", "ru"),
        ("com.apple.keylayout.RussianWin", "ru"),
        ("com.apple.keylayout.German", "de"),
        ("com.apple.keylayout.Spanish", "es"),
        ("com.apple.keylayout.Spanish-ISO", "es"),
        ("com.apple.keylayout.French", "fr"),
        ("com.apple.keylayout.Italian", "it"),
        ("com.apple.keylayout.Portuguese", "pt"),
        ("com.apple.keylayout.Brazilian", "pt"),
        ("com.apple.keylayout.Japanese", "ja"),
        ("com.apple.keylayout.Chinese", "zh"),
        ("com.apple.keylayout.SimplifiedChinese", "zh"),
        ("com.apple.keylayout.TraditionalChinese", "zh"),
        ("com.apple.keylayout.Korean", "ko"),
        ("com.apple.keylayout.Arabic", "ar"),
        ("com.apple.keylayout.Hebrew", "he"),
        ("com.apple.keylayout.Turkish", "tr"),
        ("com.apple.keylayout.Polish", "pl"),
        ("com.apple.keylayout.Dutch", "nl"),
        ("com.apple.keylayout.Ukrainian", "uk"),
        ("com.apple.keylayout.Greek", "el"),
        ("com.apple.keylayout.Swedish", "sv"),
        ("com.apple.keylayout.Norwegian", "no"),
        ("com.apple.keylayout.Danish", "da"),
        ("com.apple.keylayout.Finnish", "fi"),
        ("com.apple.keylayout.Czech", "cs"),
        ("com.apple.keylayout.Hungarian", "hu"),
        ("com.apple.keylayout.Romanian", "ro"),
        ("com.apple.keylayout.Thai", "th"),
        ("com.apple.keylayout.Vietnamese", "vi"),
        ("com.apple.keylayout.Hindi", "hi"),
        ("com.apple.keylayout.Indonesian", "id"),
        ("com.apple.keylayout.Malay", "ms"),
        ("com.apple.inputmethod.SCIM.ITABC", "zh"),
        ("com.apple.inputmethod.SCIM.Shuangpin", "zh"),
        ("com.apple.inputmethod.TCIM.Cangjie", "zh"),
        ("com.apple.inputmethod.Kotoeri.Japanese", "ja"),
        ("com.apple.inputmethod.Korean", "ko"),
        ("00000409", "en"),
        ("00000809", "en"),
        ("00000419", "ru"),
        ("00000407", "de"),
        ("0000040a", "es"),
        ("0000040c", "fr"),
        ("00000410", "it"),
        ("00000816", "pt"),
        ("00000416", "pt"),
        ("00000411", "ja"),
        ("00000804", "zh"),
        ("00000404", "zh"),
        ("00000412", "ko"),
        ("00000401", "ar"),
        ("0000040d", "he"),
        ("0000041f", "tr"),
        ("00000415", "pl"),
        ("00000413", "nl"),
        ("00000422", "uk"),
        ("00000408", "el"),
        ("0000041d", "sv"),
        ("00000414", "no"),
        ("00000406", "da"),
        ("0000040b", "fi"),
        ("00000405", "cs"),
        ("0000040e", "hu"),
        ("00000418", "ro"),
        ("0000041e", "th"),
        ("0000042a", "vi"),
        ("00000439", "hi"),
        ("00000421", "id"),
        ("0000043e", "ms"),
        ("us", "en"),
        ("gb", "en"),
        ("ru", "ru"),
        ("de", "de"),
        ("es", "es"),
        ("fr", "fr"),
        ("it", "it"),
        ("pt", "pt"),
        ("br", "pt"),
        ("jp", "ja"),
        ("cn", "zh"),
        ("tw", "zh"),
        ("kr", "ko"),
        ("ara", "ar"),
        ("il", "he"),
        ("tr", "tr"),
        ("pl", "pl"),
        ("nl", "nl"),
        ("ua", "uk"),
        ("gr", "el"),
        ("se", "sv"),
        ("no", "no"),
        ("dk", "da"),
        ("fi", "fi"),
        ("cz", "cs"),
        ("hu", "hu"),
        ("ro", "ro"),
        ("th", "th"),
        ("vn", "vi"),
        ("in", "hi"),
        ("id", "id"),
        ("my", "ms")
    ];
    assert(v@.map_values(|e: (&'static str, &'static str)| (e.0@, e.1@)) =~= source_table());
    v
}

/// The language of the first table entry for `key`.
pub open spec fn table_lookup(table: Seq<(Seq<char>, Seq<char>)>, key: Seq<char>) -> Option<Seq<char>>
    decreases table.len(),
{
    if table.len() == 0 {
        None
    } else if table[0].0 == key {
        Some(table[0].1)
    } else {
        table_lookup(table.drop_first(), key)
    }
}

fn lookup(entries: &Vec<(&'static str, &'static str)>, key: &str) -> (res: Option<&'static str>)
    ensures
        match table_lookup(entries@.map_values(|e: (&'static str, &'static str)| (e.0@, e.1@)), key@) {
            Some(l) => res matches Some(r) && r@ == l,
            None => res is None,
        },
{
    let ghost t = entries@.map_values(|e: (&'static str, &'static str)| (e.0@, e.1@));
    let mut i: usize = 0;
    assert(t.skip(0) == t);
    while i < entries.len()
        invariant
            0 <= i <= entries@.len(),
            t == entries@.map_values(|e: (&'static str, &'static str)| (e.0@, e.1@)),
            table_lookup(t, key@) == table_lookup(t.skip(i as int), key@),
        decreases entries@.len() - i,
    {
        proof {
            assert(t.skip(i as int).drop_first() == t.skip(i + 1));
            assert(t.skip(i as int)[0] == t[i as int]);
        }
        let (source, lang) = entries[i];
        if str_eq(source, key) {
            return Some(lang);
        }
        i = i + 1;
    }
    None
}

/// The language an input source id types: by direct lookup, else by the
/// part before the first `-` (macOS layout variants such as `Russian-PC`).
pub open spec fn source_language(source: Seq<char>) -> Option<Seq<char>> {
    match table_lookup(source_table(), source) {
        Some(l) => Some(l),
        None => table_lookup(source_table(), before_first(source, '-')),
    }
}

/// Convert an input source id to an ISO 639-1 language code.
pub fn input_source_to_language(source: &str) -> (res: Option<&'static str>)
    ensures
        match source_language(source@) {
            Some(l) => res matches Some(r) && r@ == l,
            None => res is None,
        },
{
    let entries = source_entries();
    match lookup(&entries, source) {
        Some(lang) => Some(lang),
        None => {
            let cs = chars_of(source);
            let base = string_from_chars(split_first(cs.as_slice(), '-'));
            lookup(&entries, base.as_str())
        },
    }
}

/// The language of the current input source, if it is known.
pub fn get_language_from_input_source(source: Option<&str>) -> (res: Option<String>)
    ensures
        match source {
            None => res is None,
            Some(s) => match source_language(s@) {
                Some(l) => res matches Some(r) && r@ == l,
                None => res is None,
            },
        },
{
    match source {
        None => None,
        Some(s) => match input_source_to_language(s) {
            Some(l) => Some(String::from_str(l)),
            None => None,
        },
    }
}

/// The platform the input source is read on.
#[derive(Debug, Clone, Copy, PartialEq, Eq, Structural)]
pub enum HostOs {
    MacOs,
    Windows,
    Linux,
    Other,
}

/// The value of a `key = value;` line of `defaults` output: the text after
/// the first `=`, trimmed of white space, then of quotes, semicolons and
/// spaces.
pub open spec fn defaults_value(line: Seq<char>) -> Option<Seq<char>> {
    match crate::scan::find_char(line, '=') {
        Some(i) => Some(trim(trim(line.skip(i + 1), TrimSet::WhiteSpace), TrimSet::QuotesSemicolonsSpaces)),
        None => None,
    }
}

/// A keyboard layout name found on a `"KeyboardLayout Name"` line.
pub open spec fn layout_name_in(line: Seq<char>) -> Option<Seq<char>> {
    if has_substring(line, "\"KeyboardLayout Name\""@) {
        match defaults_value(line) {
            Some(v) => if v.len() > 0 { Some(v) } else { None },
            None => None,
        }
    } else {
        None
    }
}

/// An Apple input source id found on an `"Input Source ID"` line.
pub open spec fn source_id_in(line: Seq<char>) -> Option<Seq<char>> {
    if has_substring(line, "\"Input Source ID\""@) {
        match defaults_value(line) {
            Some(v) => if v.len() > 0 && starts_with(v, "com.apple"@) { Some(v) } else { None },
            None => None,
        }
    } else {
        None
    }
}

/// The first layout name among `lines`.
pub open spec fn first_layout_name(lines: Seq<Seq<char>>) -> Option<Seq<char>>
    decreases lines.len(),
{
    if lines.len() == 0 {
        None
    } else {
        match layout_name_in(lines[0]) {
            Some(v) => Some(v),
            None => first_layout_name(lines.drop_first()),
        }
    }
}

/// The first Apple input source id among `lines`.
pub open spec fn first_source_id(lines: Seq<Seq<char>>) -> Option<Seq<char>>
    decreases lines.len(),
{
    if lines.len() == 0 {
        None
    } else {
        match source_id_in(lines[0]) {
            Some(v) => Some(v),
            None => first_source_id(lines.drop_first()),
        }
    }
}

/// The input source named by macOS `defaults read com.apple.HIToolbox
/// AppleSelectedInputSources` output: the keyboard layout (as a
/// `com.apple.keylayout.` id, spaces removed), else an input method's id.
pub open spec fn macos_input_source(output: Seq<char>) -> Option<Seq<char>> {
    match first_layout_name(lines_of(output)) {
        Some(v) => Some("com.apple.keylayout."@ + remove_char(v, ' ')),
        None => first_source_id(lines_of(output)),
    }
}

fn defaults_value_of(line: &Vec<char>) -> (res: Option<Vec<char>>)
    ensures
        match defaults_value(line@) {
            Some(v) => res matches Some(r) && r@ == v,
            None => res is None,
        },
{
    match find_first(line.as_slice(), '=') {
        Some(i) => {
            assert(i < line.len());
            let after = tail_from(line.as_slice(), i + 1);
            let t = trim_chars(after.as_slice(), TrimSet::WhiteSpace);
            Some(trim_chars(t.as_slice(), TrimSet::QuotesSemicolonsSpaces))
        },
        None => None,
    }
}

/// Parse macOS `defaults` output into the current input source.
pub fn parse_macos_input_source(output: &str) -> (res: Option<String>)
    ensures
        match macos_input_source(output@) {
            Some(v) => res matches Some(r) && r@ == v,
            None => res is None,
        },
{
    let cs = chars_of(output);
    let ls = lines(cs.as_slice());
    let ghost lv = ls@.map_values(|l: Vec<char>| l@);
    let layout_key = chars_of("\"KeyboardLayout Name\"");
    let id_key = chars_of("\"Input Source ID\"");
    let apple = chars_of("com.apple");
    let mut i: usize = 0;
    assert(lv.skip(0) == lv);
    while i < ls.len()
        invariant
            0 <= i <= ls@.len(),
            lv == ls@.map_values(|l: Vec<char>| l@),
            lv == lines_of(output@),
            layout_key@ == "\"KeyboardLayout Name\""@,
            first_layout_name(lv) == first_layout_name(lv.skip(i as int)),
        decreases ls@.len() - i,
    {
        proof {
            assert(lv.skip(i as int).drop_first() == lv.skip(i + 1));
            assert(lv.skip(i as int)[0] == ls@[i as int]@);
        }
        let line = &ls[i];
        if contains_chars(line.as_slice(), layout_key.as_slice()) {
            match defaults_value_of(line) {
                Some(v) => {
                    if v.len() > 0 {
                        let mut full = chars_of("com.apple.keylayout.");
                        let squeezed = remove_all(v.as_slice(), ' ');
                        let mut k: usize = 0;
                        let ghost prefix = full@;
                        while k < squeezed.len()
                            invariant
                                0 <= k <= squeezed@.len(),
                                full@ == prefix + squeezed@.take(k as int),
                            decreases squeezed@.len() - k,
                        {
                            full.push(squeezed[k]);
                            assert(squeezed@.take(k + 1) == squeezed@.take(k as int).push(squeezed@[k as int]));
                            k = k + 1;
                        }
                        assert(squeezed@.take(squeezed@.len() as int) == squeezed@);
                        assert(layout_name_in(line@) == Some(v@));
                        assert(first_layout_name(lv.skip(i as int)) == Some(v@));
                        return Some(string_from_chars(full.as_slice()));
                    }
                },
                None => {},
            }
        }
        i = i + 1;
    }
    assert(lv.skip(ls@.len() as int) =~= Seq::<Seq<char>>::empty());
    let mut j: usize = 0;
    while j < ls.len()
        invariant
            0 <= j <= ls@.len(),
            lv == ls@.map_values(|l: Vec<char>| l@),
            lv == lines_of(output@),
            id_key@ == "\"Input Source ID\""@,
            apple@ == "com.apple"@,
            first_layout_name(lv) is None,
            first_source_id(lv) == first_source_id(lv.skip(j as int)),
        decreases ls@.len() - j,
    {
        proof {
            assert(lv.skip(j as int).drop_first() == lv.skip(j + 1));
            assert(lv.skip(j as int)[0] == ls@[j as int]@);
        }
        let line = &ls[j];
        if contains_chars(line.as_slice(), id_key.as_slice()) {
            match defaults_value_of(line) {
                Some(v) => {
                    if v.len() > 0 && starts_with_chars(v.as_slice(), apple.as_slice()) {
                        assert(source_id_in(line@) == Some(v@));
                        assert(first_source_id(lv.skip(j as int)) == Some(v@));
                        return Some(string_from_chars(v.as_slice()));
                    }
                },
                None => {},
            }
        }
        j = j + 1;
    }
    assert(lv.skip(ls@.len() as int) =~= Seq::<Seq<char>>::empty());
    None
}

/// The keyboard layout id in the Windows language-list output
/// (`0409:00000409`): the part after the last `:`, lowercased.
pub open spec fn windows_input_source(output: Seq<char>) -> Seq<char> {
    lowercase_of(split_on(trim(output, TrimSet::WhiteSpace), ':').last())
}

/// Parse the Windows PowerShell output into the current input source.
pub fn parse_windows_input_source(output: &str) -> (res: String)
    ensures
        res@ == windows_input_source(output@),
{
    let cs = chars_of(output);
    let t = trim_chars(cs.as_slice(), TrimSet::WhiteSpace);
    let segs = split_segments(t.as_slice(), ':');
    let last = string_from_chars(segs[segs.len() - 1].as_slice());
    proof {
        assert(segs@.map_values(|l: Vec<char>| l@).last() == segs@[segs@.len() - 1]@);
    }
    to_lowercase(last.as_str())
}

/// The first XKB layout of a `layout:` line: the second `:`-separated field,
/// trimmed, up to the first `,`, trimmed (`us,ru` gives `us`). `None` when the
/// line has no second field.
pub open spec fn xkb_layout(line: Seq<char>) -> Option<Seq<char>> {
    let fields = split_on(line, ':');
    if fields.len() >= 2 {
        Some(trim(split_on(trim(fields[1], TrimSet::WhiteSpace), ',')[0], TrimSet::WhiteSpace))
    } else {
        None
    }
}

/// The answer from `setxkbmap -query` output: that of the first `layout:`
/// line, or no answer when there is no such line.
pub open spec fn xkb_answer(lines: Seq<Seq<char>>) -> Option<Option<Seq<char>>>
    decreases lines.len(),
{
    if lines.len() == 0 {
        None
    } else if starts_with(lines[0], "layout:"@) {
        Some(xkb_layout(lines[0]))
    } else {
        xkb_answer(lines.drop_first())
    }
}

/// The current input source on Linux: the first layout from `setxkbmap`
/// when its output has a `layout:` line, otherwise the language part of
/// `LANG` (before the first `_`, lowercased), otherwise none.
pub open spec fn linux_input_source(setxkbmap: Option<Seq<char>>, lang: Option<Seq<char>>) -> Option<Seq<char>> {
    let from_xkb = match setxkbmap {
        Some(out) => xkb_answer(lines_of(out)),
        None => None,
    };
    match from_xkb {
        Some(answer) => answer,
        None => match lang {
            Some(l) => Some(lowercase_of(split_on(l, '_')[0])),
            None => None,
        },
    }
}

fn xkb_layout_of(line: &Vec<char>) -> (res: Option<Vec<char>>)
    ensures
        match xkb_layout(line@) {
            Some(v) => res matches Some(r) && r@ == v,
            None => res is None,
        },
{
    let fields = split_segments(line.as_slice(), ':');
    if fields.len() < 2 {
        return None;
    }
    proof {
        assert(fields@.map_values(|l: Vec<char>| l@)[1] == fields@[1]@);
    }
    let layout = trim_chars(fields[1].as_slice(), TrimSet::WhiteSpace);
    let parts = split_segments(layout.as_slice(), ',');
    proof {
        assert(parts@.map_values(|l: Vec<char>| l@)[0] == parts@[0]@);
    }
    Some(trim_chars(parts[0].as_slice(), TrimSet::WhiteSpace))
}

/// The current input source on Linux, from the `setxkbmap -query` output
/// (`None` when the command failed) and the `LANG` variable.
pub fn parse_linux_input_source(setxkbmap: Option<&str>, lang: Option<&str>) -> (res: Option<String>)
    ensures
        match linux_input_source(
            match setxkbmap { Some(s) => Some(s@), None => None },
            match lang { Some(l) => Some(l@), None => None },
        ) {
            Some(v) => res matches Some(r) && r@ == v,
            None => res is None,
        },
{
    match setxkbmap {
        Some(out) => {
            let cs = chars_of(out);
            let ls = lines(cs.as_slice());
            let ghost lv = ls@.map_values(|l: Vec<char>| l@);
            let prefix = chars_of("layout:");
            let mut i: usize = 0;
            assert(lv.skip(0) == lv);
            while i < ls.len()
                invariant
                    0 <= i <= ls@.len(),
                    lv == ls@.map_values(|l: Vec<char>| l@),
                    lv == lines_of(out@),
                    setxkbmap == Some(out),
                    prefix@ == "layout:"@,
                    xkb_answer(lv) == xkb_answer(lv.skip(i as int)),
                decreases ls@.len() - i,
            {
                proof {
                    assert(lv.skip(i as int).drop_first() == lv.skip(i + 1));
                    assert(lv.skip(i as int)[0] == ls@[i as int]@);
                }
                if starts_with_chars(ls[i].as_slice(), prefix.as_slice()) {
                    assert(xkb_answer(lv.skip(i as int)) == Some(xkb_layout(ls@[i as int]@)));
                    return match xkb_layout_of(&ls[i]) {
                        Some(v) => Some(string_from_chars(v.as_slice())),
                        None => None,
                    };
                }
                i = i + 1;
            }
            assert(lv.skip(ls@.len() as int) =~= Seq::<Seq<char>>::empty());
        },
        None => {},
    }
    match lang {
        Some(l) => {
            let cs = chars_of(l);
            let parts = split_segments(cs.as_slice(), '_');
            proof {
                assert(parts@.map_values(|x: Vec<char>| x@)[0] == parts@[0]@);
            }
            let code = string_from_chars(parts[0].as_slice());
            Some(to_lowercase(code.as_str()))
        },
        None => None,
    }
}

/// The current input source on `os`, from the output of the platform's
/// query command (`None` when it could not be run) and, on Linux, `LANG`.
pub open spec fn current_input_source(os: HostOs, output: Option<Seq<char>>, lang: Option<Seq<char>>) -> Option<Seq<char>> {
    match os {
        HostOs::MacOs => match output {
            Some(o) => macos_input_source(o),
            None => None,
        },
        HostOs::Windows => match output {
            Some(o) => Some(windows_input_source(o)),
            None => None,
        },
        HostOs::Linux => linux_input_source(output, lang),
        HostOs::Other => None,
    }
}

/// The current input source on `os`.
pub fn get_current_input_source(os: HostOs, command_output: Option<&str>, lang: Option<&str>) -> (res: Option<String>)
    ensures
        match current_input_source(
            os,
            match command_output { Some(s) => Some(s@), None => None },
            match lang { Some(l) => Some(l@), None => None },
        ) {
            Some(v) => res matches Some(r) && r@ == v,
            None => res is None,
        },
{
    match os {
        HostOs::MacOs => match command_output {
            Some(o) => parse_macos_input_source(o),
            None => None,
        },
        HostOs::Windows => match command_output {
            Some(o) => Some(parse_windows_input_source(o)),
            None => None,
        },
        HostOs::Linux => parse_linux_input_source(command_output, lang),
        HostOs::Other => None,
    }
}

} // verus!
