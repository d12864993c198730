//! Tray menu translations: the strings for the system locale's language,
//! falling back to English.

use vstd::prelude::*;
use vstd::string::*;
use crate::text::{chars_of, str_eq, string_from_chars};

verus! {

/// Localized strings for the tray menu.
#[derive(Debug)]
pub struct TrayStrings {
    pub settings: String,
    pub check_updates: String,
    pub quit: String,
    pub cancel: String,
}

/// The abstract form of a set of tray strings.
pub open spec fn tray_view(t: TrayStrings) -> (Seq<char>, Seq<char>, Seq<char>, Seq<char>) {
    (t.settings@, t.check_updates@, t.quit@, t.cancel@)
}

impl TrayStrings {
    /// A copy of these strings.
    pub fn duplicate(&self) -> (res: TrayStrings)
        ensures
            tray_view(res) == tray_view(*self),
    {
        TrayStrings {
            settings: self.settings.clone(),
            check_updates: self.check_updates.clone(),
            quit: self.quit.clone(),
            cancel: self.cancel.clone(),
        }
    }
}

/// The language part of a locale: everything before the first `-` or `_`
/// (`en-US` and `en_US` give `en`).
pub open spec fn language_code_of(locale: Seq<char>) -> Seq<char>
    decreases locale.len(),
{
    if locale.len() == 0 {
        locale
    } else if locale[0] == '-' || locale[0] == '_' {
        Seq::empty()
    } else {
        seq![locale[0]] + language_code_of(locale.drop_first())
    }
}

/// The language code of a locale string (e.g. `en-US` gives `en`).
pub fn get_language_code(locale: &str) -> (res: String)
    ensures
        res@ == language_code_of(locale@),
{
    let cs = chars_of(locale);
    let mut i: usize = 0;
    assert(cs@.skip(0) == cs@);
    assert(cs@.take(0) + language_code_of(cs@) =~= language_code_of(cs@));
    while i < cs.len() && cs[i] != '-' && cs[i] != '_'
        invariant
            0 <= i <= cs@.len(),
            cs@ == locale@,
            language_code_of(locale@) == cs@.take(i as int) + language_code_of(cs@.skip(i as int)),
        decreases cs@.len() - i,
    {
        proof {
            let rest = cs@.skip(i as int);
            assert(rest.drop_first() == cs@.skip(i + 1));
            assert(cs@.take(i + 1) == cs@.take(i as int) + seq![cs@[i as int]]);
        }
        i = i + 1;
    }
    proof {
        if i < cs@.len() {
            assert(language_code_of(cs@.skip(i as int)) =~= Seq::<char>::empty());
        } else {
            assert(cs@.skip(i as int) =~= Seq::<char>::empty());
        }
        assert(cs@.take(i as int) + Seq::<char>::empty() =~= cs@.take(i as int));
    }
    string_from_chars(cs.as_slice().split_at(i).0)
}

/// One language's tray strings.
#[derive(Debug)]
pub struct TrayTranslation {
    pub code: String,
    pub strings: TrayStrings,
}

/// The strings for `code` in `table`: the first entry with that code.
pub open spec fn translation_for(table: Seq<TrayTranslation>, code: Seq<char>) -> Option<TrayStrings>
    decreases table.len(),
{
    if table.len() == 0 {
        None
    } else if table[0].code@ == code {
        Some(table[0].strings)
    } else {
        translation_for(table.drop_first(), code)
    }
}

fn find_translation(table: &Vec<TrayTranslation>, code: &str) -> (res: Option<usize>)
    ensures
        match res {
            Some(i) => i < table@.len() && translation_for(table@, code@) == Some(table@[i as int].strings),
            None => translation_for(table@, code@) is None,
        },
{
    let mut i: usize = 0;
    assert(table@.skip(0) == table@);
    while i < table.len()
        invariant
            0 <= i <= table@.len(),
            translation_for(table@, code@) == translation_for(table@.skip(i as int), code@),
        decreases table@.len() - i,
    {
        proof {
            assert(table@.skip(i as int).drop_first() == table@.skip(i + 1));
            assert(table@.skip(i as int)[0] == table@[i as int]);
        }
        if str_eq(table[i].code.as_str(), code) {
            return Some(i);
        }
        i = i + 1;
    }
    None
}

/// The tray strings for `locale`'s language, or English when the locale is
/// unknown or has no translation. The English strings must be in the table.
pub fn get_tray_translations(table: &Vec<TrayTranslation>, locale: Option<&str>) -> (res: TrayStrings)
    requires
        translation_for(table@, "en"@) is Some,
    ensures
        ({
            let lang = match locale {
                Some(l) => language_code_of(l@),
                None => "en"@,
            };
            tray_view(res) == tray_view(
                match translation_for(table@, lang) {
                    Some(t) => t,
                    None => translation_for(table@, "en"@)->0,
                },
            )
        }),
{
    let lang = match locale {
        Some(l) => get_language_code(l),
        None => String::from_str("en"),
    };
    match find_translation(table, lang.as_str()) {
        Some(i) => table[i].strings.duplicate(),
        None => match find_translation(table, "en") {
            Some(i) => table[i].strings.duplicate(),
            None => {
                proof {
                    assert(false);
                }
                TrayStrings {
                    settings: String::new(),
                    check_updates: String::new(),
                    quit: String::new(),
                    cancel: String::new(),
                }
            },
        },
    }
}

} // verus!
