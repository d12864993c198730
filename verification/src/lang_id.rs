//! Mapping between the ISO 639-1 codes model metadata uses and the ISO 639-3
//! languages of the `whatlang` detector, which constrains text-based output
//! language detection to the languages a model can produce.
//!
//! Languages of the detector are named here by their ISO 639-3 code.

use vstd::prelude::*;
use vstd::string::*;
use crate::text::str_eq;

verus! {

/// isolang's ISO 639-3 code for the language with ISO 639-1 code `code`.
pub uninterp spec fn iso639_3_of(code: Seq<char>) -> Option<Seq<char>>;

/// isolang's ISO 639-1 code for the language with ISO 639-3 code `code`.
pub uninterp spec fn iso639_1_of(code: Seq<char>) -> Option<Seq<char>>;

/// whatlang's code for the detector language named `code`, if it knows it.
pub uninterp spec fn whatlang_code_of(code: Seq<char>) -> Option<Seq<char>>;

/// isolang's `Language::from_639_1` followed by `to_639_3`: the ISO 639-3
/// code of the language whose ISO 639-1 code is `code`. isolang answers
/// `None` for any code that is not two bytes long.
#[verifier::external_body]
fn iso639_3_for_639_1(code: &str) -> (res: Option<&'static str>)
    ensures
        res is Some == iso639_3_of(code@) is Some,
        res matches Some(c) ==> iso639_3_of(code@) == Some(c@),
        code.spec_bytes().len() != 2 ==> res is None,
{
    match isolang::Language::from_639_1(code) {
        Some(language) => Some(language.to_639_3()),
        None => None,
    }
}

/// isolang's `Language::from_639_3` followed by `to_639_1`: the ISO 639-1
/// code, if the language has one, of the language whose ISO 639-3 code is
/// `code`. isolang answers `None` for any code that is not three bytes long.
#[verifier::external_body]
fn iso639_1_for_639_3(code: &str) -> (res: Option<&'static str>)
    ensures
        res is Some == iso639_1_of(code@) is Some,
        res matches Some(c) ==> iso639_1_of(code@) == Some(c@),
        code.spec_bytes().len() != 3 ==> res is None,
{
    match isolang::Language::from_639_3(code) {
        Some(language) => language.to_639_1(),
        None => None,
    }
}

/// whatlang's `Lang::from_code` followed by `Lang::code`: the detector's code
/// for the language named `code` (matched case-insensitively), if the
/// detector knows it. Mandarin is `cmn`.
#[verifier::external_body]
fn whatlang_code(code: &str) -> (res: Option<&'static str>)
    ensures
        res is Some == whatlang_code_of(code@) is Some,
        res matches Some(c) ==> whatlang_code_of(code@) == Some(c@),
        res is Some || code@ != "cmn"@,
        res matches Some(c) ==> (c@ == "cmn"@ || code@ != "cmn"@),
{
    match whatlang::Lang::from_code(code) {
        Some(lang) => Some(lang.code()),
        None => None,
    }
}

/// The detector language for an ISO 639-1 code. Mandarin's code `cmn` has
/// no ISO 639-1 form; model metadata writes `zh` for it.
pub open spec fn detector_language_for(code: Seq<char>) -> Option<Seq<char>> {
    if code == "zh"@ {
        whatlang_code_of("cmn"@)
    } else {
        match iso639_3_of(code) {
            Some(three) => whatlang_code_of(three),
            None => None,
        }
    }
}

/// The detector language (its ISO 639-3 code) for an ISO 639-1 code.
pub fn whatlang_lang_for_iso639_1(code: &str) -> (res: Option<&'static str>)
    ensures
        match detector_language_for(code@) {
            Some(l) => res matches Some(r) && r@ == l,
            None => res is None,
        },
        code@ == "zh"@ ==> (res matches Some(r) && r@ == "cmn"@),
{
    if str_eq(code, "zh") {
        return whatlang_code("cmn");
    }
    match iso639_3_for_639_1(code) {
        Some(three) => whatlang_code(three),
        None => None,
    }
}

/// The ISO 639-1 code for a detector language: `zh` for Mandarin, else the
/// language's ISO 639-1 code if it has one.
pub open spec fn iso639_1_for_detector(lang: Seq<char>) -> Option<Seq<char>> {
    if lang == "cmn"@ {
        Some("zh"@)
    } else {
        iso639_1_of(lang)
    }
}

/// The ISO 639-1 code for a detector language named by its ISO 639-3 code.
pub fn iso639_1_for_whatlang(lang: &str) -> (res: Option<&'static str>)
    ensures
        match iso639_1_for_detector(lang@) {
            Some(c) => res matches Some(r) && r@ == c,
            None => res is None,
        },
{
    if str_eq(lang, "cmn") {
        let zh = "zh";
        return Some(zh);
    }
    iso639_1_for_639_3(lang)
}

/// The detector languages a model's supported languages allow, in order;
/// codes the detector does not know are dropped. An empty result means
/// detection is unconstrained.
pub open spec fn detector_allowlist(codes: Seq<Seq<char>>) -> Seq<Seq<char>>
    decreases codes.len(),
{
    if codes.len() == 0 {
        Seq::empty()
    } else {
        match detector_language_for(codes.last()) {
            Some(l) => detector_allowlist(codes.drop_last()).push(l),
            None => detector_allowlist(codes.drop_last()),
        }
    }
}

/// The detector allowlist for a model's supported languages.
pub fn detection_allowlist(supported_languages: &Vec<String>) -> (res: Vec<&'static str>)
    ensures
        res@.map_values(|s: &'static str| s@) == detector_allowlist(
            supported_languages@.map_values(|s: String| s@),
        ),
{
    let ghost codes = supported_languages@.map_values(|s: String| s@);
    let mut out: Vec<&'static str> = Vec::new();
    let mut i: usize = 0;
    while i < supported_languages.len()
        invariant
            0 <= i <= supported_languages@.len(),
            codes == supported_languages@.map_values(|s: String| s@),
            out@.map_values(|s: &'static str| s@) == detector_allowlist(codes.take(i as int)),
        decreases supported_languages@.len() - i,
    {
        proof {
            assert(codes.take(i + 1).drop_last() == codes.take(i as int));
            assert(codes.take(i + 1).last() == supported_languages@[i as int]@);
        }
        let ghost before = out@.map_values(|s: &'static str| s@);
        match whatlang_lang_for_iso639_1(supported_languages[i].as_str()) {
            Some(l) => {
                out.push(l);
                assert(out@.map_values(|s: &'static str| s@) =~= before.push(l@));
            },
            None => {},
        }
        i = i + 1;
    }
    assert(codes.take(codes.len() as int) == codes);
    out
}

} // verus!
