//! The lingua items that the bridge calls, with what it relies on of each.

use vstd::prelude::*;
use lingua::{Language, LanguageDetector, LanguageDetectorBuilder};

verus! {

#[verifier::external_type_specification]
#[verifier::external_body]
pub struct ExLanguage(lingua::Language);

#[verifier::external_type_specification]
#[verifier::external_body]
pub struct ExLanguageDetectorBuilder(lingua::LanguageDetectorBuilder);

#[verifier::external_type_specification]
#[verifier::external_body]
pub struct ExLanguageDetector(lingua::LanguageDetector);

/// The name of a language in lingua's catalog: the identifier of its variant.
pub uninterp spec fn language_name(l: Language) -> Seq<char>;

/// The languages that a builder will give its detector to choose among.
pub uninterp spec fn candidates(b: LanguageDetectorBuilder) -> Set<Language>;

/// The languages that a built detector chooses among.
pub uninterp spec fn detector_candidates(d: LanguageDetector) -> Set<Language>;

/// ASCII upper-case letters mapped to lower case, every other character kept.
pub open spec fn ascii_lower_char(c: char) -> char {
    if 'A' <= c && c <= 'Z' {
        ((c as u32) + 32) as char
    } else {
        c
    }
}

pub open spec fn ascii_lower(s: Seq<char>) -> Seq<char> {
    s.map_values(|c: char| ascii_lower_char(c))
}

/// Relies on `str::to_ascii_lowercase`: each ASCII letter 'A'..='Z' becomes
/// 'a'..='z', every other character stays.
#[verifier::external_body]
pub(crate) fn to_ascii_lowercase(s: &str) -> (r: String)
    ensures
        r@ == ascii_lower(s@),
{
    s.to_ascii_lowercase()
}

/// Relies on `Display for lingua::Language`, which writes the derived `Debug`
/// form: the variant's identifier.
#[verifier::external_body]
pub(crate) fn name_of(l: Language) -> (r: String)
    ensures
        r@ == language_name(l),
{
    l.to_string()
}

/// Relies on `FromStr for lingua::Language` (strum's `EnumString` with
/// `ascii_case_insensitive`): a text parses to the variant whose identifier it
/// equals up to ASCII case, and to nothing when there is none. Variant
/// identifiers differ up to ASCII case, so at most one matches.
#[verifier::external_body]
pub(crate) fn parse_language(s: &str) -> (r: Option<Language>)
    ensures
        forall|l: Language|
            (r == Some(l)) <==> ascii_lower(s@) == ascii_lower(#[trigger] language_name(l)),
{
    <Language as std::str::FromStr>::from_str(s).ok()
}

/// Relies on `LanguageDetectorBuilder::from_all_languages`: every language of
/// the catalog (`Language::all`, which walks every variant).
#[verifier::external_body]
pub(crate) fn from_all_languages() -> (r: LanguageDetectorBuilder)
    ensures
        candidates(r) == Set::<Language>::full(),
{
    LanguageDetectorBuilder::from_all_languages()
}

/// Relies on `LanguageDetectorBuilder::from_all_spoken_languages`.
#[verifier::external_body]
pub(crate) fn from_all_spoken_languages() -> (r: LanguageDetectorBuilder) {
    LanguageDetectorBuilder::from_all_spoken_languages()
}

/// Relies on `LanguageDetectorBuilder::from_all_languages_with_arabic_script`.
#[verifier::external_body]
pub(crate) fn from_all_languages_with_arabic_script() -> (r: LanguageDetectorBuilder) {
    LanguageDetectorBuilder::from_all_languages_with_arabic_script()
}

/// Relies on `LanguageDetectorBuilder::from_all_languages_with_cyrillic_script`.
#[verifier::external_body]
pub(crate) fn from_all_languages_with_cyrillic_script() -> (r: LanguageDetectorBuilder) {
    LanguageDetectorBuilder::from_all_languages_with_cyrillic_script()
}

/// Relies on `LanguageDetectorBuilder::from_all_languages_with_devanagari_script`.
#[verifier::external_body]
pub(crate) fn from_all_languages_with_devanagari_script() -> (r: LanguageDetectorBuilder) {
    LanguageDetectorBuilder::from_all_languages_with_devanagari_script()
}

/// Relies on `LanguageDetectorBuilder::from_all_languages_with_latin_script`.
#[verifier::external_body]
pub(crate) fn from_all_languages_with_latin_script() -> (r: LanguageDetectorBuilder) {
    LanguageDetectorBuilder::from_all_languages_with_latin_script()
}

/// Relies on `LanguageDetectorBuilder::from_languages`: exactly the given
/// languages; it panics on an empty slice.
#[verifier::external_body]
pub(crate) fn from_languages(languages: &Vec<Language>) -> (r: LanguageDetectorBuilder)
    requires
        languages@.len() > 0,
    ensures
        candidates(r) == languages@.to_set(),
{
    LanguageDetectorBuilder::from_languages(languages)
}

/// Relies on `LanguageDetectorBuilder::from_all_languages_without`: the
/// catalog minus the given languages; it panics when nothing is left.
#[verifier::external_body]
pub(crate) fn from_all_languages_without(languages: &Vec<Language>) -> (r: LanguageDetectorBuilder)
    requires
        exists|l: Language| !languages@.contains(l),
    ensures
        candidates(r) == Set::<Language>::full().difference(languages@.to_set()),
{
    LanguageDetectorBuilder::from_all_languages_without(languages)
}

/// Relies on `LanguageDetectorBuilder::build`: the detector gets a copy of the
/// builder's languages, and the builder is left as it was.
#[verifier::external_body]
pub(crate) fn build(b: &mut LanguageDetectorBuilder) -> (d: LanguageDetector)
    ensures
        detector_candidates(d) == candidates(*old(b)),
        *final(b) == *old(b),
{
    b.build()
}

/// Relies on `LanguageDetector::detect_language_of`: the result is one of the
/// detector's languages, and a text without words (the empty text) gives none.
#[verifier::external_body]
pub(crate) fn detect_best(d: &LanguageDetector, text: String) -> (r: Option<Language>)
    ensures
        r matches Some(l) ==> detector_candidates(*d).contains(l),
        text@.len() == 0 ==> r is None,
{
    d.detect_language_of(text)
}

/// Relies on `Language::all`: every variant of the catalog, each once (the
/// order of a hash set, which this claim does not fix).
#[verifier::external_body]
pub(crate) fn all_languages() -> (r: Vec<Language>)
    ensures
        forall|l: Language| r@.contains(l),
{
    Language::all().into_iter().collect()
}

} // verus!
