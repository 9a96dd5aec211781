//! The three operations that the host runtime calls: initialisation, the
//! best match for a text, and the decoding and configuration they share.

use vstd::prelude::*;
use lingua::{Language, LanguageDetectorBuilder};
use crate::engine::{all_languages, build, candidates, detect_best, from_all_languages, parse_language};
use crate::engine::language_name;
use crate::language::{decode_languages, encode_language, is_language_atom, language_atom, lemma_ascii_lower_idempotent, names_all};
use crate::option::{decode_option, option_atom, BuilderOption, DecodeError};
use crate::strategy::{create_builder, plan_buildable, plan_candidates, plan_of};
use crate::text::same_text;

verus! {

/// Why a request gets no detector.
#[derive(Clone, Copy, Debug, PartialEq, Eq, Structural)]
pub enum BridgeError {
    /// An argument could not be decoded.
    Decode(DecodeError),
    /// The option and list leave lingua no language to choose from.
    NoCandidates,
}

/// The answer of a best-match detection, after the success marker.
#[derive(Debug)]
pub enum Detection {
    /// The atom of the detected language.
    Language(String),
    /// No language was detected with enough confidence.
    NoMatch,
}

/// The success marker.
pub open spec fn ok_atom() -> Seq<char> {
    "ok"@
}

/// The marker of a detection without a result.
pub open spec fn no_match_atom() -> Seq<char> {
    "no_match"@
}

/// Whether some option is named by this atom.
pub open spec fn option_known(s: Seq<char>) -> bool {
    exists|o: BuilderOption| option_atom(o) == s
}

/// Whether every atom of the list names a language.
pub open spec fn languages_known(atoms: Seq<String>) -> bool {
    forall|i: int| 0 <= i < atoms.len() ==> is_language_atom(#[trigger] atoms[i]@)
}

/// The success marker that initialisation returns.
pub fn ok() -> (r: &'static str)
    ensures
        r@ == ok_atom(),
{
    "ok"
}

/// The marker of a detection without a result.
pub fn no_match() -> (r: &'static str)
    ensures
        r@ == no_match_atom(),
{
    "no_match"
}

/// Builds, and drops, a detector over the whole catalog so that lingua's
/// one-time set-up is paid here; always succeeds, however often it is called.
pub fn init() -> (r: &'static str)
    ensures
        r@ == ok_atom(),
{
    let mut builder = from_all_languages();
    let _detector = build(&mut builder);
    ok()
}

/// Decodes the option and then the language list of a request. The option
/// is decoded first: an unknown option is reported before anything else.
pub fn decode_request(option: &str, language_atoms: &Vec<String>) -> (r: Result<(BuilderOption, Vec<Language>), DecodeError>)
    ensures
        !option_known(option@) ==> r == Err::<(BuilderOption, Vec<Language>), DecodeError>(DecodeError::UnknownOption),
        option_known(option@) && !languages_known(language_atoms@)
            ==> r == Err::<(BuilderOption, Vec<Language>), DecodeError>(DecodeError::UnknownLanguage),
        option_known(option@) && languages_known(language_atoms@) ==> r is Ok,
        r matches Ok((o, v)) ==> option_atom(o) == option@ && names_all(v@, language_atoms@),
        r matches Ok((o, v)) ==> forall|w: Seq<Language>| #[trigger] names_all(w, language_atoms@) ==> w == v@,
{
    let option = match decode_option(option) {
        Ok(o) => o,
        Err(e) => {
            return Err(e);
        },
    };
    match decode_languages(language_atoms) {
        Ok(v) => Ok((option, v)),
        Err(e) => Err(e),
    }
}

/// Whether two languages are the same, told apart by their atoms.
fn same_language(a: Language, b: Language) -> (r: bool)
    ensures
        r == (a == b),
{
    let atom_a = encode_language(a);
    let atom_b = encode_language(b);
    if same_text(atom_a.as_str(), atom_b.as_str()) {
        let parsed = parse_language(atom_a.as_str());
        proof {
            lemma_ascii_lower_idempotent(language_name(a));
            lemma_ascii_lower_idempotent(language_name(b));
            assert(parsed == Some(a));
            assert(parsed == Some(b));
        }
        true
    } else {
        false
    }
}

/// Whether a language occurs in a list.
fn listed(l: Language, v: &Vec<Language>) -> (r: bool)
    ensures
        r == v@.contains(l),
{
    let mut i: usize = 0;
    while i < v.len()
        invariant
            i <= v@.len(),
            forall|j: int| 0 <= j < i ==> v@[j] != l,
        decreases v@.len() - i,
    {
        if same_language(v[i], l) {
            return true;
        }
        i = i + 1;
    }
    false
}

/// Whether a list names every language of the catalog.
fn covers_catalog(v: &Vec<Language>) -> (r: bool)
    ensures
        r == forall|l: Language| v@.contains(l),
{
    let catalog = all_languages();
    let mut i: usize = 0;
    while i < catalog.len()
        invariant
            i <= catalog@.len(),
            forall|l: Language| catalog@.contains(l),
            forall|j: int| 0 <= j < i ==> v@.contains(#[trigger] catalog@[j]),
        decreases catalog@.len() - i,
    {
        if !listed(catalog[i], v) {
            return false;
        }
        i = i + 1;
    }
    assert forall|l: Language| v@.contains(l) by {
        assert(catalog@.contains(l));
        let j = choose|j: int| 0 <= j < catalog@.len() && catalog@[j] == l;
    }
    true
}

/// Whether lingua can build a detector for this option and list.
pub fn buildable(option: BuilderOption, languages: &Vec<Language>) -> (r: bool)
    ensures
        r == plan_buildable(plan_of(option, languages@)),
{
    match option {
        BuilderOption::WithLanguages => languages.len() > 0,
        BuilderOption::WithoutLanguages => {
            let all = covers_catalog(languages);
            assert(plan_of(option, languages@) == crate::strategy::Plan::AllExcept(languages@));
            if !all {
                proof {
                    let missing = choose|l: Language| !languages@.contains(l);
                    crate::strategy::lemma_exclusion_buildable(languages@, missing);
                }
            }
            !all
        },
        _ => true,
    }
}

/// Decodes a request and makes the lingua builder it asks for: the
/// decoding errors of `decode_request`, `NoCandidates` where lingua would
/// have no language to choose from, and otherwise the builder.
pub fn configure(option: &str, language_atoms: &Vec<String>) -> (r: Result<LanguageDetectorBuilder, BridgeError>)
    ensures
        !option_known(option@) ==> r == Err::<LanguageDetectorBuilder, BridgeError>(BridgeError::Decode(DecodeError::UnknownOption)),
        option_known(option@) && !languages_known(language_atoms@)
            ==> r == Err::<LanguageDetectorBuilder, BridgeError>(BridgeError::Decode(DecodeError::UnknownLanguage)),
        forall|o: BuilderOption, v: Seq<Language>|
            #[trigger] option_atom(o) == option@ && #[trigger] names_all(v, language_atoms@) ==> {
                &&& (r is Ok <==> plan_buildable(plan_of(o, v)))
                &&& (!plan_buildable(plan_of(o, v)) ==> r == Err::<LanguageDetectorBuilder, BridgeError>(BridgeError::NoCandidates))
                &&& (r matches Ok(b) ==> (plan_candidates(plan_of(o, v)) matches Some(s) ==> candidates(b) == s))
            },
{
    match decode_request(option, language_atoms) {
        Err(e) => {
            proof {
                assert forall|o: BuilderOption, v: Seq<Language>|
                    #[trigger] option_atom(o) == option@ && #[trigger] names_all(v, language_atoms@)
                    implies false by {
                    assert forall|i: int| 0 <= i < language_atoms@.len() implies is_language_atom(
                        #[trigger] language_atoms@[i]@) by {
                        assert(language_atoms@[i]@ == language_atom(v[i]));
                    }
                }
            }
            Err(BridgeError::Decode(e))
        },
        Ok((chosen, languages)) => {
            let ghost decoded = languages@;
            proof {
                assert forall|o: BuilderOption, v: Seq<Language>|
                    #[trigger] option_atom(o) == option@ && #[trigger] names_all(v, language_atoms@)
                    implies o == chosen && v == decoded by {
                    if o != chosen {
                        crate::option::lemma_option_atoms_distinct(o, chosen);
                    }
                }
            }
            if buildable(chosen, &languages) {
                Ok(create_builder(chosen, languages))
            } else {
                Err(BridgeError::NoCandidates)
            }
        },
    }
}

/// The answer for the language that detection found, or for none.
pub fn encode_detection(found: Option<Language>) -> (r: Detection)
    ensures
        match found {
            Some(l) => r matches Detection::Language(a) && a@ == language_atom(l),
            None => r is NoMatch,
        },
{
    match found {
        Some(l) => Detection::Language(encode_language(l)),
        None => Detection::NoMatch,
    }
}

/// Builds the detector of a configured builder and looks for the best
/// match of a text: the answer names one of the builder's candidates, and
/// the empty text has none.
pub fn detect_language_of(builder: &mut LanguageDetectorBuilder, text: String) -> (r: Detection)
    ensures
        *final(builder) == *old(builder),
        text@.len() == 0 ==> r is NoMatch,
        r matches Detection::Language(a) ==> exists|l: Language|
            candidates(*old(builder)).contains(l) && a@ == #[trigger] language_atom(l),
{
    let detector = build(builder);
    let found = detect_best(&detector, text);
    encode_detection(found)
}

} // verus!
