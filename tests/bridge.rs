use lingua::Language;
use lingua_nif::bridge::{configure, decode_request, detect_language_of, encode_detection, init, no_match, ok, BridgeError, Detection};
use lingua_nif::language::{decode_language, decode_languages, encode_language};
use lingua_nif::option::{decode_option, BuilderOption, DecodeError};
use lingua_nif::strategy::{create_builder, resolve, Strategy};

const ALL_OPTIONS: [BuilderOption; 8] = [
    BuilderOption::AllLanguages,
    BuilderOption::AllSpokenLanguages,
    BuilderOption::AllLanguagesWithArabicScript,
    BuilderOption::AllLanguagesWithCyrillicScript,
    BuilderOption::AllLanguagesWithDevanagariScript,
    BuilderOption::AllLanguagesWithLatinScript,
    BuilderOption::WithLanguages,
    BuilderOption::WithoutLanguages,
];

fn atoms(names: &[&str]) -> Vec<String> {
    names.iter().map(|s| s.to_string()).collect()
}

fn kind(s: &Strategy) -> (u8, Vec<Language>) {
    match s {
        Strategy::AllLanguages => (0, vec![]),
        Strategy::AllSpokenLanguages => (1, vec![]),
        Strategy::AllWithArabicScript => (2, vec![]),
        Strategy::AllWithCyrillicScript => (3, vec![]),
        Strategy::AllWithDevanagariScript => (4, vec![]),
        Strategy::AllWithLatinScript => (5, vec![]),
        Strategy::Only(v) => (6, v.clone()),
        Strategy::AllExcept(v) => (7, v.clone()),
    }
}

#[test]
fn option_atoms_decode_to_their_options() {
    for o in ALL_OPTIONS {
        assert_eq!(decode_option(o.atom()), Ok(o));
    }
    assert_eq!(decode_option("with_languages"), Ok(BuilderOption::WithLanguages));
    assert_eq!(decode_option("all_languages_with_latin_script"), Ok(BuilderOption::AllLanguagesWithLatinScript));
}

#[test]
fn option_atoms_are_distinct() {
    for (i, a) in ALL_OPTIONS.iter().enumerate() {
        for (j, b) in ALL_OPTIONS.iter().enumerate() {
            assert_eq!(i == j, a.atom() == b.atom());
        }
    }
}

#[test]
fn unknown_option_atom_is_rejected() {
    assert_eq!(decode_option("some_languages"), Err(DecodeError::UnknownOption));
    assert_eq!(decode_option(""), Err(DecodeError::UnknownOption));
    assert_eq!(decode_option("All_Languages"), Err(DecodeError::UnknownOption));
}

#[test]
fn resolve_is_distinct_and_deterministic() {
    let list = vec![Language::English, Language::German];
    let mut seen = Vec::new();
    for o in ALL_OPTIONS {
        let first = kind(&resolve(o, list.clone()));
        let second = kind(&resolve(o, list.clone()));
        assert_eq!(first, second);
        assert!(!seen.contains(&first));
        seen.push(first);
    }
    assert_eq!(kind(&resolve(BuilderOption::WithLanguages, list.clone())), (6, list.clone()));
    assert_eq!(kind(&resolve(BuilderOption::WithoutLanguages, list.clone())), (7, list.clone()));
    assert_eq!(kind(&resolve(BuilderOption::AllLanguages, list.clone())), (0, vec![]));
}

#[test]
fn language_atoms() {
    assert_eq!(encode_language(Language::English), "english");
    assert_eq!(encode_language(Language::Ukrainian), "ukrainian");
    assert_eq!(decode_language("german"), Ok(Language::German));
    assert_eq!(decode_language("German"), Err(DecodeError::UnknownLanguage));
    assert_eq!(decode_language("klingon"), Err(DecodeError::UnknownLanguage));
    assert_eq!(decode_language(""), Err(DecodeError::UnknownLanguage));
}

#[test]
fn every_language_round_trips() {
    let all = Language::all();
    assert_eq!(all.len(), 10);
    for l in all {
        let atom = encode_language(l);
        assert_eq!(decode_language(&atom), Ok(l));
    }
}

#[test]
fn language_lists_decode_all_or_nothing() {
    assert_eq!(decode_languages(&atoms(&["english", "french"])), Ok(vec![Language::English, Language::French]));
    assert_eq!(decode_languages(&atoms(&[])), Ok(vec![]));
    assert_eq!(decode_languages(&atoms(&["english", "elvish"])), Err(DecodeError::UnknownLanguage));
}

#[test]
fn requests_decode_option_first() {
    assert_eq!(decode_request("bogus", &atoms(&["elvish"])), Err(DecodeError::UnknownOption));
    assert_eq!(decode_request("with_languages", &atoms(&["elvish"])), Err(DecodeError::UnknownLanguage));
    assert_eq!(
        decode_request("without_languages", &atoms(&["spanish"])),
        Ok((BuilderOption::WithoutLanguages, vec![Language::Spanish]))
    );
}

#[test]
fn configure_reports_errors() {
    assert_eq!(configure("bogus", &atoms(&["elvish"])).err(), Some(BridgeError::Decode(DecodeError::UnknownOption)));
    assert_eq!(configure("all_languages", &atoms(&["elvish"])).err(), Some(BridgeError::Decode(DecodeError::UnknownLanguage)));
    assert_eq!(configure("with_languages", &atoms(&[])).err(), Some(BridgeError::NoCandidates));
    let every: Vec<String> = Language::all().into_iter().map(encode_language).collect();
    assert_eq!(configure("without_languages", &every).err(), Some(BridgeError::NoCandidates));
    assert!(configure("without_languages", &every[1..].to_vec()).is_ok());
    assert!(configure("all_languages", &atoms(&[])).is_ok());
}

#[test]
fn init_is_repeatable() {
    assert_eq!(init(), "ok");
    assert_eq!(init(), "ok");
    assert_eq!(ok(), "ok");
    assert_eq!(no_match(), "no_match");
}

#[test]
fn empty_text_has_no_match() {
    let mut builder = configure("all_languages", &atoms(&[])).unwrap();
    assert!(matches!(detect_language_of(&mut builder, String::new()), Detection::NoMatch));
}

#[test]
fn single_language_is_detected() {
    let mut builder = configure("with_languages", &atoms(&["english"])).unwrap();
    let text = "languages are awesome and this sentence is written in English".to_string();
    match detect_language_of(&mut builder, text) {
        Detection::Language(atom) => assert_eq!(atom, "english"),
        Detection::NoMatch => panic!("expected a match"),
    }
}

#[test]
fn detection_is_encoded() {
    assert!(matches!(encode_detection(None), Detection::NoMatch));
    match encode_detection(Some(Language::French)) {
        Detection::Language(atom) => assert_eq!(atom, "french"),
        Detection::NoMatch => panic!("expected a language"),
    }
}

#[test]
fn excluding_one_language_leaves_the_rest() {
    let total = Language::all().len();
    let mut builder = create_builder(BuilderOption::WithoutLanguages, vec![Language::Arabic]);
    let values = builder.build().compute_language_confidence_values("");
    assert_eq!(values.len(), total - 1);
    assert!(values.iter().all(|(l, _)| *l != Language::Arabic));
}

#[test]
fn confidence_values_cover_every_candidate() {
    let mut builder = configure("with_languages", &atoms(&["english", "german", "french"])).unwrap();
    let detector = builder.build();
    for text in ["", "12345", "Sprachen sind großartig", "languages are awesome"] {
        let values = detector.compute_language_confidence_values(text);
        assert_eq!(values.len(), 3);
        assert!(values.iter().all(|(_, score)| *score >= 0.0));
    }
}
