use vstd::prelude::*;
use crate::text::same_text;

verus! {

/// How the candidate languages of a detection session are chosen.
#[derive(Clone, Copy, Debug, PartialEq, Eq, Structural)]
pub enum BuilderOption {
    AllLanguages,
    AllSpokenLanguages,
    AllLanguagesWithArabicScript,
    AllLanguagesWithCyrillicScript,
    AllLanguagesWithDevanagariScript,
    AllLanguagesWithLatinScript,
    WithLanguages,
    WithoutLanguages,
}

/// An argument that does not have the shape its position asks for.
#[derive(Clone, Copy, Debug, PartialEq, Eq, Structural)]
pub enum DecodeError {
    /// The builder option atom names none of the eight options.
    UnknownOption,
    /// An element of the language list names no language of the catalog.
    UnknownLanguage,
}

/// The atom by which the host runtime names an option.
pub open spec fn option_atom(o: BuilderOption) -> Seq<char> {
    match o {
        BuilderOption::AllLanguages => "all_languages"@,
        BuilderOption::AllSpokenLanguages => "all_spoken_languages"@,
        BuilderOption::AllLanguagesWithArabicScript => "all_languages_with_arabic_script"@,
        BuilderOption::AllLanguagesWithCyrillicScript => "all_languages_with_cyrillic_script"@,
        BuilderOption::AllLanguagesWithDevanagariScript => "all_languages_with_devanagari_script"@,
        BuilderOption::AllLanguagesWithLatinScript => "all_languages_with_latin_script"@,
        BuilderOption::WithLanguages => "with_languages"@,
        BuilderOption::WithoutLanguages => "without_languages"@,
    }
}

impl BuilderOption {
    /// The atom that names this option.
    pub fn atom(&self) -> (r: &'static str)
        ensures
            r@ == option_atom(*self),
    {
        match self {
            BuilderOption::AllLanguages => "all_languages",
            BuilderOption::AllSpokenLanguages => "all_spoken_languages",
            BuilderOption::AllLanguagesWithArabicScript => "all_languages_with_arabic_script",
            BuilderOption::AllLanguagesWithCyrillicScript => "all_languages_with_cyrillic_script",
            BuilderOption::AllLanguagesWithDevanagariScript => "all_languages_with_devanagari_script",
            BuilderOption::AllLanguagesWithLatinScript => "all_languages_with_latin_script",
            BuilderOption::WithLanguages => "with_languages",
            BuilderOption::WithoutLanguages => "without_languages",
        }
    }
}

/// The eight options, in declaration order.
pub open spec fn all_options() -> Seq<BuilderOption> {
    seq![
        BuilderOption::AllLanguages,
        BuilderOption::AllSpokenLanguages,
        BuilderOption::AllLanguagesWithArabicScript,
        BuilderOption::AllLanguagesWithCyrillicScript,
        BuilderOption::AllLanguagesWithDevanagariScript,
        BuilderOption::AllLanguagesWithLatinScript,
        BuilderOption::WithLanguages,
        BuilderOption::WithoutLanguages,
    ]
}

/// Distinct options are named by distinct atoms.
pub proof fn lemma_option_atoms_distinct(a: BuilderOption, b: BuilderOption)
    requires
        a != b,
    ensures
        option_atom(a) != option_atom(b),
{
    reveal_strlit("all_languages");
    reveal_strlit("all_spoken_languages");
    reveal_strlit("all_languages_with_arabic_script");
    reveal_strlit("all_languages_with_cyrillic_script");
    reveal_strlit("all_languages_with_devanagari_script");
    reveal_strlit("all_languages_with_latin_script");
    reveal_strlit("with_languages");
    reveal_strlit("without_languages");
    if option_atom(a) == option_atom(b) {
        assert(option_atom(a).len() == option_atom(b).len());
        assert(option_atom(a)[4] == option_atom(b)[4]);
        assert(option_atom(a)[18] == option_atom(b)[18]);
        assert(option_atom(a)[19] == option_atom(b)[19]);
    }
}

/// Reads a builder option from its atom; fails on any other text.
pub fn decode_option(atom: &str) -> (r: Result<BuilderOption, DecodeError>)
    ensures
        match r {
            Ok(o) => option_atom(o) == atom@,
            Err(e) => e == DecodeError::UnknownOption && forall|o: BuilderOption|
                option_atom(o) != atom@,
        },
{
    let options = [
        BuilderOption::AllLanguages,
        BuilderOption::AllSpokenLanguages,
        BuilderOption::AllLanguagesWithArabicScript,
        BuilderOption::AllLanguagesWithCyrillicScript,
        BuilderOption::AllLanguagesWithDevanagariScript,
        BuilderOption::AllLanguagesWithLatinScript,
        BuilderOption::WithLanguages,
        BuilderOption::WithoutLanguages,
    ];
    assert(options@ =~= all_options());
    let mut i: usize = 0;
    while i < 8
        invariant
            options@ == all_options(),
            i <= 8,
            forall|j: int| 0 <= j < i ==> option_atom(#[trigger] all_options()[j]) != atom@,
        decreases 8 - i,
    {
        let o = options[i];
        if same_text(o.atom(), atom) {
            return Ok(o);
        }
        i = i + 1;
    }
    assert forall|o: BuilderOption| option_atom(o) != atom@ by {
        let k: int = match o {
            BuilderOption::AllLanguages => 0,
            BuilderOption::AllSpokenLanguages => 1,
            BuilderOption::AllLanguagesWithArabicScript => 2,
            BuilderOption::AllLanguagesWithCyrillicScript => 3,
            BuilderOption::AllLanguagesWithDevanagariScript => 4,
            BuilderOption::AllLanguagesWithLatinScript => 5,
            BuilderOption::WithLanguages => 6,
            BuilderOption::WithoutLanguages => 7,
        };
        assert(all_options()[k] == o);
    }
    Err(DecodeError::UnknownOption)
}

} // verus!
