//! The configuration mapper: from a builder option and a language list to the
//! way the detector's candidate languages are chosen, and the builder for it.

use vstd::prelude::*;
use lingua::{Language, LanguageDetectorBuilder};
use crate::engine::{
    candidates, from_all_languages, from_all_languages_with_arabic_script,
    from_all_languages_with_cyrillic_script, from_all_languages_with_devanagari_script,
    from_all_languages_with_latin_script, from_all_languages_without, from_all_spoken_languages,
    from_languages,
};
use crate::option::BuilderOption;

verus! {

/// How a detector's candidate languages are chosen.
pub enum Strategy {
    AllLanguages,
    AllSpokenLanguages,
    AllWithArabicScript,
    AllWithCyrillicScript,
    AllWithDevanagariScript,
    AllWithLatinScript,
    /// Exactly the listed languages.
    Only(Vec<Language>),
    /// The whole catalog but the listed languages.
    AllExcept(Vec<Language>),
}

/// The mathematical form of a strategy: its lists as sequences.
pub ghost enum Plan {
    AllLanguages,
    AllSpokenLanguages,
    AllWithArabicScript,
    AllWithCyrillicScript,
    AllWithDevanagariScript,
    AllWithLatinScript,
    Only(Seq<Language>),
    AllExcept(Seq<Language>),
}

impl View for Strategy {
    type V = Plan;

    open spec fn view(&self) -> Plan {
        match self {
            Strategy::AllLanguages => Plan::AllLanguages,
            Strategy::AllSpokenLanguages => Plan::AllSpokenLanguages,
            Strategy::AllWithArabicScript => Plan::AllWithArabicScript,
            Strategy::AllWithCyrillicScript => Plan::AllWithCyrillicScript,
            Strategy::AllWithDevanagariScript => Plan::AllWithDevanagariScript,
            Strategy::AllWithLatinScript => Plan::AllWithLatinScript,
            Strategy::Only(v) => Plan::Only(v@),
            Strategy::AllExcept(v) => Plan::AllExcept(v@),
        }
    }
}

/// The plan that an option selects. The six options that do not read the
/// list ignore it.
pub open spec fn plan_of(option: BuilderOption, languages: Seq<Language>) -> Plan {
    match option {
        BuilderOption::AllLanguages => Plan::AllLanguages,
        BuilderOption::AllSpokenLanguages => Plan::AllSpokenLanguages,
        BuilderOption::AllLanguagesWithArabicScript => Plan::AllWithArabicScript,
        BuilderOption::AllLanguagesWithCyrillicScript => Plan::AllWithCyrillicScript,
        BuilderOption::AllLanguagesWithDevanagariScript => Plan::AllWithDevanagariScript,
        BuilderOption::AllLanguagesWithLatinScript => Plan::AllWithLatinScript,
        BuilderOption::WithLanguages => Plan::Only(languages),
        BuilderOption::WithoutLanguages => Plan::AllExcept(languages),
    }
}

/// Whether lingua can build a detector for a plan: an explicit list must not
/// be empty, and an exclusion list must leave some language of the catalog.
pub open spec fn plan_buildable(p: Plan) -> bool {
    match p {
        Plan::Only(v) => v.len() > 0,
        Plan::AllExcept(v) => leaves_some(v),
        _ => true,
    }
}

/// Whether some language of the catalog is missing from a list.
pub open spec fn leaves_some(v: Seq<Language>) -> bool {
    exists|l: Language| !v.contains(l)
}

/// The candidate languages that a plan gives, where it fixes them without
/// reference to lingua's scripts.
pub open spec fn plan_candidates(p: Plan) -> Option<Set<Language>> {
    match p {
        Plan::AllLanguages => Some(Set::full()),
        Plan::Only(v) => Some(v.to_set()),
        Plan::AllExcept(v) => Some(Set::full().difference(v.to_set())),
        _ => None,
    }
}

/// Selects the strategy for an option; the list is kept only by the two
/// options that read it.
pub fn resolve(option: BuilderOption, languages: Vec<Language>) -> (r: Strategy)
    ensures
        r@ == plan_of(option, languages@),
{
    match option {
        BuilderOption::AllLanguages => Strategy::AllLanguages,
        BuilderOption::AllSpokenLanguages => Strategy::AllSpokenLanguages,
        BuilderOption::AllLanguagesWithArabicScript => Strategy::AllWithArabicScript,
        BuilderOption::AllLanguagesWithCyrillicScript => Strategy::AllWithCyrillicScript,
        BuilderOption::AllLanguagesWithDevanagariScript => Strategy::AllWithDevanagariScript,
        BuilderOption::AllLanguagesWithLatinScript => Strategy::AllWithLatinScript,
        BuilderOption::WithLanguages => Strategy::Only(languages),
        BuilderOption::WithoutLanguages => Strategy::AllExcept(languages),
    }
}

/// The lingua builder for a strategy.
pub fn assemble(strategy: &Strategy) -> (r: LanguageDetectorBuilder)
    requires
        plan_buildable(strategy@),
    ensures
        plan_candidates(strategy@) matches Some(s) ==> candidates(r) == s,
{
    match strategy {
        Strategy::AllLanguages => from_all_languages(),
        Strategy::AllSpokenLanguages => from_all_spoken_languages(),
        Strategy::AllWithArabicScript => from_all_languages_with_arabic_script(),
        Strategy::AllWithCyrillicScript => from_all_languages_with_cyrillic_script(),
        Strategy::AllWithDevanagariScript => from_all_languages_with_devanagari_script(),
        Strategy::AllWithLatinScript => from_all_languages_with_latin_script(),
        Strategy::Only(v) => from_languages(v),
        Strategy::AllExcept(v) => from_all_languages_without(v),
    }
}

/// The lingua builder that an option and a language list ask for.
pub fn create_builder(option: BuilderOption, languages: Vec<Language>) -> (r: LanguageDetectorBuilder)
    requires
        plan_buildable(plan_of(option, languages@)),
    ensures
        plan_candidates(plan_of(option, languages@)) matches Some(s) ==> candidates(r) == s,
{
    let strategy = resolve(option, languages);
    assemble(&strategy)
}

/// A list that misses some language leaves lingua something to choose from.
pub proof fn lemma_exclusion_buildable(v: Seq<Language>, l: Language)
    requires
        !v.contains(l),
    ensures
        plan_buildable(Plan::AllExcept(v)),
{
    assert(leaves_some(v));
}

/// The mapper sends distinct options to distinct plans, whatever the list,
/// and the same option and list always to the same plan.
pub proof fn lemma_plans_distinct(a: BuilderOption, b: BuilderOption, languages: Seq<Language>)
    ensures
        a != b ==> plan_of(a, languages) != plan_of(b, languages),
        a == b ==> plan_of(a, languages) == plan_of(b, languages),
{
}

/// Excluding one language leaves every other language of the catalog, so a
/// finite catalog of `n` languages leaves `n - 1` candidates.
pub proof fn lemma_without_one(a: Language)
    ensures
        plan_candidates(plan_of(BuilderOption::WithoutLanguages, seq![a]))
            == Some(Set::<Language>::full().remove(a)),
        Set::<Language>::full().finite() ==> Set::<Language>::full().remove(a).len()
            == Set::<Language>::full().len() - 1,
{
    let v = seq![a];
    assert(v.to_set() =~= set![a]) by {
        assert(v.contains(a)) by { assert(v[0] == a); }
    }
    assert(Set::<Language>::full().difference(v.to_set()) =~= Set::<Language>::full().remove(a));
}

/// With exactly one listed language, that language is the only candidate.
pub proof fn lemma_only_one(a: Language)
    ensures
        plan_buildable(plan_of(BuilderOption::WithLanguages, seq![a])),
        plan_candidates(plan_of(BuilderOption::WithLanguages, seq![a])) == Some(set![a]),
{
    let v = seq![a];
    assert(v.to_set() =~= set![a]) by {
        assert(v.contains(a)) by { assert(v[0] == a); }
    }
}

} // verus!
