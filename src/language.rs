//! Languages to and from the atoms of the host runtime: the atom of a
//! language is its catalog name in ASCII lower case (`english`, `german`).

use vstd::prelude::*;
use lingua::Language;
use crate::engine::{ascii_lower, ascii_lower_char, language_name, name_of, parse_language, to_ascii_lowercase};
use crate::option::DecodeError;
use crate::text::same_text;

verus! {

/// The atom that names a language.
pub open spec fn language_atom(l: Language) -> Seq<char> {
    ascii_lower(language_name(l))
}

/// Whether an atom names some language of the catalog.
pub open spec fn is_language_atom(s: Seq<char>) -> bool {
    exists|l: Language| s == #[trigger] language_atom(l)
}

/// Whether `v` holds, in order, the languages that the atoms name.
pub open spec fn names_all(v: Seq<Language>, atoms: Seq<String>) -> bool {
    v.len() == atoms.len() && forall|i: int| 0 <= i < atoms.len() ==> atoms[i]@ == #[trigger] language_atom(v[i])
}

/// Lower-casing twice is lower-casing once.
pub proof fn lemma_ascii_lower_idempotent(s: Seq<char>)
    ensures
        ascii_lower(ascii_lower(s)) == ascii_lower(s),
{
    assert forall|i: int| 0 <= i < s.len() implies ascii_lower_char(ascii_lower_char(s[i]))
        == ascii_lower_char(s[i]) by {
        let c = s[i];
        if 'A' <= c && c <= 'Z' {
            assert((c as u32) + 32 >= 'a' as u32);
        }
    }
    assert(ascii_lower(ascii_lower(s)) =~= ascii_lower(s));
}

/// The atom of a language.
pub fn encode_language(l: Language) -> (r: String)
    ensures
        r@ == language_atom(l),
{
    let name = name_of(l);
    to_ascii_lowercase(name.as_str())
}

/// Reads a language from its atom. Every language of the catalog comes back
/// from its own atom, and no other text is accepted.
pub fn decode_language(atom: &str) -> (r: Result<Language, DecodeError>)
    ensures
        forall|l: Language| (r == Ok::<Language, DecodeError>(l)) <==> atom@ == #[trigger] language_atom(l),
        r is Err <==> !is_language_atom(atom@),
        r is Err ==> r == Err::<Language, DecodeError>(DecodeError::UnknownLanguage),
{
    proof {
        lemma_ascii_lower_idempotent(atom@);
    }
    match parse_language(atom) {
        None => {
            assert forall|l: Language| atom@ != #[trigger] language_atom(l) by {
                lemma_ascii_lower_idempotent(language_name(l));
            }
            Err(DecodeError::UnknownLanguage)
        },
        Some(found) => {
            let spelled = encode_language(found);
            if same_text(spelled.as_str(), atom) {
                assert forall|l: Language| (found == l) <==> atom@ == #[trigger] language_atom(l) by {
                    lemma_ascii_lower_idempotent(language_name(l));
                }
                Ok(found)
            } else {
                assert forall|l: Language| atom@ != #[trigger] language_atom(l) by {
                    lemma_ascii_lower_idempotent(language_name(l));
                }
                Err(DecodeError::UnknownLanguage)
            }
        },
    }
}

/// Reads a whole list of language atoms, all or nothing: the languages in
/// order when every atom names one, otherwise an error.
pub fn decode_languages(atoms: &Vec<String>) -> (r: Result<Vec<Language>, DecodeError>)
    ensures
        r is Ok <==> forall|i: int| 0 <= i < atoms@.len() ==> is_language_atom(#[trigger] atoms@[i]@),
        r matches Ok(v) ==> v@.len() == atoms@.len() && forall|i: int|
            0 <= i < atoms@.len() ==> atoms@[i]@ == #[trigger] language_atom(v@[i]),
        r matches Ok(v) ==> forall|w: Seq<Language>| #[trigger] names_all(w, atoms@) ==> w == v@,
        r is Err ==> r == Err::<Vec<Language>, DecodeError>(DecodeError::UnknownLanguage),
{
    let mut out: Vec<Language> = Vec::new();
    let mut i: usize = 0;
    while i < atoms.len()
        invariant
            i <= atoms@.len(),
            out@.len() == i,
            forall|j: int| 0 <= j < i ==> atoms@[j]@ == #[trigger] language_atom(out@[j]),
            forall|j: int, l: Language|
                #![trigger atoms@[j], language_atom(l)]
                0 <= j < i && atoms@[j]@ == language_atom(l) ==> out@[j] == l,
        decreases atoms@.len() - i,
    {
        match decode_language(atoms[i].as_str()) {
            Ok(l) => {
                out.push(l);
            },
            Err(e) => {
                return Err(e);
            },
        }
        i = i + 1;
    }
    assert forall|j: int| 0 <= j < atoms@.len() implies is_language_atom(#[trigger] atoms@[j]@) by {
        assert(atoms@[j]@ == language_atom(out@[j]));
    }
    assert forall|w: Seq<Language>| #[trigger] names_all(w, atoms@) implies w == out@ by {
        assert forall|j: int| 0 <= j < w.len() implies w[j] == out@[j] by {
            assert(atoms@[j]@ == language_atom(w[j]));
        }
        assert(w =~= out@);
    }
    Ok(out)
}

} // verus!
