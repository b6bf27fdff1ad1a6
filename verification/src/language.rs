use vstd::prelude::*;

verus! {

/// The name of the language in which a source text is written.
#[derive(Debug, PartialEq, Eq)]
pub struct Language {
    pub name: String,
}

impl View for Language {
    type V = Seq<char>;

    open spec fn view(&self) -> Seq<char> {
        self.name@
    }
}

/// The name of an optional language: no language has the empty name.
pub open spec fn spec_optional_language_name(language: Option<Seq<char>>) -> Seq<char> {
    match language {
        None => Seq::empty(),
        Some(name) => name,
    }
}

/// Makes the language named `name`.
pub fn language_new(name: &str) -> (language: Language)
    ensures
        language@ == name@,
{
    Language { name: name.to_owned() }
}

/// Renames `language` to `new`.
pub fn language_set_name(language: &mut Language, new: &str)
    ensures
        final(language)@ == new@,
{
    language.name = new.to_owned();
}

/// The name of `language`; the empty name where there is no language.
pub fn language_get_name(language: Option<&Language>) -> (name: &str)
    ensures
        name@ == spec_optional_language_name(
            match language {
                None => None,
                Some(l) => Some(l@),
            },
        ),
{
    match language {
        None => {
            let empty = "";
            proof {
                reveal_strlit("");
            }
            empty
        },
        Some(l) => l.name.as_str(),
    }
}

/// The name read from a language is its name; no language reads as the empty
/// name.
pub proof fn law_language_name(name: Seq<char>)
    ensures
        spec_optional_language_name(Some(name)) == name,
        spec_optional_language_name(None).len() == 0,
{
}

} // verus!
