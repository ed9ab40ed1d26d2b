//! The closed table of supported subtitle languages (ISO 639-2 codes).
use vstd::prelude::*;
use crate::error::{is_lang_error, ProgramError};
use crate::text::same_text;

verus! {

/// A supported subtitle language.
#[derive(Clone, Copy, Debug, PartialEq, Eq, Structural)]
pub enum LanguageCode {
    Jpn,
    Eng,
    Spa,
    Und,
}

impl LanguageCode {
    /// The three-letter code of the language.
    pub open spec fn code_spec(self) -> Seq<char> {
        match self {
            LanguageCode::Jpn => seq!['j', 'p', 'n'],
            LanguageCode::Eng => seq!['e', 'n', 'g'],
            LanguageCode::Spa => seq!['s', 'p', 'a'],
            LanguageCode::Und => seq!['u', 'n', 'd'],
        }
    }

    /// The track name shown for the language.
    pub open spec fn name_spec(self) -> Seq<char> {
        match self {
            LanguageCode::Jpn => seq!['J', 'a', 'p', 'a', 'n', 'e', 's', 'e'],
            LanguageCode::Eng => seq!['E', 'n', 'g', 'l', 'i', 's', 'h'],
            LanguageCode::Spa => seq!['S', 'p', 'a', 'n', 'i', 's', 'h'],
            LanguageCode::Und => seq![
                'U', 'n', 'd', 'e', 't', 'e', 'r', 'm', 'i', 'n', 'e', 'd'
            ],
        }
    }

    /// The three-letter code of the language.
    pub fn code(&self) -> (r: String)
        ensures
            r@ == self.code_spec(),
    {
        match self {
            LanguageCode::Jpn => {
                proof {
                    reveal_strlit("jpn");
                }
                let r = String::from_str("jpn");
                assert(r@ =~= self.code_spec());
                r
            },
            LanguageCode::Eng => {
                proof {
                    reveal_strlit("eng");
                }
                let r = String::from_str("eng");
                assert(r@ =~= self.code_spec());
                r
            },
            LanguageCode::Spa => {
                proof {
                    reveal_strlit("spa");
                }
                let r = String::from_str("spa");
                assert(r@ =~= self.code_spec());
                r
            },
            LanguageCode::Und => {
                proof {
                    reveal_strlit("und");
                }
                let r = String::from_str("und");
                assert(r@ =~= self.code_spec());
                r
            },
        }
    }

    /// The track name shown for the language.
    pub fn name(&self) -> (r: String)
        ensures
            r@ == self.name_spec(),
    {
        match self {
            LanguageCode::Jpn => {
                proof {
                    reveal_strlit("Japanese");
                }
                let r = String::from_str("Japanese");
                assert(r@ =~= self.name_spec());
                r
            },
            LanguageCode::Eng => {
                proof {
                    reveal_strlit("English");
                }
                let r = String::from_str("English");
                assert(r@ =~= self.name_spec());
                r
            },
            LanguageCode::Spa => {
                proof {
                    reveal_strlit("Spanish");
                }
                let r = String::from_str("Spanish");
                assert(r@ =~= self.name_spec());
                r
            },
            LanguageCode::Und => {
                proof {
                    reveal_strlit("Undetermined");
                }
                let r = String::from_str("Undetermined");
                assert(r@ =~= self.name_spec());
                r
            },
        }
    }

    /// The supported language whose code is `code`, if there is one.
    pub fn from_code(code: &str) -> (r: Option<LanguageCode>)
        ensures
            r == language_of(code@),
    {
        let jpn = LanguageCode::Jpn.code();
        let eng = LanguageCode::Eng.code();
        let spa = LanguageCode::Spa.code();
        let und = LanguageCode::Und.code();
        if same_text(code, jpn.as_str()) {
            Some(LanguageCode::Jpn)
        } else if same_text(code, eng.as_str()) {
            Some(LanguageCode::Eng)
        } else if same_text(code, spa.as_str()) {
            Some(LanguageCode::Spa)
        } else if same_text(code, und.as_str()) {
            Some(LanguageCode::Und)
        } else {
            None
        }
    }
}

/// The supported language whose code is `code`, if there is one.
pub open spec fn language_of(code: Seq<char>) -> Option<LanguageCode> {
    if code == LanguageCode::Jpn.code_spec() {
        Some(LanguageCode::Jpn)
    } else if code == LanguageCode::Eng.code_spec() {
        Some(LanguageCode::Eng)
    } else if code == LanguageCode::Spa.code_spec() {
        Some(LanguageCode::Spa)
    } else if code == LanguageCode::Und.code_spec() {
        Some(LanguageCode::Und)
    } else {
        None
    }
}

/// Looks `code` up in the language table; an unknown code is a
/// `LangError` that carries it.
pub fn resolve_language(code: &str) -> (r: Result<LanguageCode, ProgramError>)
    ensures
        language_of(code@) is Some ==> r == Ok::<LanguageCode, ProgramError>(
            language_of(code@)->Some_0,
        ),
        language_of(code@) is None ==> r is Err && is_lang_error(r->Err_0, code@),
{
    match LanguageCode::from_code(code) {
        Some(l) => Ok(l),
        None => Err(ProgramError::LangError(String::from_str(code))),
    }
}

} // verus!
