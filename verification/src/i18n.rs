//! The two interface languages.
use vstd::prelude::*;

verus! {

#[derive(Debug, Clone, Copy, PartialEq, Eq, Hash, Structural)]
pub enum Language {
    SimplifiedChinese,
    English,
}

/// Which of two translations the language shows.
pub open spec fn translation<'a>(language: Language, chinese: &'a str, english: &'a str) -> &'a str {
    match language {
        Language::SimplifiedChinese => chinese,
        Language::English => english,
    }
}

/// Picks the translation for the language.
pub fn tr<'a>(language: Language, chinese: &'a str, english: &'a str) -> (r: &'a str)
    ensures
        r == translation(language, chinese, english),
{
    match language {
        Language::SimplifiedChinese => chinese,
        Language::English => english,
    }
}

/// Each language gets its own wording: two wordings that differ are told apart by the
/// language alone.
pub proof fn languages_keep_their_wording<'a>(chinese: &'a str, english: &'a str)
    ensures
        translation(Language::SimplifiedChinese, chinese, english) == chinese,
        translation(Language::English, chinese, english) == english,
{
}

} // verus!
