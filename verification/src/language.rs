use vstd::prelude::*;

verus! {

/// The interface languages the launcher offers.
#[derive(Clone, Copy, PartialEq, Eq, Structural, Debug)]
pub enum Language {
    English,
    ChineseSimplified,
    ChineseTraditional,
    Japanese,
    Korean,
}

/// The label of the language menu when `lang` is selected.
pub open spec fn language_menu_label(lang: Language) -> Seq<char> {
    match lang {
        Language::English => "language : English"@,
        Language::ChineseSimplified => "语言：中文-简体"@,
        Language::ChineseTraditional => "語言：中文-繁體"@,
        Language::Japanese => "言語：日本語"@,
        Language::Korean => "언어: 한국어"@,
    }
}

/// The name of a language as listed in the language menu.
pub open spec fn language_display_name(lang: Language) -> Seq<char> {
    match lang {
        Language::English => "English"@,
        Language::ChineseSimplified => "中文-简体"@,
        Language::ChineseTraditional => "中文-繁體"@,
        Language::Japanese => "日本語"@,
        Language::Korean => "한국어"@,
    }
}

/// Every language, in menu order.
pub open spec fn all_languages() -> Seq<Language> {
    seq![
        Language::English,
        Language::ChineseSimplified,
        Language::ChineseTraditional,
        Language::Japanese,
        Language::Korean,
    ]
}

impl Default for Language {
    fn default() -> (r: Self)
        ensures
            r == Language::English,
    {
        Language::English
    }
}

impl Language {
    /// The label shown on the language menu button.
    pub fn name(&self) -> (r: &'static str)
        ensures
            r@ == language_menu_label(*self),
    {
        match self {
            Language::English => "language : English",
            Language::ChineseSimplified => "语言：中文-简体",
            Language::ChineseTraditional => "語言：中文-繁體",
            Language::Japanese => "言語：日本語",
            Language::Korean => "언어: 한국어",
        }
    }

    /// The language's own name, as listed in the menu.
    pub fn display_name(&self) -> (r: &'static str)
        ensures
            r@ == language_display_name(*self),
    {
        match self {
            Language::English => "English",
            Language::ChineseSimplified => "中文-简体",
            Language::ChineseTraditional => "中文-繁體",
            Language::Japanese => "日本語",
            Language::Korean => "한국어",
        }
    }

    /// All languages, in menu order.
    pub fn all() -> (r: [Language; 5])
        ensures
            r@ == all_languages(),
    {
        [
            Language::English,
            Language::ChineseSimplified,
            Language::ChineseTraditional,
            Language::Japanese,
            Language::Korean,
        ]
    }
}

/// Every language is listed exactly once by `Language::all`.
pub proof fn lemma_all_languages_listed_once(lang: Language)
    ensures
        all_languages().contains(lang),
        all_languages().filter(|l: Language| l == lang).len() == 1,
{
    assert(all_languages().contains(lang)) by {
        match lang {
            Language::English => assert(all_languages()[0] == lang),
            Language::ChineseSimplified => assert(all_languages()[1] == lang),
            Language::ChineseTraditional => assert(all_languages()[2] == lang),
            Language::Japanese => assert(all_languages()[3] == lang),
            Language::Korean => assert(all_languages()[4] == lang),
        }
    }
    reveal_with_fuel(Seq::filter, 6);
}

} // verus!
