//! The UI languages every companion app supports.

use vstd::prelude::*;
use crate::text::{chars_eq_str, chars_of};

verus! {

/// A supported UI language.
#[derive(Clone, Copy, Debug, PartialEq, Eq, Structural)]
pub enum Language {
    English,
    Chinese,
    Spanish,
    German,
    Japanese,
    French,
    Portuguese,
    Russian,
}

/// The two-letter code of a language.
pub open spec fn code_spec(lang: Language) -> Seq<char> {
    match lang {
        Language::English => "en"@,
        Language::Chinese => "zh"@,
        Language::Spanish => "es"@,
        Language::German => "de"@,
        Language::Japanese => "ja"@,
        Language::French => "fr"@,
        Language::Portuguese => "pt"@,
        Language::Russian => "ru"@,
    }
}

/// The language whose code is `code`; English for any other text.
pub open spec fn from_code_spec(code: Seq<char>) -> Language {
    if code == "zh"@ {
        Language::Chinese
    } else if code == "es"@ {
        Language::Spanish
    } else if code == "de"@ {
        Language::German
    } else if code == "ja"@ {
        Language::Japanese
    } else if code == "fr"@ {
        Language::French
    } else if code == "pt"@ {
        Language::Portuguese
    } else if code == "ru"@ {
        Language::Russian
    } else {
        Language::English
    }
}

/// The language codes are two ASCII letters each and pairwise distinct.
pub proof fn lemma_codes_distinct()
    ensures
        forall|a: Language, b: Language|
            #![trigger code_spec(a), code_spec(b)]
            a != b ==> code_spec(a) != code_spec(b),
        forall|a: Language| (#[trigger] code_spec(a)).len() == 2,
{
    reveal_strlit("en");
    reveal_strlit("zh");
    reveal_strlit("es");
    reveal_strlit("de");
    reveal_strlit("ja");
    reveal_strlit("fr");
    reveal_strlit("pt");
    reveal_strlit("ru");
    assert forall|a: Language, b: Language| a != b implies code_spec(a) != code_spec(b) by {
        if code_spec(a) == code_spec(b) {
            assert(code_spec(a)[0] == code_spec(b)[0]);
            assert(code_spec(a)[1] == code_spec(b)[1]);
        }
    }
}

/// A language's code reads back as that language.
pub proof fn law_code_round_trip(lang: Language)
    ensures
        from_code_spec(code_spec(lang)) == lang,
{
    lemma_codes_distinct();
    assert(code_spec(Language::English) == code_spec(Language::English));
    assert(code_spec(Language::Chinese) == code_spec(Language::Chinese));
    assert(code_spec(Language::Spanish) == code_spec(Language::Spanish));
    assert(code_spec(Language::German) == code_spec(Language::German));
    assert(code_spec(Language::Japanese) == code_spec(Language::Japanese));
    assert(code_spec(Language::French) == code_spec(Language::French));
    assert(code_spec(Language::Portuguese) == code_spec(Language::Portuguese));
    assert(code_spec(Language::Russian) == code_spec(Language::Russian));
}

impl Language {
    /// All languages, in display order.
    pub fn all() -> (r: &'static [Language])
        ensures
            r@ == seq![
                Language::English,
                Language::Chinese,
                Language::Spanish,
                Language::German,
                Language::Japanese,
                Language::French,
                Language::Portuguese,
                Language::Russian,
            ],
    {
        &[
            Language::English,
            Language::Chinese,
            Language::Spanish,
            Language::German,
            Language::Japanese,
            Language::French,
            Language::Portuguese,
            Language::Russian,
        ]
    }

    /// The two-letter language code (`en`, `zh`, `es`, `de`, `ja`, `fr`,
    /// `pt`, `ru`).
    pub fn code(&self) -> (r: &'static str)
        ensures
            r@ == code_spec(*self),
    {
        match self {
            Language::English => "en",
            Language::Chinese => "zh",
            Language::Spanish => "es",
            Language::German => "de",
            Language::Japanese => "ja",
            Language::French => "fr",
            Language::Portuguese => "pt",
            Language::Russian => "ru",
        }
    }

    /// The language's name in that language, for pickers.
    pub fn label(&self) -> (r: &'static str)
        ensures
            r@ == match self {
                Language::English => "English"@,
                Language::Chinese => "中文"@,
                Language::Spanish => "Español"@,
                Language::German => "Deutsch"@,
                Language::Japanese => "日本語"@,
                Language::French => "Français"@,
                Language::Portuguese => "Português"@,
                Language::Russian => "Русский"@,
            },
    {
        match self {
            Language::English => "English",
            Language::Chinese => "中文",
            Language::Spanish => "Español",
            Language::German => "Deutsch",
            Language::Japanese => "日本語",
            Language::French => "Français",
            Language::Portuguese => "Português",
            Language::Russian => "Русский",
        }
    }

    /// The language whose code is `code`; English for any other text.
    pub fn from_code(code: &str) -> (lang: Language)
        ensures
            lang == from_code_spec(code@),
    {
        let c = chars_of(code);
        if chars_eq_str(&c, "zh") {
            Language::Chinese
        } else if chars_eq_str(&c, "es") {
            Language::Spanish
        } else if chars_eq_str(&c, "de") {
            Language::German
        } else if chars_eq_str(&c, "ja") {
            Language::Japanese
        } else if chars_eq_str(&c, "fr") {
            Language::French
        } else if chars_eq_str(&c, "pt") {
            Language::Portuguese
        } else if chars_eq_str(&c, "ru") {
            Language::Russian
        } else {
            Language::English
        }
    }
}

} // verus!
