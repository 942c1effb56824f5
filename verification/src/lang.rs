//! Two languages: German and English. Every text is written down in both, side by side, at the
//! place where it is needed.

use vstd::prelude::*;

use crate::text::begins_with;
use crate::text::stands_at;

verus! {

/// What the user chose.
#[derive(Clone, Copy, Debug, PartialEq, Eq, Structural)]
pub enum Language {
    /// Follow the system.
    Auto,
    German,
    English,
}

pub const DE: u8 = 0;

pub const EN: u8 = 1;

/// The main part of a Windows language number: the lower ten bits.
pub const MAIN_LANGUAGE: u16 = 0x400;

/// German as a main language.
pub const LANG_GERMAN: u16 = 0x07;

impl Language {
    /// All choices in the order in which they are offered.
    pub fn all() -> (list: [Language; 3])
        ensures
            list@ == seq![Language::Auto, Language::German, Language::English],
    {
        let list = [Language::Auto, Language::German, Language::English];
        assert(list@ =~= seq![Language::Auto, Language::German, Language::English]);
        list
    }

    /// The same in both languages, so that one finds the way back.
    pub fn label(self) -> (r: &'static str)
        ensures
            r@ == (match self {
                Language::Auto => "Automatisch · Automatic"@,
                Language::German => "Deutsch"@,
                Language::English => "English"@,
            }),
    {
        match self {
            Language::Auto => "Automatisch · Automatic",
            Language::German => "Deutsch",
            Language::English => "English",
        }
    }
}

/// The code that stands for a choice.
pub open spec fn code_of(language: Language, system_german: bool) -> u8 {
    match language {
        Language::Auto => if system_german {
            DE
        } else {
            EN
        },
        Language::German => DE,
        Language::English => EN,
    }
}

/// The code to keep for a choice; with `Auto` the system decides.
pub fn apply(language: Language, system_german: bool) -> (code: u8)
    ensures
        code == code_of(language, system_german),
{
    match language {
        Language::Auto => {
            if system_german {
                DE
            } else {
                EN
            }
        },
        Language::German => DE,
        Language::English => EN,
    }
}

/// Whether the code stands for English. Anything else is German.
pub fn is_english(code: u8) -> (r: bool)
    ensures
        r == (code == EN),
{
    code == EN
}

/// One of two texts.
pub open spec fn picked(code: u8, de: Seq<char>, en: Seq<char>) -> Seq<char> {
    if code == EN {
        en
    } else {
        de
    }
}

/// A text in both languages.
pub fn t(code: u8, de: &'static str, en: &'static str) -> (r: &'static str)
    ensures
        r@ == picked(code, de@, en@),
{
    if is_english(code) {
        en
    } else {
        de
    }
}

/// Whether the language number of the Windows user interface is a kind of German.
pub fn language_number_is_german(number: u16) -> (r: bool)
    ensures
        r == (number % MAIN_LANGUAGE == LANG_GERMAN),
{
    number % MAIN_LANGUAGE == LANG_GERMAN
}

/// Whether the locale variables ask for German: `LANG` where it is set, else `LC_ALL`.
pub fn locale_is_german(lang: Option<String>, lc_all: Option<String>) -> (r: bool)
    ensures
        r == (match (lang, lc_all) {
            (Some(l), _) => stands_at(l@, "de"@, 0),
            (None, Some(l)) => stands_at(l@, "de"@, 0),
            (None, None) => false,
        }),
{
    match (lang, lc_all) {
        (Some(l), _) => begins_with(l.as_str(), "de"),
        (None, Some(l)) => begins_with(l.as_str(), "de"),
        (None, None) => false,
    }
}

/// A chosen language is used whatever the system speaks; only without a choice the system decides.
pub proof fn law_chosen_language_is_used(
    language: Language,
    german: bool,
    code: u8,
    english: bool,
    de: &'static str,
    en: &'static str,
    r: &'static str,
)
    requires
        call_ensures(apply, (language, german), code),
        call_ensures(is_english, (code,), english),
        call_ensures(t, (code, de, en), r),
    ensures
        language == Language::German ==> !english,
        language == Language::English ==> english,
        language == Language::Auto ==> english == !german,
        english ==> r@ == en@,
        !english ==> r@ == de@,
{
}

/// The lower ten bits of a language number say whether it is German, whichever country it is of.
pub proof fn law_every_german_is_german(country: u16, number: u16, r: bool)
    requires
        call_ensures(language_number_is_german, (number,), r),
        country < 64,
    ensures
        number == country * 1024 + 7 ==> r,
        number == country * 1024 + 9 ==> !r,
{
}

/// The first locale variable that is set decides, by whether it begins with `de`.
pub proof fn law_first_variable_decides(
    lang: String,
    rest: Seq<char>,
    lc_all: Option<String>,
    a: bool,
    b: bool,
    none: bool,
)
    requires
        call_ensures(locale_is_german, (Some(lang), lc_all), a),
        call_ensures(locale_is_german, (None::<String>, Some(lang)), b),
        call_ensures(locale_is_german, (None::<String>, None::<String>), none),
    ensures
        lang@ == "de"@ + rest ==> a && b,
        lang@.len() < 2 ==> !a && !b,
        !none,
{
    reveal_strlit("de");
    if lang@ == "de"@ + rest {
        assert(lang@.subrange(0, 2) =~= "de"@);
    }
}

} // verus!
