//! Session-local UI language. Call sites pass their English string and a
//! language file answers with the localized form or nothing. Runtime
//! diagnostics and user-defined names are never translated.
//!
//! One file per language, `en.rs` included: it maps every string to itself,
//! so it doubles as the canonical inventory to diff a new language against.
//! A string a language file omits falls back to the English source rather
//! than rendering blank, so a partial translation ships safely.
use vstd::prelude::*;

pub mod en;
pub mod es;
pub mod zh;

verus! {

#[derive(Clone, Copy, Debug, PartialEq, Eq, Structural)]
pub enum Language {
    English,
    Chinese,
    Spanish,
}

/// The localized form a language's file carries for `source`, if any.
pub open spec fn localized(language: Language, source: Seq<char>) -> Option<Seq<char>> {
    match language {
        Language::English => en::table(source),
        Language::Chinese => zh::table(source),
        Language::Spanish => es::table(source),
    }
}

/// What a call site renders for `source`: the localized form, or the source
/// itself where the language has none.
pub open spec fn rendered(language: Language, source: Seq<char>) -> Seq<char> {
    match localized(language, source) {
        Some(t) => t,
        None => source,
    }
}

/// The endonym shown in the language list.
pub open spec fn endonym(language: Language) -> Seq<char> {
    match language {
        Language::English => "English"@,
        Language::Chinese => "中文"@,
        Language::Spanish => "Español"@,
    }
}

impl Default for Language {
    fn default() -> (r: Self)
        ensures
            r == Language::English,
    {
        Language::English
    }
}

impl Language {
    pub const ALL: [Language; 3] = [Language::English, Language::Chinese, Language::Spanish];

    /// Endonym, shown in the language list.
    pub fn name(self) -> (r: &'static str)
        ensures
            r@ == endonym(self),
    {
        match self {
            Language::English => "English",
            Language::Chinese => "中文",
            Language::Spanish => "Español",
        }
    }

    /// The localized form of `source`, falling back to `source` itself.
    pub fn text(self, source: &str) -> (r: &str)
        ensures
            r@ == rendered(self, source@),
    {
        match self.translate(source) {
            Some(t) => t,
            None => source,
        }
    }

    fn translate(self, source: &str) -> (r: Option<&'static str>)
        ensures
            r is None <==> localized(self, source@) is None,
            r matches Some(t) ==> localized(self, source@) == Some(t@),
    {
        match self {
            Language::English => en::text(source),
            Language::Chinese => zh::text(source),
            Language::Spanish => es::text(source),
        }
    }
}

/// English is the identity: every string its file carries renders as
/// itself, and so does every string it omits.
pub proof fn english_renders_every_source_as_itself(source: Seq<char>)
    ensures
        rendered(Language::English, source) == source,
        en::table(source) matches Some(t) ==> t == source,
{
}

/// A string a language's file omits renders as its English source.
pub proof fn an_omitted_string_falls_back_to_its_source(language: Language, source: Seq<char>)
    requires
        localized(language, source) is None,
    ensures
        rendered(language, source) == source,
{
}


/// The English file is the inventory: every string another language file
/// translates is a string the English file carries.
#[verifier::rlimit(100)]
pub proof fn the_english_file_is_the_inventory(source: Seq<char>)
    ensures
        es::table(source) is Some ==> en::table(source) is Some,
        zh::table(source) is Some ==> en::table(source) is Some,
{
}


/// The two translations cover the same strings: a string Chinese translates
/// Spanish translates too, and the other way round.
#[verifier::rlimit(100)]
pub proof fn both_translations_cover_the_same_strings(source: Seq<char>)
    ensures
        zh::table(source) is Some <==> es::table(source) is Some,
{
}

} // verus!
