//! The languages that can be documented, and the registry that names them.

use vstd::prelude::*;
use crate::errors::LibraryError;
use crate::text::in_lower_case;

verus! {

/// The languages supported by the library.
#[derive(Debug, Clone, Copy, PartialEq, Eq, Hash, Structural)]
pub enum Language {
    Rust,
}

/// What the registry knows of one language.
#[derive(Debug, Clone, Copy)]
pub struct LanguageConfig {
    /// The canonical lower-case name, by which users choose the language and
    /// by which rendered code blocks are tagged.
    pub name: &'static str,
    /// The language that this entry configures.
    pub language: Language,
}

/// A [`LanguageConfig`] with its name as a sequence of characters.
pub struct LanguageConfigView {
    pub name: Seq<char>,
    pub language: Language,
}

impl View for LanguageConfig {
    type V = LanguageConfigView;

    open spec fn view(&self) -> LanguageConfigView {
        LanguageConfigView { name: self.name@, language: self.language }
    }
}

/// The registered languages, in registration order.
pub open spec fn registry() -> Seq<LanguageConfigView> {
    seq![LanguageConfigView { name: "rust"@, language: Language::Rust }]
}

/// The first entry of `configs` for `language`, if there is one.
pub open spec fn find_config(configs: Seq<LanguageConfigView>, language: Language) -> Option<
    LanguageConfigView,
>
    decreases configs.len(),
{
    if configs.len() == 0 {
        None
    } else if configs.first().language == language {
        Some(configs.first())
    } else {
        find_config(configs.drop_first(), language)
    }
}

/// The language of the first entry of `configs` that is called `name`, if
/// there is one.
pub open spec fn find_named(configs: Seq<LanguageConfigView>, name: Seq<char>) -> Option<Language>
    decreases configs.len(),
{
    if configs.len() == 0 {
        None
    } else if configs.first().name == name {
        Some(configs.first().language)
    } else {
        find_named(configs.drop_first(), name)
    }
}

/// The registered configuration of `language`.
pub open spec fn config_of(language: Language) -> LanguageConfigView {
    find_config(registry(), language).unwrap()
}

/// The registered language called `name`, if there is one.
pub open spec fn language_named(name: Seq<char>) -> Option<Language> {
    find_named(registry(), name)
}

/// The views of `configs`, in order.
pub open spec fn config_views(configs: Seq<LanguageConfig>) -> Seq<LanguageConfigView> {
    configs.map_values(|c: LanguageConfig| c@)
}

/// The registry is total: every language has a configuration, and that
/// configuration is the language's own.
pub proof fn lemma_registry_is_total(language: Language)
    ensures
        find_config(registry(), language) is Some,
        config_of(language).language == language,
{
}

/// The registry holds one entry per language: two entries for the same
/// language are the same entry.
pub proof fn lemma_registry_has_one_entry_per_language(i: int, j: int)
    requires
        0 <= i < registry().len(),
        0 <= j < registry().len(),
        registry()[i].language == registry()[j].language,
    ensures
        i == j,
{
}

/// The name under which a language is registered names that language and no
/// other: looking the name up gives the language back.
pub proof fn lemma_config_name_round_trips(language: Language)
    ensures
        language_named(config_of(language).name) == Some(language),
{
}

/// The name under which a language is registered is the language's own name
/// in lower case.
pub proof fn lemma_config_name_is_lower_case(language: Language)
    ensures
        config_of(language).name == in_lower_case(language.variant_name()),
{
    reveal_strlit("rust");
    reveal_strlit("Rust");
}

/// Whether entry `i` of `configs` is called `name` and configures `language`.
pub open spec fn is_entry(
    configs: Seq<LanguageConfigView>,
    i: int,
    name: Seq<char>,
    language: Language,
) -> bool {
    0 <= i < configs.len() && configs[i].name == name && configs[i].language == language
}

/// Looking a name up in `configs` finds the language of an entry of that
/// name, and finds none only where no entry has the name.
pub proof fn lemma_find_named(configs: Seq<LanguageConfigView>, name: Seq<char>)
    ensures
        find_named(configs, name) matches Some(language) ==> exists|i: int| #[trigger]
            is_entry(configs, i, name, language),
        find_named(configs, name) is None <==> forall|i: int|
            0 <= i < configs.len() ==> (#[trigger] configs[i]).name != name,
    decreases configs.len(),
{
    if configs.len() > 0 {
        if configs.first().name == name {
            assert(is_entry(configs, 0, name, configs.first().language));
        } else {
            let rest = configs.drop_first();
            lemma_find_named(rest, name);
            if find_named(rest, name) is Some {
                let language = find_named(rest, name)->Some_0;
                let i = choose|i: int| #[trigger] is_entry(rest, i, name, language);
                assert(is_entry(configs, i + 1, name, language));
            } else {
                assert forall|i: int| 0 <= i < configs.len() implies (#[trigger] configs[i]).name
                    != name by {
                    if i > 0 {
                        assert(configs[i] == rest[i - 1]);
                    }
                }
            }
        }
    }
}

/// Looking a name up finds a language registered under that name, and finds
/// none only where no registered language has the name.
pub proof fn lemma_language_named(name: Seq<char>)
    ensures
        language_named(name) matches Some(language) ==> config_of(language).name == name,
        language_named(name) is None <==> forall|i: int|
            0 <= i < registry().len() ==> (#[trigger] registry()[i]).name != name,
{
    lemma_find_named(registry(), name);
}

impl LanguageConfig {
    /// The configuration of every registered language, in registration order.
    pub fn get_all() -> (configs: Vec<LanguageConfig>)
        ensures
            config_views(configs@) == registry(),
    {
        let mut configs: Vec<LanguageConfig> = Vec::new();
        configs.push(LanguageConfig { name: "rust", language: Language::Rust });
        configs
    }

    /// The configuration of `language`. Every language has one.
    pub fn get_from_language(language: Language) -> (config: LanguageConfig)
        ensures
            config@ == config_of(language),
    {
        let configs = LanguageConfig::get_all();
        let mut i: usize = 0;
        while i < configs.len()
            invariant
                i <= configs.len(),
                config_views(configs@) == registry(),
                find_config(registry(), language) == find_config(
                    registry().skip(i as int),
                    language,
                ),
            decreases configs.len() - i,
        {
            let config = configs[i];
            if config.language == language {
                return config;
            }
            i = i + 1;
        }
        proof {
            lemma_registry_is_total(language);
        }
        vstd::pervasive::unreached()
    }
}

impl Language {
    /// The name of this language as it is written in messages.
    pub open spec fn variant_name(&self) -> Seq<char> {
        match self {
            Language::Rust => "Rust"@,
        }
    }

    /// The name of this language as it is written in messages.
    pub fn get_variant_name(&self) -> (name: &'static str)
        ensures
            name@ == self.variant_name(),
    {
        match self {
            Language::Rust => "Rust",
        }
    }
}

impl std::str::FromStr for Language {
    type Err = LibraryError;

    /// The language registered under `name`, or the error that names `name`
    /// as unsupported.
    fn from_str(name: &str) -> (result: Result<Language, LibraryError>)
        ensures
            match language_named(name@) {
                Some(language) => result == Ok::<Language, LibraryError>(language),
                None => result matches Err(LibraryError::UnsupportedLanguage(n)) && n@ == name@,
            },
    {
        let wanted: String = name.to_owned();
        let configs = LanguageConfig::get_all();
        let mut i: usize = 0;
        assert(registry().skip(0) =~= registry());
        while i < configs.len()
            invariant
                i <= configs.len(),
                wanted@ == name@,
                config_views(configs@) == registry(),
                language_named(name@) == find_named(registry().skip(i as int), name@),
            decreases configs.len() - i,
        {
            let config = configs[i];
            let candidate: String = config.name.to_owned();
            if candidate == wanted {
                return Ok(config.language);
            }
            i = i + 1;
        }
        Err(LibraryError::UnsupportedLanguage(wanted))
    }
}

} // verus!
