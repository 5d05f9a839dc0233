use daipendency::errors::LibraryError;
use daipendency::languages::{Language, LanguageConfig};

#[test]
fn get_from_language() {
    let config = LanguageConfig::get_from_language(Language::Rust);

    assert_eq!(config.name, "rust");
}

#[test]
fn get_all() {
    let configs = LanguageConfig::get_all();

    assert_eq!(configs.len(), 1);
    let rust_config = configs
        .iter()
        .find(|config| config.language == Language::Rust)
        .unwrap();
    assert_eq!(rust_config.name, "rust");
}

#[test]
fn from_str() {
    let input = "rust";

    let result = input.parse::<Language>().unwrap();

    assert_eq!(result, Language::Rust);
}

#[test]
fn unsupported_language() {
    let input = "python";

    let result = input.parse::<Language>();

    assert!(result.is_err());
}

#[test]
fn every_registered_name_parses_back_to_its_language() {
    for config in LanguageConfig::get_all() {
        let by_language = LanguageConfig::get_from_language(config.language);
        assert_eq!(by_language.name, config.name);
        assert_eq!(by_language.language, config.language);
        assert_eq!(config.name.parse::<Language>(), Ok(config.language));
    }
}

#[test]
fn unknown_names_are_refused_with_the_name() {
    for name in ["python", "", "Rust", "RUST", "rust ", " rust", "rus", "rustc"] {
        assert_eq!(
            name.parse::<Language>(),
            Err(LibraryError::UnsupportedLanguage(name.to_string()))
        );
    }
}

#[test]
fn unknown_language_message_names_the_language() {
    let error = "python".parse::<Language>().unwrap_err();

    assert_eq!(error.message(), "Unknown language 'python'");
}

#[test]
fn variant_name_is_the_name_in_messages() {
    assert_eq!(Language::Rust.get_variant_name(), "Rust");
}

#[test]
fn configuration_makes_the_extractor_of_its_language() {
    let config = LanguageConfig::get_from_language(Language::Rust);

    let extractor = config.extractor_initialiser();

    assert_eq!(extractor.get_language(), Language::Rust);
}

#[test]
fn registered_name_is_the_language_name_in_lower_case() {
    for config in LanguageConfig::get_all() {
        assert_eq!(
            config.name,
            config.language.get_variant_name().to_lowercase()
        );
    }
}
