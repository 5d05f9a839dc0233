use daipendency::analysers::get_analyser;
use daipendency::errors::LibraryError;
use daipendency::languages::Language;
use daipendency_extractor::Extractor;
use daipendency_extractor_rust::RustExtractor;

#[test]
fn get_analyser_rust() {
    let analyser = match get_analyser("rust") {
        Ok(analyser) => analyser,
        Err(error) => panic!("no analyser for rust: {error:?}"),
    };
    assert_eq!(
        format!("{:?}", analyser.get_parser_language()),
        format!("{:?}", RustExtractor::new().get_parser_language())
    );
}

#[test]
fn get_analyser_unsupported() {
    let result = get_analyser("unsupported");
    assert!(matches!(result, Err(LibraryError::UnsupportedLanguage(_))));
}

#[test]
fn analyser_reads_the_language_it_was_asked_for() {
    match get_analyser("rust") {
        Ok(analyser) => assert_eq!(analyser.get_language(), Language::Rust),
        Err(error) => panic!("no analyser for rust: {error:?}"),
    }
}

#[test]
fn unsupported_analyser_error_carries_the_name() {
    match get_analyser("cobol") {
        Ok(_) => panic!("an analyser was made for an unregistered language"),
        Err(error) => {
            assert_eq!(error, LibraryError::UnsupportedLanguage("cobol".to_string()));
            assert_eq!(error.message(), "Unknown language 'cobol'");
        }
    }
}
