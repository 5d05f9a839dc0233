//! Extractors by the name of their language.

use vstd::prelude::*;
use std::str::FromStr;
use crate::errors::LibraryError;
use crate::extractors::{LanguageExtractor, get_extractor};
use crate::languages::{Language, language_named};

verus! {

/// Makes the extractor of the language called `language`. A name that no
/// registered language has is refused, and the error carries the name; the
/// name alone decides, and nothing is read to decide it.
pub fn get_analyser(language: &str) -> (result: Result<LanguageExtractor, LibraryError>)
    ensures
        match language_named(language@) {
            Some(named) => result matches Ok(extractor) && extractor.language() == named,
            None => result matches Err(LibraryError::UnsupportedLanguage(name)) && name@
                == language@,
        },
{
    match Language::from_str(language) {
        Ok(named) => Ok(get_extractor(named)),
        Err(error) => Err(error),
    }
}

} // verus!
