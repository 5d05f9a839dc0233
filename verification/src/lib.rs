//! Documentation of a library's public API, for any language that has an
//! extractor: the library is located, its metadata and public API are read
//! through the extractor, and the whole is rendered as one markdown document.

pub mod analysers;
pub mod dependencies;
pub mod errors;
pub mod extractors;
pub mod formatting;
pub mod languages;
pub mod library;
pub mod model;
pub mod outside;
pub mod text;

pub use dependencies::get_dependency;
pub use errors::LibraryError;
pub use formatting::format_library_context;
pub use languages::Language;
pub use library::Library;
use formatting::library_context;
use library::{Loaded, is_load_outcome};
use std::path::Path;
use vstd::prelude::*;

verus! {

/// Whether `result` is the documentation that comes of `loaded`: the
/// document of the library that was loaded, or the failure to load it.
pub open spec fn documents(loaded: Loaded, result: Result<String, LibraryError>) -> bool {
    match loaded {
        Ok(library) => result matches Ok(text) && text@ == library_context(library@),
        Err(error) => result == Err::<String, LibraryError>(error),
    }
}

/// Generates the documentation of the API of the library under `path`.
///
/// With a language, the library is read as one of that language; without,
/// the language is discovered from what the directory holds. The result is
/// the document of the library that [`Library::load`] gave, or its failure.
pub fn generate_documentation(path: &Path, language: Option<Language>) -> (result: Result<
    String,
    LibraryError,
>)
    ensures
        exists|loaded: Loaded| #[trigger]
            is_load_outcome(language, loaded) && documents(loaded, result),
{
    match Library::load(path, language) {
        Ok(library) => Ok(format_library_context(&library)),
        Err(error) => Err(error),
    }
}

} // verus!
