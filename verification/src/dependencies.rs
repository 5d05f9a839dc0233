//! The dependencies of a Rust crate, as libraries of their own.

use vstd::prelude::*;
use std::path::PathBuf;
use crate::errors::LibraryError;
use crate::extractors::{Resolution, get_extractor, is_resolution_of};
use crate::languages::Language;
use crate::library::{Library, Loaded, follows_resolution, is_dependency_outcome};

verus! {

/// What [`get_dependency_path`] makes of a resolution: the directory as it
/// is, or the failure of the resolution as a failure of the library.
pub open spec fn path_or_failure(resolution: Resolution) -> Result<PathBuf, LibraryError> {
    match resolution {
        Ok(dependency_path) => Ok(dependency_path),
        Err(error) => Err(LibraryError::DependencyResolution(error)),
    }
}

/// Finds the root directory of the dependency `name` of the Rust crate under
/// `dependant_path`. What is found depends on the machine: the result is
/// what the Rust extractor resolved `name` to, and a failure to resolve it
/// is handed on as the failure of the library that wraps it.
pub fn get_dependency_path(name: &str, dependant_path: &PathBuf) -> (result: Result<
    PathBuf,
    LibraryError,
>)
    ensures
        exists|resolution: Resolution| #[trigger]
            is_resolution_of(name@, resolution) && result == path_or_failure(resolution),
{
    let extractor = get_extractor(Language::Rust);
    match extractor.resolve_dependency_path(name, dependant_path.as_path()) {
        Ok(dependency_path) => Ok(dependency_path),
        Err(error) => Err(LibraryError::DependencyResolution(error)),
    }
}

/// Loads the dependency `name` of the Rust crate under `dependant_path`: the
/// name is resolved to a directory, and the directory is loaded as a Rust
/// library.
pub fn get_dependency(name: &str, dependant_path: &PathBuf) -> (result: Loaded)
    ensures
        is_dependency_outcome(name@, Some(Language::Rust), result),
{
    let found = get_dependency_path(name, dependant_path);
    let ghost resolution = choose|resolution: Resolution| #[trigger]
        is_resolution_of(name@, resolution) && found == path_or_failure(resolution);
    let result = match found {
        Ok(dependency_path) => Library::load(dependency_path.as_path(), Some(Language::Rust)),
        Err(error) => Err(error),
    };
    assert(follows_resolution(resolution, Language::Rust, result));
    result
}

} // verus!
