//! What the library takes on trust from the code around it: the types of the
//! standard library and of the extractor crates that pass through it, and one
//! small function around each call into them. Nothing here is proved; every
//! contract below says what the called code is relied on to do.

use vstd::prelude::*;
use std::path::{Path, PathBuf};
use daipendency_extractor::DependencyResolutionError as OutsideResolutionError;
use daipendency_extractor::ExtractionError as OutsideExtractionError;
use daipendency_extractor::Extractor;
use daipendency_extractor::LibraryMetadata as OutsideMetadata;
use daipendency_extractor::LibraryMetadataError as OutsideMetadataError;
use daipendency_extractor_rust::RustExtractor;
use tree_sitter::Language as Grammar;
use tree_sitter::Parser;
use crate::errors::{DependencyResolutionError, ExtractionError, LibraryMetadataError};
use crate::model::{LibraryMetadata, Namespace, Symbol};

verus! {

/// `std::path::Path`, a borrowed file-system path. Nothing of its contents
/// is visible here.
#[verifier::external_type_specification]
#[verifier::external_body]
pub struct ExPath(Path);

/// `std::path::PathBuf`, an owned file-system path. Nothing of its contents
/// is visible here.
#[verifier::external_type_specification]
#[verifier::external_body]
pub struct ExPathBuf(PathBuf);

/// `daipendency_extractor_rust::RustExtractor`, the extractor for Rust
/// crates.
#[verifier::external_type_specification]
#[verifier::external_body]
pub struct ExRustExtractor(RustExtractor);

/// `tree_sitter::Language`, the grammar of a language that tree-sitter
/// parses. It goes by the name `Grammar` here, apart from the languages that
/// this library documents.
#[verifier::external_type_specification]
#[verifier::external_body]
pub struct ExGrammar(Grammar);

/// `tree_sitter::Parser`, a parser that is set to one grammar.
#[verifier::external_type_specification]
#[verifier::external_body]
pub struct ExParser(Parser);

/// The parent of `path`: the path without its final component, where it has
/// one. A root, a prefix and the empty path have none.
pub uninterp spec fn parent_of(path: PathBuf) -> Option<PathBuf>;

/// Whether `path` has a parent.
pub open spec fn has_parent(path: PathBuf) -> bool {
    parent_of(path) is Some
}

/// `PathBuf::as_path`: the same path, borrowed. Nothing is claimed of it.
pub assume_specification[ PathBuf::as_path ](path: &PathBuf) -> (borrowed: &Path)
;

/// `RustExtractor::new`, which makes the one value of its type. Nothing is
/// claimed of it.
pub assume_specification[ RustExtractor::new ]() -> (extractor: RustExtractor)
;

/// `Path::parent` on an owned path, with the parent as an owned path too.
/// Trusted: the result is the one named [`parent_of`].
#[verifier::external_body]
pub(crate) fn path_parent(path: &PathBuf) -> (parent: Option<PathBuf>)
    ensures
        parent == parent_of(*path),
{
    path.parent().map(Path::to_path_buf)
}

/// `Extractor::get_parser_language` of the Rust extractor: the grammar of
/// Rust. Nothing is claimed of it.
#[verifier::external_body]
pub(crate) fn rust_parser_language(extractor: &RustExtractor) -> (grammar: Grammar) {
    extractor.get_parser_language()
}

/// `daipendency_extractor::get_parser`: a parser set to `grammar`, or the
/// message of the error where the grammar's version does not fit the parser.
/// Nothing is claimed of which it is.
#[verifier::external_body]
pub(crate) fn new_parser(grammar: &Grammar) -> (parser: Result<Parser, String>) {
    match daipendency_extractor::get_parser(grammar) {
        Ok(parser) => Ok(parser),
        Err(error) => Err(error.to_string()),
    }
}

/// `Extractor::get_library_metadata` of the Rust extractor, which reads the
/// manifest and the read-me file under `path`. The result depends on what is
/// on disk, so nothing is claimed of it; an error of the operating system is
/// kept as its message.
#[verifier::external_body]
pub(crate) fn rust_library_metadata(extractor: &RustExtractor, path: &Path) -> (outcome: Result<
    LibraryMetadata,
    LibraryMetadataError,
>) {
    match extractor.get_library_metadata(path) {
        Ok(OutsideMetadata { name, version, documentation, entry_point }) => Ok(
            LibraryMetadata { name, version, documentation, entry_point },
        ),
        Err(OutsideMetadataError::MissingManifest(e)) => Err(
            LibraryMetadataError::MissingManifest(e.to_string()),
        ),
        Err(OutsideMetadataError::MalformedManifest(e)) => Err(
            LibraryMetadataError::MalformedManifest(e),
        ),
    }
}

/// `Extractor::extract_public_api` of the Rust extractor, which reads the
/// source files reached from the entry point and reports the namespaces it
/// finds, each as a value of this library. The result depends on what is on
/// disk, so nothing is claimed of it but this: the extractor's error is of
/// one of two kinds, unreadable and malformed, and each is handed on as the
/// kind of the same name. The extractor takes the parent of the entry point
/// for the directory of the sources and panics where there is none: callers
/// must rule that out.
#[verifier::external_body]
pub(crate) fn rust_public_api(
    extractor: &RustExtractor,
    metadata: &LibraryMetadata,
    parser: &mut Parser,
) -> (outcome: Result<Vec<Namespace>, ExtractionError>)
    requires
        has_parent(metadata.entry_point),
    ensures
        !(outcome matches Err(ExtractionError::MissingParent)),
{
    let outside = OutsideMetadata {
        name: metadata.name.clone(),
        version: metadata.version.clone(),
        documentation: metadata.documentation.clone(),
        entry_point: metadata.entry_point.clone(),
    };
    match extractor.extract_public_api(&outside, parser) {
        Ok(found) => Ok(found.into_iter().map(|n| Namespace {
            name: n.name,
            symbols: n.symbols.into_iter().map(|s| Symbol { name: s.name, source_code: s.source_code }).collect(),
            doc_comment: n.doc_comment,
        }).collect()),
        Err(OutsideExtractionError::Io(e)) => Err(ExtractionError::Io(e.to_string())),
        Err(OutsideExtractionError::Malformed(e)) => Err(ExtractionError::Malformed(e)),
    }
}

/// `Extractor::resolve_dependency_path` of the Rust extractor, which runs
/// the package manager for the dependant's package graph, looks the
/// dependency up in it and takes the directory of its manifest. The result
/// depends on the machine. One thing holds of it whatever the machine: where
/// the package graph has no package of the name asked for, the error carries
/// that name.
#[verifier::external_body]
pub(crate) fn rust_dependency_path(
    extractor: &RustExtractor,
    dependency_name: &str,
    dependant_path: &Path,
) -> (outcome: Result<PathBuf, DependencyResolutionError>)
    ensures
        outcome matches Err(DependencyResolutionError::MissingDependency(missing)) ==> missing@
            == dependency_name@,
{
    match extractor.resolve_dependency_path(dependency_name, dependant_path) {
        Ok(path) => Ok(path),
        Err(OutsideResolutionError::RetrievalFailure(e)) => Err(
            DependencyResolutionError::RetrievalFailure(e),
        ),
        Err(OutsideResolutionError::MissingDependency(e)) => Err(
            DependencyResolutionError::MissingDependency(e),
        ),
    }
}

} // verus!
