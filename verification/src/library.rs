//! A library as it is documented, and the loading of one: metadata, parser,
//! public API, in that order, through the extractor of its language.

use vstd::prelude::*;
use std::path::{Path, PathBuf};
use crate::errors::{DependencyResolutionError, ExtractionError, LibraryError};
use crate::extractors::{
    DiscoveryVerdict,
    LanguageExtractor,
    MetadataOutcome,
    Resolution,
    discover_extractor,
    discovery_verdict,
    get_extractor,
    is_discovery_trace,
    is_resolution_of,
    registered_languages,
};
use crate::languages::Language;
use crate::model::{LibraryMetadata, Namespace, NamespaceView, namespace_views, optional_text};
use crate::outside::{has_parent, new_parser};

verus! {

/// A library that was loaded: what its manifest says of it and the public API
/// that its extractor found.
#[derive(Debug, PartialEq, Eq)]
pub struct Library {
    pub name: String,
    pub version: Option<String>,
    pub documentation: String,
    pub namespaces: Vec<Namespace>,
    pub language: Language,
}

/// A [`Library`] as sequences.
pub struct LibraryView {
    pub name: Seq<char>,
    pub version: Option<Seq<char>>,
    pub documentation: Seq<char>,
    pub namespaces: Seq<NamespaceView>,
    pub language: Language,
}

impl View for Library {
    type V = LibraryView;

    open spec fn view(&self) -> LibraryView {
        LibraryView {
            name: self.name@,
            version: optional_text(self.version),
            documentation: self.documentation@,
            namespaces: namespace_views(self.namespaces@),
            language: self.language,
        }
    }
}

/// What loading a library gives.
pub type Loaded = Result<Library, LibraryError>;

/// The library that metadata and an extraction make, or the extraction's
/// failure as a failure to load.
pub open spec fn assembled(
    metadata: LibraryMetadata,
    extraction: Result<Vec<Namespace>, ExtractionError>,
    language: Language,
) -> Loaded {
    match extraction {
        Ok(namespaces) => Ok(
            Library {
                name: metadata.name,
                version: metadata.version,
                documentation: metadata.documentation,
                namespaces,
                language,
            },
        ),
        Err(error) => Err(LibraryError::Extraction(error)),
    }
}

/// Whether `result` can come of extracting the library that `metadata`
/// describes with the extractor of `language`: a library with the metadata's
/// name, version and documentation and that language, or the failure of the
/// parser or of the extraction. An entry point without a parent directory
/// fails the extraction, and nothing else fails it in that way.
pub open spec fn follows_metadata(
    metadata: LibraryMetadata,
    language: Language,
    result: Loaded,
) -> bool {
    match result {
        Ok(library) => {
            &&& library.name == metadata.name
            &&& library.version == metadata.version
            &&& library.documentation == metadata.documentation
            &&& library.language == language
            &&& has_parent(metadata.entry_point)
        },
        Err(LibraryError::Parser(_)) => true,
        Err(LibraryError::Extraction(error)) => error is MissingParent <==> !has_parent(
            metadata.entry_point,
        ),
        Err(_) => false,
    }
}

/// Whether `result` can come of loading with the language `chosen`, where
/// the chosen extractor's probe gave `outcome`: a failed probe is the
/// failure, with no other language tried.
pub open spec fn follows_probe(chosen: Language, outcome: MetadataOutcome, result: Loaded) -> bool {
    match outcome {
        Ok(metadata) => follows_metadata(metadata, chosen, result),
        Err(error) => result == Err::<Library, LibraryError>(LibraryError::Metadata(error)),
    }
}

/// Whether `result` can come of loading without a chosen language, where
/// discovery settled on `verdict`: a failed discovery is the failure, as it
/// is.
pub open spec fn follows_discovery(verdict: DiscoveryVerdict, result: Loaded) -> bool {
    match verdict {
        Ok((language, metadata)) => follows_metadata(metadata, language, result),
        Err(error) => result == Err::<Library, LibraryError>(LibraryError::Discovery(error)),
    }
}

/// Whether `result` can come of [`Library::load`] with `language`. With a
/// language, the result follows the probe of that language's extractor;
/// without, it follows a discovery over the registered languages.
pub open spec fn is_load_outcome(language: Option<Language>, result: Loaded) -> bool {
    match language {
        Some(chosen) => exists|outcome: MetadataOutcome| #[trigger]
            follows_probe(chosen, outcome, result),
        None => exists|probes: Seq<MetadataOutcome>| #[trigger]
            is_discovery_trace(registered_languages(), probes) && follows_discovery(
                discovery_verdict(registered_languages(), probes),
                result,
            ),
    }
}

/// Whether `result` can come of loading a dependency in `language`, where
/// the extractor resolved its name to `resolution`: a failed resolution is
/// the failure; a path is loaded as any library is, with the language fixed.
pub open spec fn follows_resolution(
    resolution: Resolution,
    language: Language,
    result: Loaded,
) -> bool {
    match resolution {
        Ok(_) => is_load_outcome(Some(language), result),
        Err(error) => result == Err::<Library, LibraryError>(
            LibraryError::DependencyResolution(error),
        ),
    }
}

/// Whether `result` can come of [`Library::load_dependency`] for the
/// dependency called `name`, with `language`. The language is the chosen one
/// or the one that discovery over the dependant settles on; the name is then
/// resolved by that language's extractor, and what it resolves to is loaded
/// in that language.
pub open spec fn is_dependency_outcome(
    name: Seq<char>,
    language: Option<Language>,
    result: Loaded,
) -> bool {
    match language {
        Some(chosen) => exists|resolution: Resolution|
            is_resolution_of(name, resolution) && #[trigger] follows_resolution(
                resolution,
                chosen,
                result,
            ),
        None => exists|probes: Seq<MetadataOutcome>| #[trigger]
            is_discovery_trace(registered_languages(), probes) && match discovery_verdict(
                registered_languages(),
                probes,
            ) {
                Ok((found, _)) => exists|resolution: Resolution|
                    is_resolution_of(name, resolution) && #[trigger] follows_resolution(
                        resolution,
                        found,
                        result,
                    ),
                Err(error) => result == Err::<Library, LibraryError>(
                    LibraryError::Discovery(error),
                ),
            },
    }
}

/// A library that was loaded with a chosen language has that language, and
/// a failure to load it is never one of discovery: the chosen language is
/// the only one tried.
pub proof fn lemma_chosen_language_is_kept(chosen: Language, result: Loaded)
    requires
        is_load_outcome(Some(chosen), result),
    ensures
        result matches Ok(library) ==> library.language == chosen,
        !(result matches Err(LibraryError::Discovery(_))),
        !(result matches Err(LibraryError::UnsupportedLanguage(_))),
        !(result matches Err(LibraryError::DependencyResolution(_))),
{
}

/// Loading without a chosen language never fails for want of a manifest of
/// one language alone: what fails then is discovery, the parser or the
/// extraction.
pub proof fn lemma_discovered_language_fails_as_discovery(result: Loaded)
    requires
        is_load_outcome(None, result),
    ensures
        !(result matches Err(LibraryError::Metadata(_))),
        !(result matches Err(LibraryError::UnsupportedLanguage(_))),
        !(result matches Err(LibraryError::DependencyResolution(_))),
{
}

/// Loading a dependency is loading the directory that its name resolves to,
/// with the language fixed, and nothing besides: whatever the resolved
/// directory is, what comes of it is what [`Library::load`] on a directory
/// can give for that language, and a dependency is never loaded in another
/// language than its dependant's.
pub proof fn lemma_dependency_is_loaded_as_a_library(
    resolved: PathBuf,
    language: Language,
    result: Loaded,
)
    requires
        follows_resolution(Ok(resolved), language, result),
    ensures
        is_load_outcome(Some(language), result),
        result matches Ok(library) ==> library.language == language,
        !(result matches Err(LibraryError::DependencyResolution(_))),
{
    lemma_chosen_language_is_kept(language, result);
}

/// A dependency that is reported missing is the one that was asked for:
/// where loading the dependency called `name` fails for want of a
/// dependency, the failure names `name`.
pub proof fn lemma_missing_dependency_is_named(
    name: Seq<char>,
    language: Option<Language>,
    result: Loaded,
)
    requires
        is_dependency_outcome(name, language, result),
    ensures
        result matches Err(
            LibraryError::DependencyResolution(DependencyResolutionError::MissingDependency(missing)),
        ) ==> missing@ == name,
{
}

impl Library {
    /// Makes the library of `metadata` and of what the extraction gave: the
    /// namespaces in the extractor's order, or the extraction's failure
    /// wrapped as a failure to load.
    pub fn assemble(
        metadata: LibraryMetadata,
        extraction: Result<Vec<Namespace>, ExtractionError>,
        language: Language,
    ) -> (result: Loaded)
        ensures
            result == assembled(metadata, extraction, language),
    {
        match extraction {
            Ok(namespaces) => Ok(
                Library {
                    name: metadata.name,
                    version: metadata.version,
                    documentation: metadata.documentation,
                    namespaces,
                    language,
                },
            ),
            Err(error) => Err(LibraryError::Extraction(error)),
        }
    }

    /// Extracts the public API of the library that `metadata` describes:
    /// makes a parser for the extractor's grammar, runs the extraction and
    /// assembles the library.
    pub fn extract(extractor: &LanguageExtractor, metadata: LibraryMetadata) -> (result: Loaded)
        ensures
            follows_metadata(metadata, extractor.language(), result),
    {
        let language = extractor.get_language();
        let grammar = extractor.get_parser_language();
        let mut parser = match new_parser(&grammar) {
            Ok(parser) => parser,
            Err(message) => {
                return Err(LibraryError::Parser(message));
            },
        };
        let extraction = extractor.extract_public_api(&metadata, &mut parser);
        Library::assemble(metadata, extraction, language)
    }

    /// Loads the library under `path`.
    ///
    /// With a language, that language's extractor reads the metadata, and
    /// its failure is the failure of the load. Without one, the language is
    /// discovered, and the failure of discovery is handed on as it is. The
    /// public API is then extracted with the extractor in hand.
    pub fn load(path: &Path, language: Option<Language>) -> (result: Loaded)
        ensures
            is_load_outcome(language, result),
    {
        match language {
            Some(chosen) => {
                let extractor = get_extractor(chosen);
                let outcome = extractor.get_library_metadata(path);
                let ghost probe = outcome;
                let result = match outcome {
                    Ok(metadata) => Library::extract(&extractor, metadata),
                    Err(error) => Err(LibraryError::Metadata(error)),
                };
                assert(follows_probe(chosen, probe, result));
                result
            },
            None => match discover_extractor(path) {
                Ok(found) => Library::extract(&found.extractor, found.library_metadata),
                Err(error) => Err(LibraryError::Discovery(error)),
            },
        }
    }

    /// Loads the library in the directory that a dependency's name was
    /// resolved to, in the dependant's language, or hands the failure of the
    /// resolution on.
    pub fn load_resolved(resolution: Resolution, language: Language) -> (result: Loaded)
        ensures
            follows_resolution(resolution, language, result),
    {
        match resolution {
            Ok(dependency_path) => Library::load(dependency_path.as_path(), Some(language)),
            Err(error) => Err(LibraryError::DependencyResolution(error)),
        }
    }

    /// Loads the dependency `name` of the library under `dependant_path`.
    ///
    /// The language is the given one, or the one discovered for the
    /// dependant. Its extractor resolves the name to a directory, and that
    /// directory is loaded in the same language.
    pub fn load_dependency(
        name: &str,
        dependant_path: &Path,
        language: Option<Language>,
    ) -> (result: Loaded)
        ensures
            is_dependency_outcome(name@, language, result),
    {
        let (extractor, language) = match language {
            Some(chosen) => (get_extractor(chosen), chosen),
            None => match discover_extractor(dependant_path) {
                Ok(found) => (found.extractor, found.language),
                Err(error) => {
                    return Err(LibraryError::Discovery(error));
                },
            },
        };
        let resolution = extractor.resolve_dependency_path(name, dependant_path);
        Library::load_resolved(resolution, language)
    }
}

} // verus!
