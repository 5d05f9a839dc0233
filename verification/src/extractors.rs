//! Extractors, the components that read a library of one language, and the
//! discovery of the extractor that understands a given directory.

use vstd::prelude::*;
use std::path::{Path, PathBuf};
use daipendency_extractor_rust::RustExtractor;
use tree_sitter::Language as Grammar;
use tree_sitter::Parser;
use crate::errors::{DependencyResolutionError, ExtractionError, LibraryMetadataError};
use crate::languages::{Language, LanguageConfig, LanguageConfigView, config_views, registry};
use crate::model::{LibraryMetadata, Namespace};
use crate::outside::{
    has_parent,
    path_parent,
    rust_dependency_path,
    rust_library_metadata,
    rust_parser_language,
    rust_public_api,
};

verus! {

/// The extractor of one language. The set of languages is closed, so the
/// extractor is one of a fixed list of kinds.
pub enum LanguageExtractor {
    Rust(RustExtractor),
}

/// What a successful discovery found: the language, its extractor, and the
/// metadata that the probe already read.
pub struct ExtractorDiscovery {
    pub language: Language,
    pub extractor: LanguageExtractor,
    pub library_metadata: LibraryMetadata,
}

/// Why discovery did not settle on an extractor.
#[derive(Debug, PartialEq, Eq)]
pub enum ExtractorDiscoveryError {
    /// A candidate's manifest is there and does not parse.
    MalformedManifest { language: Language, error: String },
    /// No candidate found its manifest.
    NotFound,
}

/// What the probe of one candidate means for discovery.
pub enum ProbeVerdict {
    /// The candidate's manifest is there and valid: discovery ends with it.
    Matched(ExtractorDiscovery),
    /// The candidate's manifest is there and broken: discovery fails.
    Fatal(ExtractorDiscoveryError),
    /// The candidate's manifest is absent: the next candidate is tried.
    NotThisLanguage,
}

/// What resolving a dependency gives: the directory of the dependency, or
/// the reason why there is none.
pub type Resolution = Result<PathBuf, DependencyResolutionError>;

/// Whether `resolution` can come of resolving the dependency called `name`:
/// a failure for want of such a dependency names `name` and no other.
pub open spec fn is_resolution_of(name: Seq<char>, resolution: Resolution) -> bool {
    resolution matches Err(DependencyResolutionError::MissingDependency(missing)) ==> missing@
        == name
}

/// What a probe gives: the metadata, or the reason why there is none.
pub type MetadataOutcome = Result<LibraryMetadata, LibraryMetadataError>;

/// What discovery settles on, without the extractor that it carries along.
pub type DiscoveryVerdict = Result<(Language, LibraryMetadata), ExtractorDiscoveryError>;

impl LanguageExtractor {
    /// The language that this extractor reads.
    pub open spec fn language(&self) -> Language {
        match self {
            LanguageExtractor::Rust(_) => Language::Rust,
        }
    }

    /// The language that this extractor reads.
    pub fn get_language(&self) -> (language: Language)
        ensures
            language == self.language(),
    {
        match self {
            LanguageExtractor::Rust(_) => Language::Rust,
        }
    }

    /// The grammar with which the sources of this extractor's language are
    /// parsed.
    pub fn get_parser_language(&self) -> (grammar: Grammar) {
        match self {
            LanguageExtractor::Rust(extractor) => rust_parser_language(extractor),
        }
    }

    /// Reads the metadata of the library under `path`. What comes back
    /// depends on what is on disk.
    pub fn get_library_metadata(&self, path: &Path) -> (outcome: MetadataOutcome) {
        match self {
            LanguageExtractor::Rust(extractor) => rust_library_metadata(extractor, path),
        }
    }

    /// Extracts the public API of the library that `metadata` describes.
    /// Where the entry point has no parent directory there is nowhere to
    /// look for sources, and the extraction fails with
    /// [`ExtractionError::MissingParent`]; otherwise what comes back depends
    /// on what is on disk.
    pub fn extract_public_api(&self, metadata: &LibraryMetadata, parser: &mut Parser) -> (outcome: Result<
        Vec<Namespace>,
        ExtractionError,
    >)
        ensures
            outcome matches Err(ExtractionError::MissingParent) <==> !has_parent(
                metadata.entry_point,
            ),
    {
        if path_parent(&metadata.entry_point).is_none() {
            return Err(ExtractionError::MissingParent);
        }
        match self {
            LanguageExtractor::Rust(extractor) => rust_public_api(extractor, metadata, parser),
        }
    }

    /// Finds the root directory of the dependency `dependency_name` of the
    /// library under `dependant_path`. What comes back depends on the
    /// machine; where it is that the dependant has no such dependency, the
    /// failure names the dependency that was asked for.
    pub fn resolve_dependency_path(
        &self,
        dependency_name: &str,
        dependant_path: &Path,
    ) -> (outcome: Result<PathBuf, DependencyResolutionError>)
        ensures
            is_resolution_of(dependency_name@, outcome),
    {
        match self {
            LanguageExtractor::Rust(extractor) => rust_dependency_path(
                extractor,
                dependency_name,
                dependant_path,
            ),
        }
    }
}

impl LanguageConfig {
    /// Makes the extractor of this configuration's language.
    pub fn extractor_initialiser(&self) -> (extractor: LanguageExtractor)
        ensures
            extractor.language() == self.language,
    {
        match self.language {
            Language::Rust => LanguageExtractor::Rust(RustExtractor::new()),
        }
    }
}

/// Makes the extractor of `language`.
pub fn get_extractor(language: Language) -> (extractor: LanguageExtractor)
    ensures
        extractor.language() == language,
{
    let config = LanguageConfig::get_from_language(language);
    config.extractor_initialiser()
}

/// The registered languages, in registration order: the candidates of
/// discovery.
pub open spec fn registered_languages() -> Seq<Language> {
    registry().map_values(|config: LanguageConfigView| config.language)
}

/// Whether the outcome of a probe ends discovery. Every outcome does but the
/// absence of the manifest.
pub open spec fn is_decisive(outcome: MetadataOutcome) -> bool {
    !(outcome matches Err(LibraryMetadataError::MissingManifest(_)))
}

/// What the probe of `language` means for discovery, given what it gave.
pub open spec fn classify(
    language: Language,
    extractor: LanguageExtractor,
    outcome: MetadataOutcome,
) -> ProbeVerdict {
    match outcome {
        Ok(library_metadata) => ProbeVerdict::Matched(
            ExtractorDiscovery { language, extractor, library_metadata },
        ),
        Err(LibraryMetadataError::MalformedManifest(error)) => ProbeVerdict::Fatal(
            ExtractorDiscoveryError::MalformedManifest { language, error },
        ),
        Err(LibraryMetadataError::MissingManifest(_)) => ProbeVerdict::NotThisLanguage,
    }
}

/// What discovery settles on where the probe of `language` is the last one
/// made and gave `outcome`.
pub open spec fn settle(language: Language, outcome: MetadataOutcome) -> DiscoveryVerdict {
    match outcome {
        Ok(library_metadata) => Ok((language, library_metadata)),
        Err(LibraryMetadataError::MalformedManifest(error)) => Err(
            ExtractorDiscoveryError::MalformedManifest { language, error },
        ),
        Err(LibraryMetadataError::MissingManifest(_)) => Err(ExtractorDiscoveryError::NotFound),
    }
}

/// The place of the first decisive outcome, or the number of outcomes where
/// none is decisive.
pub open spec fn first_decisive(outcomes: Seq<MetadataOutcome>) -> int
    decreases outcomes.len(),
{
    if outcomes.len() == 0 {
        0
    } else if is_decisive(outcomes.first()) {
        0
    } else {
        1 + first_decisive(outcomes.drop_first())
    }
}

/// How many of the candidates discovery probes, where the probe of candidate
/// `i` gives `outcomes[i]`: all up to and with the first decisive one.
pub open spec fn probes_made(outcomes: Seq<MetadataOutcome>) -> int {
    if first_decisive(outcomes) < outcomes.len() {
        first_decisive(outcomes) + 1
    } else {
        outcomes.len() as int
    }
}

/// What discovery settles on, where the probe of `candidates[i]` gives
/// `outcomes[i]`: the first decisive outcome decides, for the candidate that
/// gave it; where there is none, nothing is found.
pub open spec fn discovery_verdict(
    candidates: Seq<Language>,
    outcomes: Seq<MetadataOutcome>,
) -> DiscoveryVerdict
    recommends
        outcomes.len() <= candidates.len(),
{
    let first = first_decisive(outcomes);
    if first < outcomes.len() {
        settle(candidates[first], outcomes[first])
    } else {
        Err(ExtractorDiscoveryError::NotFound)
    }
}

/// Whether `probes` can be the outcomes of the probes that one run of
/// discovery over `candidates` makes: candidates are probed in order, one
/// after the other; no probe follows a decisive one; and probing goes on
/// while there are candidates and nothing is decided.
pub open spec fn is_discovery_trace(
    candidates: Seq<Language>,
    probes: Seq<MetadataOutcome>,
) -> bool {
    &&& probes.len() <= candidates.len()
    &&& probes_made(probes) == probes.len()
    &&& probes.len() < candidates.len() ==> first_decisive(probes) < probes.len()
}

/// A discovery's result without the extractor that it carries along.
pub open spec fn discovered(
    result: Result<ExtractorDiscovery, ExtractorDiscoveryError>,
) -> DiscoveryVerdict {
    match result {
        Ok(discovery) => Ok((discovery.language, discovery.library_metadata)),
        Err(error) => Err(error),
    }
}

/// Where the outcomes before place `i` are not decisive, the first decisive
/// outcome is looked for from `i` on.
pub proof fn lemma_first_decisive_skips(outcomes: Seq<MetadataOutcome>, i: int)
    requires
        0 <= i <= outcomes.len(),
        forall|j: int| 0 <= j < i ==> !is_decisive(#[trigger] outcomes[j]),
    ensures
        first_decisive(outcomes) == i + first_decisive(outcomes.skip(i)),
    decreases i,
{
    if i == 0 {
        assert(outcomes.skip(0) =~= outcomes);
    } else {
        let rest = outcomes.drop_first();
        assert forall|j: int| 0 <= j < i - 1 implies !is_decisive(#[trigger] rest[j]) by {
            assert(rest[j] == outcomes[j + 1]);
        }
        lemma_first_decisive_skips(rest, i - 1);
        assert(rest.skip(i - 1) =~= outcomes.skip(i));
    }
}

/// The first decisive outcome is decisive, no outcome before it is, and it
/// lies within the outcomes or right behind them.
pub proof fn lemma_first_decisive_is_first(outcomes: Seq<MetadataOutcome>)
    ensures
        0 <= first_decisive(outcomes) <= outcomes.len(),
        first_decisive(outcomes) < outcomes.len() ==> is_decisive(
            outcomes[first_decisive(outcomes)],
        ),
        forall|j: int| 0 <= j < first_decisive(outcomes) ==> !is_decisive(#[trigger] outcomes[j]),
    decreases outcomes.len(),
{
    if outcomes.len() > 0 && !is_decisive(outcomes.first()) {
        let rest = outcomes.drop_first();
        lemma_first_decisive_is_first(rest);
        assert forall|j: int| 0 <= j < first_decisive(outcomes) implies !is_decisive(
            #[trigger] outcomes[j],
        ) by {
            if j > 0 {
                assert(outcomes[j] == rest[j - 1]);
            }
        }
    }
}

/// The first valid manifest wins. Where the candidates before `i` have no
/// manifest and candidate `i` has a valid one, discovery settles on
/// candidate `i` and its metadata, probes no candidate behind it, and what
/// those would have given does not matter.
pub proof fn lemma_first_match_wins(
    candidates: Seq<Language>,
    outcomes: Seq<MetadataOutcome>,
    i: int,
)
    requires
        0 <= i < outcomes.len() <= candidates.len(),
        forall|j: int| 0 <= j < i ==> !is_decisive(#[trigger] outcomes[j]),
        outcomes[i] is Ok,
    ensures
        discovery_verdict(candidates, outcomes) == Ok::<
            (Language, LibraryMetadata),
            ExtractorDiscoveryError,
        >((candidates[i], outcomes[i]->Ok_0)),
        probes_made(outcomes) == i + 1,
{
    lemma_first_decisive_skips(outcomes, i);
}

/// A broken manifest is fatal. Where the candidates before `i` have no
/// manifest and candidate `i` has one that does not parse, discovery fails
/// and names candidate `i` and the fault, whatever the candidates behind it
/// would have given: they are not probed.
pub proof fn lemma_malformed_manifest_is_fatal(
    candidates: Seq<Language>,
    outcomes: Seq<MetadataOutcome>,
    i: int,
)
    requires
        0 <= i < outcomes.len() <= candidates.len(),
        forall|j: int| 0 <= j < i ==> !is_decisive(#[trigger] outcomes[j]),
        outcomes[i] matches Err(LibraryMetadataError::MalformedManifest(_)),
    ensures
        discovery_verdict(candidates, outcomes) matches Err(
            ExtractorDiscoveryError::MalformedManifest { language, error },
        ) && language == candidates[i] && outcomes[i] == Err::<
            LibraryMetadata,
            LibraryMetadataError,
        >(LibraryMetadataError::MalformedManifest(error)),
        probes_made(outcomes) == i + 1,
{
    lemma_first_decisive_skips(outcomes, i);
}

/// Where no candidate has a manifest, nothing is found, and every candidate
/// was probed.
pub proof fn lemma_no_manifest_finds_nothing(
    candidates: Seq<Language>,
    outcomes: Seq<MetadataOutcome>,
)
    requires
        outcomes.len() <= candidates.len(),
        forall|j: int| 0 <= j < outcomes.len() ==> !is_decisive(#[trigger] outcomes[j]),
    ensures
        discovery_verdict(candidates, outcomes) == Err::<
            (Language, LibraryMetadata),
            ExtractorDiscoveryError,
        >(ExtractorDiscoveryError::NotFound),
        probes_made(outcomes) == outcomes.len(),
{
    lemma_first_decisive_skips(outcomes, outcomes.len() as int);
}

/// Discovery never settles on a language whose manifest did not parse, nor
/// on one whose manifest is absent: a match is a candidate with valid
/// metadata, the first such, and every candidate before it has no manifest.
pub proof fn lemma_match_has_valid_manifest(
    candidates: Seq<Language>,
    outcomes: Seq<MetadataOutcome>,
)
    requires
        outcomes.len() <= candidates.len(),
        discovery_verdict(candidates, outcomes) is Ok,
    ensures
        ({
            let first = first_decisive(outcomes);
            &&& 0 <= first < outcomes.len()
            &&& discovery_verdict(candidates, outcomes)->Ok_0.0 == candidates[first]
            &&& outcomes[first] == Ok::<LibraryMetadata, LibraryMetadataError>(
                discovery_verdict(candidates, outcomes)->Ok_0.1,
            )
            &&& forall|j: int|
                0 <= j < first ==> #[trigger] outcomes[j] matches Err(
                    LibraryMetadataError::MissingManifest(_),
                )
        }),
{
    lemma_first_decisive_is_first(outcomes);
}

/// What the candidates behind the last probe would give does not matter:
/// outcomes that agree on the probes that are made give the same verdict.
pub proof fn lemma_unprobed_candidates_do_not_matter(
    candidates: Seq<Language>,
    a: Seq<MetadataOutcome>,
    b: Seq<MetadataOutcome>,
)
    requires
        probes_made(a) <= b.len(),
        first_decisive(a) < a.len() || a.len() == b.len(),
        forall|j: int| 0 <= j < probes_made(a) ==> a[j] == b[j],
    ensures
        probes_made(b) == probes_made(a),
        discovery_verdict(candidates, a) == discovery_verdict(candidates, b),
{
    lemma_first_decisive_is_first(a);
    let first = first_decisive(a);
    // The outcomes before the first decisive one of `a` are the same in `b`,
    // so that the first decisive outcome of `b` is found at the same place.
    assert forall|j: int| 0 <= j < first implies !is_decisive(#[trigger] b[j]) by {
        assert(a[j] == b[j]);
    }
    lemma_first_decisive_skips(b, first);
}

/// The probes that discovery makes, where candidate `i` would give
/// `outcomes[i]`, are a trace of discovery.
pub proof fn lemma_probes_made_are_a_trace(
    candidates: Seq<Language>,
    outcomes: Seq<MetadataOutcome>,
)
    requires
        outcomes.len() == candidates.len(),
    ensures
        is_discovery_trace(candidates, outcomes.take(probes_made(outcomes))),
        discovery_verdict(candidates, outcomes.take(probes_made(outcomes))) == discovery_verdict(
            candidates,
            outcomes,
        ),
{
    lemma_first_decisive_is_first(outcomes);
    let made = probes_made(outcomes);
    let probes = outcomes.take(made);
    lemma_unprobed_candidates_do_not_matter(candidates, outcomes, probes);
}

/// Says what the probe of one candidate means for discovery: a valid
/// manifest is a match, a broken one is fatal and names the candidate, an
/// absent one passes the turn to the next candidate.
pub fn classify_probe(
    language: Language,
    extractor: LanguageExtractor,
    outcome: MetadataOutcome,
) -> (verdict: ProbeVerdict)
    ensures
        verdict == classify(language, extractor, outcome),
{
    match outcome {
        Ok(library_metadata) => ProbeVerdict::Matched(
            ExtractorDiscovery { language, extractor, library_metadata },
        ),
        Err(LibraryMetadataError::MalformedManifest(error)) => ProbeVerdict::Fatal(
            ExtractorDiscoveryError::MalformedManifest { language, error },
        ),
        Err(LibraryMetadataError::MissingManifest(_)) => ProbeVerdict::NotThisLanguage,
    }
}

/// Finds the extractor that understands the library under `path`. The
/// registered languages are probed in registration order, each by asking its
/// extractor for the metadata of the library, until a probe is decisive.
///
/// What the probes give depends on what is on disk. Whatever they give, the
/// result is the verdict on them: some outcomes `probes` are a trace of
/// discovery over the registered languages, and the result is what
/// [`discovery_verdict`] makes of them, with the extractor of the language
/// that matched.
pub fn discover_extractor(path: &Path) -> (result: Result<
    ExtractorDiscovery,
    ExtractorDiscoveryError,
>)
    ensures
        exists|probes: Seq<MetadataOutcome>| #[trigger]
            is_discovery_trace(registered_languages(), probes) && discovered(result)
                == discovery_verdict(registered_languages(), probes),
        result matches Ok(discovery) ==> discovery.extractor.language() == discovery.language,
{
    let configs = LanguageConfig::get_all();
    let ghost candidates = registered_languages();
    let ghost mut probes: Seq<MetadataOutcome> = Seq::empty();
    let mut i: usize = 0;
    while i < configs.len()
        invariant
            i <= configs.len(),
            config_views(configs@) == registry(),
            candidates == registered_languages(),
            probes.len() == i,
            forall|j: int| 0 <= j < i ==> !is_decisive(#[trigger] probes[j]),
        decreases configs.len() - i,
    {
        let language = configs[i].language;
        assert(candidates[i as int] == language);
        let extractor = get_extractor(language);
        let outcome = extractor.get_library_metadata(path);
        proof {
            probes = probes.push(outcome);
        }
        match classify_probe(language, extractor, outcome) {
            ProbeVerdict::Matched(discovery) => {
                proof {
                    lemma_first_decisive_skips(probes, i as int);
                    assert(is_discovery_trace(candidates, probes));
                }
                return Ok(discovery);
            },
            ProbeVerdict::Fatal(error) => {
                proof {
                    lemma_first_decisive_skips(probes, i as int);
                    assert(is_discovery_trace(candidates, probes));
                }
                return Err(error);
            },
            ProbeVerdict::NotThisLanguage => {},
        }
        i = i + 1;
    }
    proof {
        lemma_first_decisive_skips(probes, i as int);
        assert(is_discovery_trace(candidates, probes));
    }
    Err(ExtractorDiscoveryError::NotFound)
}

} // verus!
