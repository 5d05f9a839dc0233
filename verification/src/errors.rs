//! What can go wrong while a library is located, loaded and documented.

use vstd::prelude::*;
use vstd::string::StringExecFns;
use crate::extractors::ExtractorDiscoveryError;

verus! {

/// Why an extractor could not give the metadata of a library.
#[derive(Debug, PartialEq, Eq)]
pub enum LibraryMetadataError {
    /// The manifest of the extractor's language is absent; the text is what
    /// the operating system said when the file was opened.
    MissingManifest(String),
    /// The manifest is there and does not parse; the text names the fault.
    MalformedManifest(String),
}

/// Why an extractor could not build the public API of a library.
#[derive(Debug, PartialEq, Eq)]
pub enum ExtractionError {
    /// A source file could not be read.
    Io(String),
    /// A source file does not have the shape the extractor understands.
    Malformed(String),
    /// The entry point of the library has no parent directory to search for
    /// its modules.
    MissingParent,
}

/// Why a dependency's name could not be turned into a path.
#[derive(Debug, PartialEq, Eq)]
pub enum DependencyResolutionError {
    /// The dependant's package graph could not be read.
    RetrievalFailure(String),
    /// The dependant has no dependency of that name.
    MissingDependency(String),
}

/// Why a library could not be loaded.
#[derive(Debug, PartialEq, Eq)]
pub enum LibraryError {
    /// A language was asked for by a name that no registered language has.
    UnsupportedLanguage(String),
    /// The extractor of the language that the caller chose found no usable
    /// manifest.
    Metadata(LibraryMetadataError),
    /// No language was chosen and discovery did not settle on one.
    Discovery(ExtractorDiscoveryError),
    /// No parser could be made for the extractor's grammar.
    Parser(String),
    /// The metadata was read and the public API could not be built from it.
    Extraction(ExtractionError),
    /// The dependency could not be located.
    DependencyResolution(DependencyResolutionError),
}

impl LibraryMetadataError {
    /// The message of this error: the text that it carries.
    pub open spec fn message_text(&self) -> Seq<char> {
        match self {
            LibraryMetadataError::MissingManifest(reason) => reason@,
            LibraryMetadataError::MalformedManifest(reason) => reason@,
        }
    }

    /// The message of this error, for a reader.
    pub fn message(&self) -> (text: String)
        ensures
            text@ == self.message_text(),
    {
        match self {
            LibraryMetadataError::MissingManifest(reason) => reason.clone(),
            LibraryMetadataError::MalformedManifest(reason) => reason.clone(),
        }
    }
}

impl ExtractionError {
    /// The message of this error: the text that it carries, or a sentence
    /// about the entry point.
    pub open spec fn message_text(&self) -> Seq<char> {
        match self {
            ExtractionError::Io(reason) => reason@,
            ExtractionError::Malformed(reason) => reason@,
            ExtractionError::MissingParent => "The entry point has no parent directory"@,
        }
    }

    /// The message of this error, for a reader.
    pub fn message(&self) -> (text: String)
        ensures
            text@ == self.message_text(),
    {
        match self {
            ExtractionError::Io(reason) => reason.clone(),
            ExtractionError::Malformed(reason) => reason.clone(),
            ExtractionError::MissingParent => "The entry point has no parent directory".to_owned(),
        }
    }
}

impl DependencyResolutionError {
    /// The message of this error.
    pub open spec fn message_text(&self) -> Seq<char> {
        match self {
            DependencyResolutionError::RetrievalFailure(reason) => {
                "Failed to retrieve dependency: "@ + reason@
            },
            DependencyResolutionError::MissingDependency(name) => {
                "'"@ + name@ + "' is not a dependency"@
            },
        }
    }

    /// The message of this error, for a reader.
    pub fn message(&self) -> (text: String)
        ensures
            text@ == self.message_text(),
    {
        let mut text = String::new();
        match self {
            DependencyResolutionError::RetrievalFailure(reason) => {
                text.append("Failed to retrieve dependency: ");
                text.append(reason.as_str());
            },
            DependencyResolutionError::MissingDependency(name) => {
                text.append("'");
                text.append(name.as_str());
                text.append("' is not a dependency");
            },
        }
        text
    }
}

impl ExtractorDiscoveryError {
    /// The message of this error.
    pub open spec fn message_text(&self) -> Seq<char> {
        match self {
            ExtractorDiscoveryError::MalformedManifest { language, error } => {
                "Malformed manifest for "@ + language.variant_name() + ": "@ + error@
            },
            ExtractorDiscoveryError::NotFound => "No matching extractor found"@,
        }
    }

    /// The message of this error, for a reader.
    pub fn message(&self) -> (text: String)
        ensures
            text@ == self.message_text(),
    {
        let mut text = String::new();
        match self {
            ExtractorDiscoveryError::MalformedManifest { language, error } => {
                text.append("Malformed manifest for ");
                text.append(language.get_variant_name());
                text.append(": ");
                text.append(error.as_str());
            },
            ExtractorDiscoveryError::NotFound => {
                text.append("No matching extractor found");
            },
        }
        text
    }
}

impl LibraryError {
    /// The message of this error. A failure of the extraction is put in
    /// context; every other failure speaks for itself.
    pub open spec fn message_text(&self) -> Seq<char> {
        match self {
            LibraryError::UnsupportedLanguage(name) => "Unknown language '"@ + name@ + "'"@,
            LibraryError::Metadata(error) => error.message_text(),
            LibraryError::Discovery(error) => error.message_text(),
            LibraryError::Parser(reason) => reason@,
            LibraryError::Extraction(error) => {
                "Failed to extract public API: "@ + error.message_text()
            },
            LibraryError::DependencyResolution(error) => error.message_text(),
        }
    }

    /// The message of this error, for a reader.
    pub fn message(&self) -> (text: String)
        ensures
            text@ == self.message_text(),
    {
        match self {
            LibraryError::UnsupportedLanguage(name) => {
                let mut text = String::new();
                text.append("Unknown language '");
                text.append(name.as_str());
                text.append("'");
                text
            },
            LibraryError::Metadata(error) => error.message(),
            LibraryError::Discovery(error) => error.message(),
            LibraryError::Parser(reason) => reason.clone(),
            LibraryError::Extraction(error) => {
                let mut text = String::new();
                text.append("Failed to extract public API: ");
                text.append(error.message().as_str());
                text
            },
            LibraryError::DependencyResolution(error) => error.message(),
        }
    }
}

} // verus!
