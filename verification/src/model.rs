//! What an extractor reports of a library: its metadata and its public API.

use vstd::prelude::*;
use std::path::PathBuf;

verus! {

/// A public element of a library's API, with its source text.
#[derive(Debug, PartialEq, Eq)]
pub struct Symbol {
    pub name: String,
    /// The declaration as it stands in the source. It is rendered verbatim.
    pub source_code: String,
}

/// A named group of symbols, such as a module. The symbols stand in the order
/// in which the extractor reported them, and rendering keeps that order.
#[derive(Debug, PartialEq, Eq)]
pub struct Namespace {
    pub name: String,
    pub symbols: Vec<Symbol>,
    pub doc_comment: Option<String>,
}

/// What a library's manifest and its neighbours say of it.
#[derive(Debug, PartialEq, Eq)]
pub struct LibraryMetadata {
    pub name: String,
    pub version: Option<String>,
    /// Free text about the library, such as the body of its read-me file.
    pub documentation: String,
    /// The source file from which the public API is reached.
    pub entry_point: PathBuf,
}

/// A [`Symbol`] as sequences of characters.
pub struct SymbolView {
    pub name: Seq<char>,
    pub source_code: Seq<char>,
}

/// A [`Namespace`] as sequences.
pub struct NamespaceView {
    pub name: Seq<char>,
    pub symbols: Seq<SymbolView>,
    pub doc_comment: Option<Seq<char>>,
}

/// A [`LibraryMetadata`] with its texts as sequences of characters.
pub struct LibraryMetadataView {
    pub name: Seq<char>,
    pub version: Option<Seq<char>>,
    pub documentation: Seq<char>,
    pub entry_point: PathBuf,
}

/// The characters of an optional string.
pub open spec fn optional_text(text: Option<String>) -> Option<Seq<char>> {
    match text {
        Some(t) => Some(t@),
        None => None,
    }
}

/// The views of `symbols`, in order.
pub open spec fn symbol_views(symbols: Seq<Symbol>) -> Seq<SymbolView> {
    symbols.map_values(|s: Symbol| s@)
}

/// The views of `namespaces`, in order.
pub open spec fn namespace_views(namespaces: Seq<Namespace>) -> Seq<NamespaceView> {
    namespaces.map_values(|n: Namespace| n@)
}

impl View for Symbol {
    type V = SymbolView;

    open spec fn view(&self) -> SymbolView {
        SymbolView { name: self.name@, source_code: self.source_code@ }
    }
}

impl View for Namespace {
    type V = NamespaceView;

    open spec fn view(&self) -> NamespaceView {
        NamespaceView {
            name: self.name@,
            symbols: symbol_views(self.symbols@),
            doc_comment: optional_text(self.doc_comment),
        }
    }
}

impl View for LibraryMetadata {
    type V = LibraryMetadataView;

    open spec fn view(&self) -> LibraryMetadataView {
        LibraryMetadataView {
            name: self.name@,
            version: optional_text(self.version),
            documentation: self.documentation@,
            entry_point: self.entry_point,
        }
    }
}

} // verus!
