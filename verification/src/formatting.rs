//! Rendering a library as a markdown document: front matter, the library's
//! own documentation, and one fenced code block for each namespace that has
//! symbols.

use vstd::prelude::*;
use vstd::string::StringExecFns;
use crate::languages::{Language, LanguageConfig, config_of};
use crate::library::{Library, LibraryView};
use crate::model::{Namespace, NamespaceView, SymbolView, namespace_views};
use crate::text::{join, lemma_join_places_parts, lemma_join_push, part_offset, trim, trimmed};

verus! {

/// The tag of the code fences of a library in `language`: the name under
/// which the language is registered.
pub open spec fn language_tag(language: Language) -> Seq<char> {
    config_of(language).name
}

/// The source texts of `symbols`, in order.
pub open spec fn symbol_sources(symbols: Seq<SymbolView>) -> Seq<Seq<char>> {
    symbols.map_values(|s: SymbolView| s.source_code)
}

/// The line that a namespace's doc comment takes in its code block: the
/// comment and a line break, or nothing where there is no comment.
pub open spec fn doc_comment_line(doc_comment: Option<Seq<char>>) -> Seq<char> {
    match doc_comment {
        Some(doc) => doc + "\n"@,
        None => Seq::empty(),
    }
}

/// What stands between the fences of a namespace: the doc comment, then the
/// symbols' source texts in their order, a blank line between each two.
pub open spec fn code_block(namespace: NamespaceView) -> Seq<char> {
    doc_comment_line(namespace.doc_comment) + join(
        symbol_sources(namespace.symbols),
        "\n\n"@,
    )
}

/// The rendering of one namespace: its heading and, where it has symbols, its
/// fenced code block.
pub open spec fn namespace_content(namespace: NamespaceView, tag: Seq<char>) -> Seq<char> {
    let heading = "## "@ + namespace.name + "\n\n"@;
    if namespace.symbols.len() > 0 {
        heading + "```"@ + tag + "\n"@ + code_block(namespace) + "\n```\n"@
    } else {
        heading
    }
}

/// The test that a namespace passes where it has at least one symbol.
pub open spec fn with_symbols() -> spec_fn(NamespaceView) -> bool {
    |namespace: NamespaceView| namespace.symbols.len() > 0
}

/// The function that renders a namespace with fences tagged `tag`.
pub open spec fn rendering(tag: Seq<char>) -> spec_fn(NamespaceView) -> Seq<char> {
    |namespace: NamespaceView| namespace_content(namespace, tag)
}

/// The renderings of the namespaces that have symbols, in order.
pub open spec fn namespace_blocks(namespaces: Seq<NamespaceView>, tag: Seq<char>) -> Seq<
    Seq<char>,
> {
    namespaces.filter(with_symbols()).map_values(rendering(tag))
}

/// The API section: the blocks of the namespaces that have symbols, a line
/// break between each two. Every block ends in a line break of its own, so
/// that a blank line parts two blocks.
pub open spec fn namespaces_content(namespaces: Seq<NamespaceView>, tag: Seq<char>) -> Seq<char> {
    join(namespace_blocks(namespaces, tag), "\n"@)
}

/// The version as the front matter shows it: the version, or `null`.
pub open spec fn version_text(version: Option<Seq<char>>) -> Seq<char> {
    match version {
        Some(v) => v,
        None => "null"@,
    }
}

/// The document up to and with the heading of the API section: front matter,
/// a blank line, the trimmed documentation, a blank line, the heading and a
/// blank line.
pub open spec fn preamble(library: LibraryView) -> Seq<char> {
    "---\nlibrary_name: "@ + library.name + "\nlibrary_version: "@ + version_text(
        library.version,
    ) + "\n---\n\n"@ + trimmed(library.documentation) + "\n\n# API\n\n"@
}

/// The whole document of a library.
pub open spec fn library_context(library: LibraryView) -> Seq<char> {
    preamble(library) + namespaces_content(library.namespaces, language_tag(library.language))
}

/// One more namespace adds its block where it has symbols, and nothing where
/// it has none.
pub proof fn lemma_namespace_blocks_push(
    namespaces: Seq<NamespaceView>,
    namespace: NamespaceView,
    tag: Seq<char>,
)
    ensures
        namespace_blocks(namespaces.push(namespace), tag) == if namespace.symbols.len() > 0 {
            namespace_blocks(namespaces, tag).push(namespace_content(namespace, tag))
        } else {
            namespace_blocks(namespaces, tag)
        },
{
    reveal(Seq::filter);
    assert(namespaces.push(namespace).drop_last() =~= namespaces);
}

/// A library without namespaces has an empty API section: its document ends
/// with the heading of that section and the blank line under it.
pub proof fn lemma_no_namespaces_render_nothing(library: LibraryView)
    requires
        library.namespaces.len() == 0,
    ensures
        namespaces_content(library.namespaces, language_tag(library.language)) == Seq::<
            char,
        >::empty(),
        library_context(library) == preamble(library),
{
    reveal(Seq::filter);
}

/// Namespaces of which none has a symbol render as nothing at all.
pub proof fn lemma_namespaces_without_symbols_render_nothing(
    namespaces: Seq<NamespaceView>,
    tag: Seq<char>,
)
    requires
        forall|i: int| 0 <= i < namespaces.len() ==> namespaces[i].symbols.len() == 0,
    ensures
        namespaces_content(namespaces, tag) == Seq::<char>::empty(),
    decreases namespaces.len(),
{
    reveal(Seq::filter);
    if namespaces.len() > 0 {
        lemma_namespaces_without_symbols_render_nothing(namespaces.drop_last(), tag);
    }
}

/// A namespace without symbols leaves no trace in the API section, neither a
/// heading nor a separator: the section is the one of the same namespaces
/// without it.
pub proof fn lemma_namespace_without_symbols_is_left_out(
    namespaces: Seq<NamespaceView>,
    i: int,
    tag: Seq<char>,
)
    requires
        0 <= i < namespaces.len(),
        namespaces[i].symbols.len() == 0,
    ensures
        namespaces_content(namespaces, tag) == namespaces_content(namespaces.remove(i), tag),
{
    let before = namespaces.subrange(0, i);
    let after = namespaces.subrange(i + 1, namespaces.len() as int);
    assert(namespaces =~= before.push(namespaces[i]) + after);
    Seq::filter_distributes_over_add(before.push(namespaces[i]), after, with_symbols());
    Seq::filter_distributes_over_add(before, after, with_symbols());
    assert(before.push(namespaces[i]).filter(with_symbols()) == before.filter(with_symbols()))
        by {
        reveal(Seq::filter);
        assert(before.push(namespaces[i]).drop_last() =~= before);
    }
}

/// A namespace with symbols is rendered whole, wherever it stands: where it
/// is the last of the namespaces, the API section ends with its block.
pub proof fn lemma_last_namespace_with_symbols_ends_the_section(
    namespaces: Seq<NamespaceView>,
    namespace: NamespaceView,
    tag: Seq<char>,
)
    requires
        namespace.symbols.len() > 0,
    ensures
        namespaces_content(namespaces.push(namespace), tag) == if namespace_blocks(
            namespaces,
            tag,
        ).len() == 0 {
            namespace_content(namespace, tag)
        } else {
            namespaces_content(namespaces, tag) + "\n"@ + namespace_content(namespace, tag)
        },
{
    lemma_namespace_blocks_push(namespaces, namespace, tag);
    lemma_join_push(namespace_blocks(namespaces, tag), "\n"@, namespace_content(namespace, tag));
}

/// The code block of a namespace holds the source text of every symbol
/// verbatim and in the symbols' order, and what parts two neighbours is one
/// blank line: two line breaks, no more and no less.
pub proof fn lemma_code_block_keeps_symbols_in_order(namespace: NamespaceView, k: int)
    requires
        0 <= k < namespace.symbols.len(),
    ensures
        "\n\n"@ == seq!['\n', '\n'],
        ({
            let sources = symbol_sources(namespace.symbols);
            let block = code_block(namespace);
            let at = doc_comment_line(namespace.doc_comment).len() + part_offset(
                sources,
                "\n\n"@,
                k,
            );
            let end = at + namespace.symbols[k].source_code.len();
            &&& 0 <= at <= end <= block.len()
            &&& block.subrange(at, end) == namespace.symbols[k].source_code
            &&& k + 1 < namespace.symbols.len() ==> {
                &&& end + 2 <= block.len()
                &&& block.subrange(end, end + 2) == seq!['\n', '\n']
                &&& end + 2 == doc_comment_line(namespace.doc_comment).len() + part_offset(
                    sources,
                    "\n\n"@,
                    k + 1,
                )
            }
            &&& k + 1 == namespace.symbols.len() ==> end == block.len()
        }),
{
    reveal_strlit("\n\n");
    lemma_join_places_parts(symbol_sources(namespace.symbols), "\n\n"@, k);
}

/// Renders one namespace: the heading, and the fenced block where the
/// namespace has symbols.
pub fn format_namespace_content(namespace: &Namespace, language: &str) -> (content: String)
    ensures
        content@ == namespace_content(namespace@, language@),
{
    let mut content = String::new();
    content.append("## ");
    content.append(namespace.name.as_str());
    content.append("\n\n");
    if namespace.symbols.len() > 0 {
        let mut code_block = String::new();
        match &namespace.doc_comment {
            Some(doc) => {
                code_block.append(doc.as_str());
                code_block.append("\n");
            },
            None => {},
        }
        let ghost sources = symbol_sources(namespace@.symbols);
        let mut i: usize = 0;
        while i < namespace.symbols.len()
            invariant
                i <= namespace.symbols.len(),
                sources == symbol_sources(namespace@.symbols),
                sources.len() == namespace.symbols.len(),
                code_block@ == doc_comment_line(namespace@.doc_comment) + join(
                    sources.take(i as int),
                    "\n\n"@,
                ),
            decreases namespace.symbols.len() - i,
        {
            if i > 0 {
                code_block.append("\n\n");
            }
            code_block.append(namespace.symbols[i].source_code.as_str());
            proof {
                lemma_join_push(sources.take(i as int), "\n\n"@, sources[i as int]);
                assert(sources.take(i as int + 1) =~= sources.take(i as int).push(
                    sources[i as int],
                ));
            }
            i = i + 1;
        }
        assert(sources.take(i as int) =~= sources);
        content.append("```");
        content.append(language);
        content.append("\n");
        content.append(code_block.as_str());
        content.append("\n```\n");
    }
    content
}

/// Renders the API section: the blocks of the namespaces that have symbols,
/// in their order.
pub fn format_namespaces_content(namespaces: &Vec<Namespace>, language: &str) -> (content: String)
    ensures
        content@ == namespaces_content(namespace_views(namespaces@), language@),
{
    let mut content = String::new();
    let mut any: bool = false;
    let mut i: usize = 0;
    let ghost views = namespace_views(namespaces@);
    proof {
        reveal(Seq::filter);
    }
    while i < namespaces.len()
        invariant
            i <= namespaces.len(),
            views == namespace_views(namespaces@),
            any == (namespace_blocks(views.take(i as int), language@).len() > 0),
            content@ == join(namespace_blocks(views.take(i as int), language@), "\n"@),
        decreases namespaces.len() - i,
    {
        let namespace = &namespaces[i];
        proof {
            lemma_namespace_blocks_push(views.take(i as int), views[i as int], language@);
            lemma_join_push(
                namespace_blocks(views.take(i as int), language@),
                "\n"@,
                namespace_content(views[i as int], language@),
            );
            assert(views.take(i as int + 1) =~= views.take(i as int).push(views[i as int]));
        }
        if namespace.symbols.len() > 0 {
            if any {
                content.append("\n");
            }
            let block = format_namespace_content(namespace, language);
            content.append(block.as_str());
            any = true;
        }
        i = i + 1;
    }
    assert(views.take(i as int) =~= views);
    content
}

/// Renders `library` as its document.
pub fn format_library_context(library: &Library) -> (text: String)
    ensures
        text@ == library_context(library@),
{
    let config = LanguageConfig::get_from_language(library.language);
    let api_content = format_namespaces_content(&library.namespaces, config.name);
    let mut text = String::new();
    text.append("---\nlibrary_name: ");
    text.append(library.name.as_str());
    text.append("\nlibrary_version: ");
    match &library.version {
        Some(version) => text.append(version.as_str()),
        None => text.append("null"),
    }
    text.append("\n---\n\n");
    text.append(trim(library.documentation.as_str()));
    text.append("\n\n# API\n\n");
    text.append(api_content.as_str());
    text
}

} // verus!
