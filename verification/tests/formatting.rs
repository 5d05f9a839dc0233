use daipendency::formatting::{
    format_library_context, format_namespace_content, format_namespaces_content,
};
use daipendency::languages::Language;
use daipendency::library::Library;
use daipendency::model::{Namespace, Symbol};

const STUB_LIBRARY_NAME: &str = "test-lib";
const STUB_LIBRARY_VERSION: &str = "1.0.0";
const STUB_DOCUMENTATION: &str = "Test documentation";
const STUB_LANGUAGE_STR: &str = "rust";
const STUB_SOURCE_CODE: &str = "SOURCE_CODE";
const STUB_MULTI_LINE_SOURCE_CODE: &str = "MULTI_LINE\nSOURCE_CODE";
const STUB_DOC_COMMENT: &str = "This is a doc comment";

fn create_library(namespaces: Vec<Namespace>) -> Library {
    Library {
        name: STUB_LIBRARY_NAME.to_string(),
        version: Some(STUB_LIBRARY_VERSION.to_string()),
        documentation: STUB_DOCUMENTATION.to_string(),
        namespaces,
        language: Language::Rust,
    }
}

fn get_frontmatter_lines(documentation: String) -> Option<Vec<String>> {
    let mut lines = documentation.lines();
    if lines.next() == Some("---") {
        Some(
            lines
                .take_while(|&line| line != "---")
                .map(String::from)
                .collect(),
        )
    } else {
        None
    }
}

fn create_namespace(name: &str, symbols: Vec<Symbol>, doc_comment: Option<&str>) -> Namespace {
    Namespace {
        name: name.to_string(),
        symbols,
        doc_comment: doc_comment.map(String::from),
    }
}

fn create_symbol(name: &str, source_code: &str) -> Symbol {
    Symbol {
        name: name.to_string(),
        source_code: source_code.to_string(),
    }
}

fn assert_api_is_empty(documentation: &str) {
    let api_content = documentation
        .split("\n# API\n")
        .nth(1)
        .unwrap_or("")
        .trim();
    assert!(
        api_content.is_empty(),
        "Expected empty API content, got: {api_content}"
    );
}

#[test]
fn library_name() {
    let library = create_library(vec![]);
    let documentation = format_library_context(&library);
    let frontmatter_lines = get_frontmatter_lines(documentation).unwrap();

    assert!(frontmatter_lines.contains(&format!("library_name: {STUB_LIBRARY_NAME}")));
}

#[test]
fn with_library_version() {
    let library = create_library(vec![]);
    let documentation = format_library_context(&library);
    let frontmatter_lines = get_frontmatter_lines(documentation).unwrap();

    assert!(frontmatter_lines.contains(&format!("library_version: {STUB_LIBRARY_VERSION}")));
}

#[test]
fn without_library_version() {
    let mut library = create_library(vec![]);
    library.version = None;
    let documentation = format_library_context(&library);
    let frontmatter_lines = get_frontmatter_lines(documentation).unwrap();

    assert!(frontmatter_lines.contains(&"library_version: null".to_string()));
}

#[test]
fn library_documentation() {
    let library = create_library(vec![]);
    let documentation = format_library_context(&library);

    assert!(documentation.contains(&format!("\n---\n\n{STUB_DOCUMENTATION}\n\n# API")));
}

#[test]
fn no_namespaces() {
    let library = create_library(vec![]);
    let documentation = format_library_context(&library);
    assert_api_is_empty(&documentation);
}

#[test]
fn single_namespace() {
    let namespace = create_namespace(
        "test",
        vec![create_symbol("symbol", STUB_SOURCE_CODE)],
        None,
    );
    let namespace_name = namespace.name.clone();
    let library = create_library(vec![namespace]);
    let documentation = format_library_context(&library);

    assert!(documentation.contains(&format!(
        "## {}\n\n```{}\n{}\n```",
        namespace_name, STUB_LANGUAGE_STR, STUB_SOURCE_CODE
    )));
}

#[test]
fn multiple_namespaces() {
    let namespace1 = create_namespace(
        "test1",
        vec![create_symbol("symbol1", STUB_SOURCE_CODE)],
        None,
    );
    let namespace2 = create_namespace(
        "test2",
        vec![create_symbol("symbol2", STUB_SOURCE_CODE)],
        None,
    );
    let namespace1_name = namespace1.name.clone();
    let namespace2_name = namespace2.name.clone();
    let library = create_library(vec![namespace1, namespace2]);
    let documentation = format_library_context(&library);

    assert!(documentation.contains(&format!(
        "## {}\n\n```{}\n",
        namespace1_name, STUB_LANGUAGE_STR
    )));
    assert!(documentation.contains(&format!(
        "## {}\n\n```{}\n",
        namespace2_name, STUB_LANGUAGE_STR
    )));
}

#[test]
fn namespace_without_symbols() {
    let namespace = create_namespace("test", vec![], None);
    let library = create_library(vec![namespace]);
    let documentation = format_library_context(&library);
    assert_api_is_empty(&documentation);
}

#[test]
fn single_symbol() {
    let namespace = create_namespace(
        "test",
        vec![create_symbol("symbol", STUB_SOURCE_CODE)],
        None,
    );
    let library = create_library(vec![namespace]);
    let documentation = format_library_context(&library);

    assert!(documentation.contains(&format!("```{}\n", STUB_LANGUAGE_STR)));
    assert!(documentation.contains(STUB_SOURCE_CODE));
    assert!(documentation.contains("\n```"));
}

#[test]
fn multiple_symbols() {
    let namespace = create_namespace(
        "test",
        vec![
            create_symbol("symbol1", "FIRST"),
            create_symbol("symbol2", "SECOND"),
        ],
        None,
    );
    let library = create_library(vec![namespace]);
    let documentation = format_library_context(&library);

    assert!(documentation.contains(&format!("```{}\n", STUB_LANGUAGE_STR)));
    assert!(documentation.contains("FIRST\n\nSECOND\n"));
    assert!(documentation.contains("```\n"));
}

#[test]
fn single_line_symbol() {
    let namespace = create_namespace(
        "test",
        vec![create_symbol("symbol", STUB_SOURCE_CODE)],
        None,
    );
    let library = create_library(vec![namespace]);
    let documentation = format_library_context(&library);

    assert!(documentation.contains(&format!("```{}\n", STUB_LANGUAGE_STR)));
    assert!(documentation.contains(STUB_SOURCE_CODE));
    assert!(documentation.contains("\n```"));
}

#[test]
fn multi_line_symbol() {
    let namespace = create_namespace(
        "test",
        vec![create_symbol("symbol", STUB_MULTI_LINE_SOURCE_CODE)],
        None,
    );
    let library = create_library(vec![namespace]);
    let documentation = format_library_context(&library);

    assert!(documentation.contains(&format!("```{}\n", STUB_LANGUAGE_STR)));
    assert!(documentation.contains(STUB_MULTI_LINE_SOURCE_CODE));
    assert!(documentation.contains("\n```"));
}

#[test]
fn namespace_without_doc_comment() {
    let namespace = create_namespace(
        "test",
        vec![create_symbol("symbol", STUB_SOURCE_CODE)],
        None,
    );
    let library = create_library(vec![namespace]);
    let documentation = format_library_context(&library);

    assert!(documentation.contains(&format!(
        "```{}\n{}\n```",
        STUB_LANGUAGE_STR, STUB_SOURCE_CODE
    )));
}

#[test]
fn namespace_with_doc_comment() {
    let namespace = create_namespace(
        "test",
        vec![create_symbol("symbol", STUB_SOURCE_CODE)],
        Some(STUB_DOC_COMMENT),
    );
    let library = create_library(vec![namespace]);
    let documentation = format_library_context(&library);

    assert!(documentation.contains(&format!(
        "```{}\n{}\n{}\n```",
        STUB_LANGUAGE_STR, STUB_DOC_COMMENT, STUB_SOURCE_CODE
    )));
}

#[test]
fn whole_document_is_rendered_byte_for_byte() {
    let library = Library {
        name: "demo".to_string(),
        version: Some("2.1.0".to_string()),
        documentation: "\n  Demo library.\nSecond line.\t\n\n".to_string(),
        namespaces: vec![
            create_namespace(
                "demo",
                vec![
                    create_symbol("a", "pub fn a();"),
                    create_symbol("b", "pub struct B {\n    x: u8,\n}"),
                ],
                Some("//! Root module"),
            ),
            create_namespace("demo::empty", vec![], Some("//! Nothing here")),
            create_namespace("demo::inner", vec![create_symbol("c", "pub const C: u8;")], None),
        ],
        language: Language::Rust,
    };

    let documentation = format_library_context(&library);

    assert_eq!(
        documentation,
        "---\nlibrary_name: demo\nlibrary_version: 2.1.0\n---\n\nDemo library.\nSecond line.\n\n# API\n\n## demo\n\n```rust\n//! Root module\npub fn a();\n\npub struct B {\n    x: u8,\n}\n```\n\n## demo::inner\n\n```rust\npub const C: u8;\n```\n"
    );
}

#[test]
fn document_without_version_documentation_and_namespaces() {
    let library = Library {
        name: String::new(),
        version: None,
        documentation: String::new(),
        namespaces: vec![],
        language: Language::Rust,
    };

    let documentation = format_library_context(&library);

    assert_eq!(
        documentation,
        "---\nlibrary_name: \nlibrary_version: null\n---\n\n\n\n# API\n\n"
    );
}

#[test]
fn documentation_of_white_space_alone_is_trimmed_to_nothing() {
    let mut library = create_library(vec![]);
    library.documentation = " \t\r\n\u{a0}\u{2003}\u{3000}".to_string();

    let documentation = format_library_context(&library);

    assert_eq!(
        documentation,
        "---\nlibrary_name: test-lib\nlibrary_version: 1.0.0\n---\n\n\n\n# API\n\n"
    );
}

#[test]
fn one_symbol_x_is_fenced_with_the_language_tag() {
    let namespace = create_namespace("n", vec![create_symbol("x", "X")], None);
    let library = create_library(vec![namespace]);

    let documentation = format_library_context(&library);

    let api_content = documentation.split("\n# API\n").nth(1).unwrap();
    assert!(api_content.contains("```rust\nX\n```"));
    assert_eq!(api_content, "\n## n\n\n```rust\nX\n```\n");
}

#[test]
fn namespaces_without_symbols_leave_no_heading() {
    let namespaces = vec![
        create_namespace("first", vec![], None),
        create_namespace("second", vec![create_symbol("s", "S")], None),
        create_namespace("third", vec![], Some("doc")),
    ];

    let content = format_namespaces_content(&namespaces, "rust");

    assert_eq!(content, "## second\n\n```rust\nS\n```\n");
    assert_eq!(content.matches("## ").count(), 1);
}

#[test]
fn blocks_are_parted_by_one_blank_line() {
    let namespaces = vec![
        create_namespace("a", vec![create_symbol("s", "A")], None),
        create_namespace("skipped", vec![], None),
        create_namespace("b", vec![create_symbol("s", "B")], None),
        create_namespace("c", vec![create_symbol("s", "C")], None),
    ];

    let content = format_namespaces_content(&namespaces, "tag");

    assert_eq!(
        content,
        "## a\n\n```tag\nA\n```\n\n## b\n\n```tag\nB\n```\n\n## c\n\n```tag\nC\n```\n"
    );
}

#[test]
fn symbols_keep_their_order_and_one_blank_line_between_them() {
    let namespace = create_namespace(
        "ordered",
        vec![
            create_symbol("z", "Z"),
            create_symbol("a", "A\n"),
            create_symbol("m", ""),
            create_symbol("b", "B"),
        ],
        None,
    );

    let content = format_namespace_content(&namespace, "rust");

    assert_eq!(content, "## ordered\n\n```rust\nZ\n\nA\n\n\n\n\nB\n```\n");
}

#[test]
fn namespace_block_without_symbols_is_its_heading() {
    let namespace = create_namespace("bare", vec![], Some("ignored"));

    let content = format_namespace_content(&namespace, "rust");

    assert_eq!(content, "## bare\n\n");
}

#[test]
fn no_namespaces_render_as_the_empty_string() {
    assert_eq!(format_namespaces_content(&vec![], "rust"), "");
}
