use daipendency::text::trim;

#[test]
fn trim_removes_white_space_at_both_ends() {
    assert_eq!(trim("  \n\tTest documentation\r\n  "), "Test documentation");
}

#[test]
fn trim_keeps_white_space_inside() {
    assert_eq!(trim("\na \t b\n\nc\n"), "a \t b\n\nc");
}

#[test]
fn trim_of_text_without_white_space_at_the_ends_is_the_text() {
    assert_eq!(trim("abc"), "abc");
    assert_eq!(trim("a"), "a");
}

#[test]
fn trim_of_white_space_alone_is_empty() {
    assert_eq!(trim(""), "");
    assert_eq!(trim(" "), "");
    assert_eq!(trim(" \n\t\r\u{b}\u{c}"), "");
}

#[test]
fn trim_counts_every_unicode_white_space() {
    let white_space = "\u{85}\u{a0}\u{1680}\u{2000}\u{200a}\u{2028}\u{2029}\u{202f}\u{205f}\u{3000}";
    let text = format!("{white_space}é — ü{white_space}");

    assert_eq!(trim(&text), "é — ü");
}

#[test]
fn trim_keeps_characters_that_only_look_blank() {
    assert_eq!(trim("\u{200b}x\u{feff}"), "\u{200b}x\u{feff}");
}

#[test]
fn trim_agrees_with_the_standard_library() {
    for text in ["", "x", " x", "x ", "  x  y  ", "\n\n", "\u{3000}日本語\u{3000}", "a\u{a0}"] {
        assert_eq!(trim(text), text.trim());
    }
}
