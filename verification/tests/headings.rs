use arto::markdown::headings::{generate_slug, slug_from_lowercase, unique_heading_ids, HeadingInfo};
use arto::markdown::prepend_frontmatter;
use arto::markdown::source_lines::byte_offset_to_line;

#[test]
fn test_generate_slug() {
    assert_eq!(generate_slug("Hello World"), "hello-world");
    assert_eq!(generate_slug("My Heading"), "my-heading");
    assert_eq!(
        generate_slug("Heading with  Multiple   Spaces"),
        "heading-with-multiple-spaces"
    );
    assert_eq!(
        generate_slug("Special: Characters! Here?"),
        "special-characters-here"
    );
    assert_eq!(generate_slug("日本語"), ""); // Non-ASCII characters are stripped
    assert_eq!(generate_slug("Code `example`"), "code-example");
    assert_eq!(generate_slug("under_score"), "under-score");
}

#[test]
fn slug_of_lowercase_text() {
    assert_eq!(slug_from_lowercase("subsection 1.1"), "subsection-1-1");
    assert_eq!(slug_from_lowercase("--a--b--"), "a-b");
    assert_eq!(slug_from_lowercase("tab\there"), "tab-here");
    assert_eq!(slug_from_lowercase(""), "");
    assert_eq!(slug_from_lowercase("UPPER"), "UPPER");
}

#[test]
fn duplicate_slugs_get_numbered() {
    let bases: Vec<String> = ["introduction", "overview", "overview", "overview", "summary"]
        .iter()
        .map(|s| s.to_string())
        .collect();
    assert_eq!(
        unique_heading_ids(&bases),
        vec!["introduction", "overview", "overview-1", "overview-2", "summary"]
    );
}

#[test]
fn many_duplicates_get_multi_digit_numbers() {
    let bases: Vec<String> = (0..12).map(|_| "x".to_string()).collect();
    let ids = unique_heading_ids(&bases);
    assert_eq!(ids[0], "x");
    assert_eq!(ids[1], "x-1");
    assert_eq!(ids[11], "x-11");
}

#[test]
fn heading_info_compares_by_fields() {
    let a = HeadingInfo {
        level: 1,
        text: "Title".to_string(),
        id: "title".to_string(),
    };
    assert_eq!(a.clone(), a);
}

#[test]
fn test_byte_offset_to_line() {
    assert_eq!(byte_offset_to_line("hello", 0), 1);
    assert_eq!(byte_offset_to_line("hello\nworld", 0), 1);
    assert_eq!(byte_offset_to_line("hello\nworld", 6), 2);
    assert_eq!(byte_offset_to_line("hello\nworld", 5), 1);
    assert_eq!(byte_offset_to_line("a\nb\nc\n", 0), 1);
    assert_eq!(byte_offset_to_line("a\nb\nc\n", 2), 2);
    assert_eq!(byte_offset_to_line("a\nb\nc\n", 4), 3);
    // Offset beyond text length is clamped
    assert_eq!(byte_offset_to_line("hi", 100), 1);
}

#[test]
fn byte_offset_to_line_counts_bytes_of_multibyte_text() {
    assert_eq!(byte_offset_to_line("日本\n語", 7), 2);
    assert_eq!(byte_offset_to_line("日本\n語", 6), 1);
}

#[test]
fn prepend_frontmatter_joins_with_newline() {
    assert_eq!(prepend_frontmatter("", "<p>x</p>".to_string()), "<p>x</p>");
    assert_eq!(
        prepend_frontmatter("<table></table>", "<p>x</p>".to_string()),
        "<table></table>\n<p>x</p>"
    );
}

#[test]
fn slug_of_a_slug_is_unchanged() {
    for text in ["Hello World!", "  -- Intro_to.Rust --  ", "API v2.0 (beta)", "x"] {
        let once = slug_from_lowercase(&generate_slug(text));
        assert_eq!(slug_from_lowercase(&once), once);
        assert_eq!(once, generate_slug(text));
    }
}

#[test]
fn slug_without_letters_or_digits_is_empty() {
    assert_eq!(generate_slug("!!! ??? ---"), "");
    assert_eq!(generate_slug(""), "");
}

#[test]
fn line_numbers_never_go_back() {
    let text = "a\nbb\n\nccc\n";
    let mut last = 0;
    for offset in 0..=text.len() + 2 {
        let line = byte_offset_to_line(text, offset);
        assert!(line >= 1);
        assert!(line >= last);
        last = line;
    }
    assert_eq!(byte_offset_to_line(text, 5), 3);
}
