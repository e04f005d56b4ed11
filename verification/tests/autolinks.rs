use arto::markdown::autolinks::preprocess_autolinks;


// ========================================================================
// Basic conversion tests
// ========================================================================

#[test]
fn test_basic_url_start_of_line() {
    let input = "https://example.com";
    assert_eq!(preprocess_autolinks(input), "<https://example.com>");
}

#[test]
fn test_basic_url_mid_line() {
    let input = "Visit https://example.com for details";
    assert_eq!(
        preprocess_autolinks(input),
        "Visit <https://example.com> for details"
    );
}

#[test]
fn test_basic_url_end_of_line() {
    let input = "See https://example.com";
    assert_eq!(preprocess_autolinks(input), "See <https://example.com>");
}

#[test]
fn test_http_url() {
    let input = "Visit http://example.com for info";
    assert_eq!(
        preprocess_autolinks(input),
        "Visit <http://example.com> for info"
    );
}

#[test]
fn test_url_with_path() {
    let input = "https://example.com/path/to/page";
    assert_eq!(
        preprocess_autolinks(input),
        "<https://example.com/path/to/page>"
    );
}

#[test]
fn test_url_with_query() {
    let input = "https://example.com/search?q=test&lang=en";
    assert_eq!(
        preprocess_autolinks(input),
        "<https://example.com/search?q=test&lang=en>"
    );
}

#[test]
fn test_url_with_fragment() {
    let input = "https://example.com/page#section";
    assert_eq!(
        preprocess_autolinks(input),
        "<https://example.com/page#section>"
    );
}

#[test]
fn test_multiple_urls_on_line() {
    let input = "Visit https://a.com and https://b.com today";
    assert_eq!(
        preprocess_autolinks(input),
        "Visit <https://a.com> and <https://b.com> today"
    );
}

#[test]
fn test_multiple_lines() {
    let input = "# Title\n\nhttps://example.com\n\nSome text https://other.com here\n";
    let expected = "# Title\n\n<https://example.com>\n\nSome text <https://other.com> here\n";
    assert_eq!(preprocess_autolinks(input), expected);
}

// ========================================================================
// Skip cases
// ========================================================================

#[test]
fn test_skip_existing_autolink() {
    let input = "<https://example.com>";
    assert_eq!(preprocess_autolinks(input), "<https://example.com>");
}

#[test]
fn test_skip_markdown_link() {
    let input = "[text](https://example.com)";
    assert_eq!(preprocess_autolinks(input), "[text](https://example.com)");
}

#[test]
fn test_skip_inline_code() {
    let input = "Use `https://example.com` as URL";
    assert_eq!(
        preprocess_autolinks(input),
        "Use `https://example.com` as URL"
    );
}

#[test]
fn test_skip_double_backtick_code() {
    let input = "Use ``https://example.com`` as URL";
    assert_eq!(
        preprocess_autolinks(input),
        "Use ``https://example.com`` as URL"
    );
}

#[test]
fn test_skip_fenced_code_block() {
    let input = "```\nhttps://example.com\n```\n";
    assert_eq!(preprocess_autolinks(input), input);
}

#[test]
fn test_skip_fenced_code_block_with_language() {
    let input = "```rust\nlet url = \"https://example.com\";\n```\n";
    assert_eq!(preprocess_autolinks(input), input);
}

#[test]
fn test_skip_tilde_fenced_code_block() {
    let input = "~~~\nhttps://example.com\n~~~\n";
    assert_eq!(preprocess_autolinks(input), input);
}

#[test]
fn test_skip_quoted_url() {
    let input = "The URL \"https://example.com\" is valid";
    assert_eq!(
        preprocess_autolinks(input),
        "The URL \"https://example.com\" is valid"
    );
}

#[test]
fn test_skip_single_quoted_url() {
    let input = "The URL 'https://example.com' is valid";
    assert_eq!(
        preprocess_autolinks(input),
        "The URL 'https://example.com' is valid"
    );
}

#[test]
fn test_skip_image_link() {
    let input = "![alt text](https://example.com/image.png)";
    assert_eq!(preprocess_autolinks(input), input);
}

#[test]
fn test_url_after_non_ascii_with_space() {
    let input = "café https://example.com for info";
    assert_eq!(
        preprocess_autolinks(input),
        "café <https://example.com> for info"
    );
}

// ========================================================================
// Trailing punctuation stripping
// ========================================================================

#[test]
fn test_trailing_period() {
    let input = "Visit https://example.com.";
    assert_eq!(preprocess_autolinks(input), "Visit <https://example.com>.");
}

#[test]
fn test_trailing_comma() {
    let input = "See https://example.com, for info";
    assert_eq!(
        preprocess_autolinks(input),
        "See <https://example.com>, for info"
    );
}

#[test]
fn test_trailing_exclamation() {
    let input = "Check https://example.com!";
    assert_eq!(preprocess_autolinks(input), "Check <https://example.com>!");
}

#[test]
fn test_trailing_question() {
    let input = "Did you see https://example.com?";
    assert_eq!(
        preprocess_autolinks(input),
        "Did you see <https://example.com>?"
    );
}

#[test]
fn test_trailing_multiple_punctuation() {
    let input = "See https://example.com...";
    assert_eq!(preprocess_autolinks(input), "See <https://example.com>...");
}

// ========================================================================
// Parenthesis balancing
// ========================================================================

#[test]
fn test_balanced_parens_wikipedia() {
    let input = "See https://en.wikipedia.org/wiki/Rust_(programming_language) for info";
    assert_eq!(
        preprocess_autolinks(input),
        "See <https://en.wikipedia.org/wiki/Rust_(programming_language)> for info"
    );
}

#[test]
fn test_unbalanced_closing_paren() {
    let input = "(https://example.com)";
    assert_eq!(preprocess_autolinks(input), "(<https://example.com>)");
}

#[test]
fn test_url_in_parens_with_trailing_period() {
    let input = "(See https://example.com).";
    assert_eq!(preprocess_autolinks(input), "(See <https://example.com>).");
}

// ========================================================================
// Edge cases
// ========================================================================

#[test]
fn test_empty_input() {
    assert_eq!(preprocess_autolinks(""), "");
}

#[test]
fn test_no_urls() {
    let input = "Just some text without any URLs";
    assert_eq!(preprocess_autolinks(input), input);
}

#[test]
fn test_protocol_only() {
    let input = "https://";
    assert_eq!(preprocess_autolinks(input), "https://");
}

#[test]
fn test_preserves_line_count() {
    let input = "Line 1\nhttps://example.com\nLine 3\nLine 4\nhttps://other.com\n";
    let output = preprocess_autolinks(input);
    assert_eq!(
        input.lines().count(),
        output.lines().count(),
        "Line count must be preserved"
    );
}

#[test]
fn test_preserves_trailing_newline() {
    let input = "https://example.com\n";
    let output = preprocess_autolinks(input);
    assert!(output.ends_with('\n'), "Should preserve trailing newline");
}

#[test]
fn test_no_trailing_newline() {
    let input = "https://example.com";
    let output = preprocess_autolinks(input);
    assert!(
        !output.ends_with('\n'),
        "Should not add trailing newline when input doesn't have one"
    );
}

#[test]
fn test_url_after_code_block() {
    let input = "```\ncode\n```\n\nhttps://example.com\n";
    let expected = "```\ncode\n```\n\n<https://example.com>\n";
    assert_eq!(preprocess_autolinks(input), expected);
}

#[test]
fn test_mixed_content() {
    let input = "# Links\n\nVisit https://example.com for info.\n\nAlready linked: <https://auto.link>\n\nIn markdown: [click](https://link.com)\n\n```\nhttps://in-code.com\n```\n\nBack to normal https://again.com here\n";
    let expected = "# Links\n\nVisit <https://example.com> for info.\n\nAlready linked: <https://auto.link>\n\nIn markdown: [click](https://link.com)\n\n```\nhttps://in-code.com\n```\n\nBack to normal <https://again.com> here\n";
    assert_eq!(preprocess_autolinks(input), expected);
}

#[test]
fn test_url_preceded_by_open_paren_not_markdown() {
    // Standalone parenthesized URL (not markdown link)
    let input = "(https://example.com)";
    assert_eq!(preprocess_autolinks(input), "(<https://example.com>)");
}

#[test]
fn test_indented_code_fence() {
    let input = "  ```\nhttps://example.com\n  ```\n";
    // Indented fences are still valid
    assert_eq!(preprocess_autolinks(input), input);
}

#[test]
fn test_url_with_semicolon_trailing() {
    let input = "Visit https://example.com;";
    assert_eq!(preprocess_autolinks(input), "Visit <https://example.com>;");
}

#[test]
fn test_url_with_colon_trailing() {
    let input = "See https://example.com:";
    assert_eq!(preprocess_autolinks(input), "See <https://example.com>:");
}

#[test]
fn test_url_with_port() {
    let input = "See https://localhost:3000/path";
    assert_eq!(
        preprocess_autolinks(input),
        "See <https://localhost:3000/path>"
    );
}

#[test]
fn autolinking_only_inserts_angle_brackets() {
    let input = "see https://example.com/a and http://x.org.\n```\nhttps://in.fence\n```\n`https://code` end\n";
    let output = preprocess_autolinks(input);
    assert_eq!(
        output,
        "see <https://example.com/a> and <http://x.org>.\n```\nhttps://in.fence\n```\n`https://code` end\n"
    );
    let stripped: String = output.chars().filter(|c| *c != '<' && *c != '>').collect();
    assert_eq!(stripped, input);
}
