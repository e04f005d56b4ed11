use arto::markdown::source_lines::{
    block_start_html, extract_table_source_lines, source_line, source_line_html, BlockQuoteKind,
    BlockStart, CodeBlockKind,
};

fn html(block: BlockStart, line: usize, line_end: usize) -> Option<String> {
    block_start_html(&block, line, line_end)
}

#[test]
fn paragraph_and_simple_blocks_carry_their_line() {
    assert_eq!(html(BlockStart::Paragraph, 1, 1).unwrap(), r#"<p data-source-line="1">"#);
    assert_eq!(html(BlockStart::Item, 2, 2).unwrap(), r#"<li data-source-line="2">"#);
    assert_eq!(html(BlockStart::Rule, 3, 3).unwrap(), "<hr data-source-line=\"3\" />\n");
    assert_eq!(html(BlockStart::TableRow, 4, 4).unwrap(), r#"<tr data-source-line="4">"#);
}

#[test]
fn heading_with_id_classes_and_attributes() {
    let block = BlockStart::Heading {
        level: 2,
        id: Some("my-id".to_string()),
        classes: vec!["my-class".to_string(), "a<b".to_string()],
        attrs: vec![
            ("data-x".to_string(), Some("say \"hi\"".to_string())),
            ("flag".to_string(), None),
        ],
    };
    assert_eq!(
        html(block, 1, 1).unwrap(),
        r#"<h2 data-source-line="1" id="my-id" class="my-class a&lt;b" data-x="say &quot;hi&quot;" flag="">"#
    );
}

#[test]
fn fenced_and_indented_code_blocks() {
    assert_eq!(
        html(BlockStart::CodeBlock(CodeBlockKind::Fenced("rust".to_string())), 1, 3).unwrap(),
        r#"<pre data-source-line="1" data-source-line-end="3" data-source-line-start="2"><code class="language-rust">"#
    );
    assert_eq!(
        html(BlockStart::CodeBlock(CodeBlockKind::Fenced(String::new())), 1, 3).unwrap(),
        r#"<pre data-source-line="1" data-source-line-end="3" data-source-line-start="2"><code>"#
    );
    assert_eq!(
        html(BlockStart::CodeBlock(CodeBlockKind::Indented), 1, 2).unwrap(),
        r#"<pre data-source-line="1" data-source-line-end="2" data-source-line-start="1"><code>"#
    );
}

#[test]
fn block_quotes_lists() {
    assert_eq!(
        html(BlockStart::BlockQuote(Some(BlockQuoteKind::Note)), 1, 2).unwrap(),
        "<blockquote data-source-line=\"1\" class=\"markdown-alert-note\">\n"
    );
    assert_eq!(html(BlockStart::BlockQuote(None), 5, 5).unwrap(), "<blockquote data-source-line=\"5\">\n");
    assert_eq!(html(BlockStart::List(None), 1, 2).unwrap(), "<ul data-source-line=\"1\">\n");
    assert_eq!(html(BlockStart::List(Some(1)), 4, 5).unwrap(), "<ol data-source-line=\"4\">\n");
    assert_eq!(html(BlockStart::List(Some(7)), 4, 5).unwrap(), "<ol start=\"7\" data-source-line=\"4\">\n");
}

#[test]
fn preprocessed_blocks_get_line_ranges() {
    let pre = r#"<pre class="preprocessed-mermaid" data-original-content="graph TD">graph TD</pre>"#;
    assert_eq!(
        html(BlockStart::Html(pre.to_string()), 3, 5).unwrap(),
        r#"<pre data-source-line="3" data-source-line-end="5" class="preprocessed-mermaid" data-original-content="graph TD">graph TD</pre>"#
    );
    let div = r#"<div class="preprocessed-math-display" data-original-content="x=1">x=1</div>"#;
    assert_eq!(
        html(BlockStart::Html(div.to_string()), 4, 6).unwrap(),
        r#"<div data-source-line="4" data-source-line-end="6" class="preprocessed-math-display" data-original-content="x=1">x=1</div>"#
    );
    assert_eq!(html(BlockStart::Html("<span>".to_string()), 1, 1), None);
}

#[test]
fn tables_and_other_events_pass_through() {
    assert_eq!(html(BlockStart::Table, 1, 3), None);
    assert_eq!(html(BlockStart::Other, 1, 1), None);
}

#[test]
fn source_lines_follow_origins_and_frontmatter() {
    let md = "a\nb\nc\n";
    assert_eq!(source_line(md, &[], 0, 2), 2);
    assert_eq!(source_line(md, &[0, 5, 6], 0, 2), 6);
    assert_eq!(source_line(md, &[], 3, 4), 6);
    assert_eq!(
        source_line_html(&BlockStart::Paragraph, 2, 4, md, &[], 0).unwrap(),
        r#"<p data-source-line="2">"#
    );
}

#[test]
fn test_extract_table_source_lines() {
    let md = "| A |\n|---|\n| 1 |\n\n| X |\n|---|\n| Y |";
    let events = vec![
        (BlockStart::Table, 0usize, 18usize),
        (BlockStart::TableRow, 0, 6),
        (BlockStart::Other, 0, 1),
        (BlockStart::Table, 19, md.len()),
    ];
    let table_lines = extract_table_source_lines(&events, md, &[], 0);
    assert_eq!(table_lines.len(), 2, "Should find two tables");
    assert_eq!(table_lines[0], (1, 3));
    assert_eq!(table_lines[1], (5, 7));
}
