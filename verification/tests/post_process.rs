use arto::markdown::headings::HeadingInfo;
use arto::markdown::post_process::{
    data_url, get_mime_type, heading_edits, image_data_url, image_within_base, link_edits,
    mime_type_for_extension, should_embed_image, table_edits, DocumentPass, ElementEdit,
};

fn set(name: &str, value: &str) -> ElementEdit {
    ElementEdit::SetAttribute(name.to_string(), value.to_string())
}

fn attribute<'a>(edits: &'a [ElementEdit], name: &str) -> Option<&'a str> {
    edits.iter().find_map(|e| match e {
        ElementEdit::SetAttribute(n, v) if n == name => Some(v.as_str()),
        _ => None,
    })
}

fn renames_to_span(edits: &[ElementEdit]) -> bool {
    edits.contains(&ElementEdit::SetTagName("span".to_string()))
        && edits.contains(&ElementEdit::RemoveAttribute("href".to_string()))
}

fn heading(level: u8, text: &str, id: &str) -> HeadingInfo {
    HeadingInfo {
        level,
        text: text.to_string(),
        id: id.to_string(),
    }
}

/// Single quotes in href are safely stored in data-md-link attribute
#[test]
fn test_link_single_quote_in_data_attribute() {
    let edits = link_edits("file's.md");
    assert_eq!(attribute(&edits, "data-md-link"), Some("file's.md"));
    assert!(attribute(&edits, "onmousedown").unwrap().contains("this.dataset.mdLink"));
}

/// Special chars in href cannot cause XSS with data-* attribute pattern
#[test]
fn test_link_special_chars_safe_with_data_attribute() {
    let edits = link_edits("test'-alert('xss').md");
    assert_eq!(attribute(&edits, "data-md-link"), Some("test'-alert('xss').md"));
    let handler = attribute(&edits, "onmousedown").unwrap();
    assert!(!handler.contains("handleMarkdownLinkClick('"));
    assert!(handler.contains("this.dataset.mdLink"));
}

/// Crafted href payloads cannot inject executable JavaScript.
#[test]
fn test_xss_injection_via_href_payload() {
    let edits = link_edits("evil');alert(1).md");
    assert_eq!(attribute(&edits, "data-md-link"), Some("evil');alert(1).md"));
    let handler = attribute(&edits, "onmousedown").unwrap();
    assert!(handler.contains("this.dataset.mdLink"));
    assert!(!handler.contains("handleMarkdownLinkClick('"));
    assert!(!handler.contains("alert(1)"));
}

/// HTTP image sources are left alone.
#[test]
fn test_http_urls_not_converted() {
    assert!(!should_embed_image("https://example.com/img.png"));
}

#[test]
fn test_get_mime_type() {
    assert_eq!(get_mime_type("test.png"), "image/png");
    assert_eq!(get_mime_type("test.jpg"), "image/jpeg");
    assert_eq!(get_mime_type("test.jpeg"), "image/jpeg");
    assert_eq!(get_mime_type("test.gif"), "image/gif");
    assert_eq!(get_mime_type("test.svg"), "image/svg+xml");
    assert_eq!(get_mime_type("test.webp"), "image/webp");
    assert_eq!(get_mime_type("test.bmp"), "image/bmp");
    assert_eq!(get_mime_type("test.ico"), "image/x-icon");
    assert_eq!(get_mime_type("test.unknown"), "image/png");
}

#[test]
fn mime_type_without_extension_is_png() {
    assert_eq!(get_mime_type("image"), "image/png");
    assert_eq!(mime_type_for_extension(None), "image/png");
    assert_eq!(mime_type_for_extension(Some("ico")), "image/x-icon");
}

#[test]
fn local_image_sources_are_embedded() {
    assert!(should_embed_image("test.png"));
    assert!(should_embed_image("../secret.png"));
    assert!(!should_embed_image("http://example.com/a.png"));
    assert!(!should_embed_image("data:image/png;base64,AAAA"));
}

#[test]
fn image_data_url_encodes_bytes() {
    assert_eq!(
        image_data_url("/tmp/test.png", &[0x89, 0x50, 0x4E, 0x47]),
        "data:image/png;base64,iVBORw=="
    );
    assert_eq!(image_data_url("a.gif", b"hi"), "data:image/gif;base64,aGk=");
    assert_eq!(data_url("image/bmp", "QQ=="), "data:image/bmp;base64,QQ==");
}

#[test]
fn test_post_process_html_tags_anchor() {
    let edits = link_edits("doc.md");
    assert!(renames_to_span(&edits));
    assert_eq!(attribute(&edits, "class"), Some("md-link"));
    assert_eq!(attribute(&edits, "data-md-link"), Some("doc.md"));
    assert!(attribute(&edits, "onmousedown").unwrap().contains("handleMarkdownLinkClick"));
}

#[test]
fn test_post_process_html_tags_http_urls() {
    assert!(!should_embed_image("https://example.com/image.png"));
    assert!(link_edits("https://example.com").is_empty());
}

#[test]
fn test_post_process_html_tags_non_md_local_file() {
    let edits = link_edits("file.txt");
    assert!(renames_to_span(&edits));
    assert_eq!(attribute(&edits, "class"), Some("md-link md-link-invalid"));
    assert!(attribute(&edits, "onmousedown").unwrap().contains("handleMarkdownLinkClick"));
}

#[test]
fn test_post_process_html_tags_md_vs_other_files() {
    let md = link_edits("doc.md");
    let txt = link_edits("file.txt");
    assert_eq!(attribute(&md, "class"), Some("md-link"));
    assert_eq!(attribute(&txt, "class"), Some("md-link md-link-invalid"));
    let handlers = [&md, &txt]
        .iter()
        .filter(|e| attribute(e, "onmousedown").is_some_and(|h| h.contains("handleMarkdownLinkClick")))
        .count();
    assert_eq!(handlers, 2);
}

#[test]
fn markdown_extension_counts_as_markdown() {
    assert_eq!(attribute(&link_edits("notes.markdown"), "class"), Some("md-link"));
}

#[test]
fn links_without_extension_stay_anchors() {
    assert!(link_edits("#section").is_empty());
    assert!(link_edits("folder/readme").is_empty());
    assert!(link_edits("http://example.com/doc.md").is_empty());
}

#[test]
fn test_post_process_html_with_headings_injects_ids() {
    let headings = vec![heading(1, "Title", "title"), heading(2, "Section", "section")];
    assert_eq!(heading_edits(&headings, 0), vec![set("id", "title")]);
    assert_eq!(heading_edits(&headings, 1), vec![set("id", "section")]);
}

#[test]
fn test_post_process_html_with_headings_more_html_headings_than_info() {
    let headings = vec![heading(1, "A", "a")];
    assert_eq!(heading_edits(&headings, 0), vec![set("id", "a")]);
    assert!(heading_edits(&headings, 1).is_empty());
    assert!(heading_edits(&headings, 2).is_empty());
}

#[test]
fn test_post_process_html_with_headings_empty_headings() {
    let headings: Vec<HeadingInfo> = vec![];
    assert!(heading_edits(&headings, 0).is_empty());
}

#[test]
fn table_edits_carry_source_lines() {
    let lines = vec![(3usize, 7usize), (12, 120)];
    assert_eq!(
        table_edits(&lines, 0),
        vec![set("data-source-line", "3"), set("data-source-line-end", "7")]
    );
    assert_eq!(
        table_edits(&lines, 1),
        vec![set("data-source-line", "12"), set("data-source-line-end", "120")]
    );
    assert!(table_edits(&lines, 2).is_empty());
}

#[test]
fn images_must_stay_inside_base_directory() {
    assert!(image_within_base("/tmp/t/sub/image.png", "/tmp/t/sub"));
    assert!(!image_within_base("/tmp/t/secret.png", "/tmp/t/sub"));
    // Whole path components only: a sibling directory with a longer name is outside.
    assert!(!image_within_base("/tmp/t/subdir/image.png", "/tmp/t/sub"));
}

#[test]
fn image_src_replaced_only_inside_base_and_when_read() {
    let png = [0x89u8, 0x50, 0x4E, 0x47];
    assert_eq!(
        arto::markdown::post_process::image_src_replacement(
            "image.png",
            "/tmp/t/sub",
            Some("/tmp/t/sub/image.png"),
            Some(&png),
        ),
        Some("data:image/png;base64,iVBORw==".to_string())
    );
    // Path traversal: resolved outside the base directory.
    assert_eq!(
        arto::markdown::post_process::image_src_replacement(
            "../secret.png",
            "/tmp/t/sub",
            Some("/tmp/t/secret.png"),
            Some(&png),
        ),
        None
    );
    // Not resolved, or not read.
    assert_eq!(
        arto::markdown::post_process::image_src_replacement("x.png", "/tmp", None, Some(&png)),
        None
    );
    assert_eq!(
        arto::markdown::post_process::image_src_replacement("x.png", "/tmp", Some("/tmp/x.png"), None),
        None
    );
    // Web and data sources are never replaced.
    assert_eq!(
        arto::markdown::post_process::image_src_replacement(
            "https://e.com/a.png",
            "/tmp",
            Some("/tmp/a.png"),
            Some(&png),
        ),
        None
    );
}

#[test]
fn document_pass_numbers_tables_and_headings_in_order() {
    let headings = vec![
        HeadingInfo { level: 1, text: "A".to_string(), id: "a".to_string() },
        HeadingInfo { level: 2, text: "B".to_string(), id: "b".to_string() },
    ];
    let mut pass = DocumentPass::new();
    let first = pass.on_heading(&headings);
    assert!(matches!(&first[..], [ElementEdit::SetAttribute(k, v)] if k == "id" && v == "a"));
    let second = pass.on_heading(&headings);
    assert!(matches!(&second[..], [ElementEdit::SetAttribute(k, v)] if k == "id" && v == "b"));
    assert!(pass.on_heading(&headings).is_empty());
    let tables = pass.on_table(&[(3, 5)]);
    assert_eq!(tables.len(), 2);
    assert!(pass.on_table(&[(3, 5)]).is_empty());
    let mut none = DocumentPass::new();
    assert!(none.on_heading(&[]).is_empty());
    assert_eq!(none.headings_seen, 0);
}
