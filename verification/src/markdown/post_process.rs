//! Decisions of the HTML post-processing pass.
//!
//! Rendered HTML goes through a streaming rewriter element by element. For each
//! element that the pass handles, the functions here say what to change:
//! - `<table>`: the source lines of the table, as `data-source-line` attributes
//! - `<h1>`-`<h6>`: the anchor id of the heading
//! - `<img src>`: whether a local image is embedded, and the data URL that replaces it
//! - `<a href>`: local links become spans that the viewer opens in place
//!
//! The rewriter itself, and the file system work for images, stay with the caller.
use vstd::prelude::*;

use crate::markdown::headings::{decimal_chars, spec_decimal, HeadingInfo};
use crate::text::{append_str, chars_eq, chars_of, string_from_chars};

verus! {

broadcast use vstd::seq::group_seq_axioms;

/// One change to an element.
#[derive(Debug, Clone, PartialEq, Eq)]
pub enum ElementEdit {
    /// Rename the element.
    SetTagName(String),
    /// Drop an attribute.
    RemoveAttribute(String),
    /// Set an attribute to a value.
    SetAttribute(String, String),
}

/// An edit as plain text values.
pub enum EditView {
    SetTagName(Seq<char>),
    RemoveAttribute(Seq<char>),
    SetAttribute(Seq<char>, Seq<char>),
}

impl View for ElementEdit {
    type V = EditView;

    open spec fn view(&self) -> EditView {
        match self {
            ElementEdit::SetTagName(n) => EditView::SetTagName(n@),
            ElementEdit::RemoveAttribute(n) => EditView::RemoveAttribute(n@),
            ElementEdit::SetAttribute(n, v) => EditView::SetAttribute(n@, v@),
        }
    }
}

/// The views of a list of edits.
pub open spec fn edit_views(v: Seq<ElementEdit>) -> Seq<EditView> {
    v.map_values(|e: ElementEdit| e@)
}

/// The result of `Path::extension` on the path `p`, as text: the part of the file name
/// after its last dot, when it has one that does not start it.
pub uninterp spec fn spec_path_extension(p: Seq<char>) -> Option<Seq<char>>;

/// `std::path::Path::extension` on a path given as text, converted back to text.
#[verifier::external_body]
fn path_extension(p: &str) -> (r: Option<String>)
    ensures
        match r {
            Some(e) => spec_path_extension(p@) == Some(e@),
            None => spec_path_extension(p@) is None,
        },
{
    std::path::Path::new(p).extension().and_then(|e| e.to_str()).map(|e| e.to_string())
}

/// The result of `Path::starts_with`: whether the path `p` begins with the whole
/// components of `base`.
pub uninterp spec fn spec_path_starts_with(p: Seq<char>, base: Seq<char>) -> bool;

/// `std::path::Path::starts_with` on paths given as text.
#[verifier::external_body]
fn path_starts_with(p: &str, base: &str) -> (r: bool)
    ensures
        r == spec_path_starts_with(p@, base@),
{
    std::path::Path::new(p).starts_with(std::path::Path::new(base))
}

/// The character of a six-bit value in the standard Base64 alphabet:
/// `A`-`Z`, `a`-`z`, `0`-`9`, `+`, `/`.
pub open spec fn base64_char(n: int) -> char {
    if n < 26 {
        (('A' as int) + n) as char
    } else if n < 52 {
        (('a' as int) + n - 26) as char
    } else if n < 62 {
        (('0' as int) + n - 52) as char
    } else if n == 62 {
        '+'
    } else {
        '/'
    }
}

/// The standard Base64 encoding (with padding) of `bytes`: each group of three bytes
/// becomes four characters of six bits each; a last group of one or two bytes is
/// padded with zero bits and written out to four characters with `=`.
pub open spec fn spec_base64_standard(bytes: Seq<u8>) -> Seq<char>
    decreases bytes.len(),
{
    if bytes.len() == 0 {
        Seq::empty()
    } else if bytes.len() == 1 {
        let a = bytes[0] as int;
        seq![base64_char(a / 4), base64_char((a % 4) * 16), '=', '=']
    } else if bytes.len() == 2 {
        let a = bytes[0] as int;
        let b = bytes[1] as int;
        seq![base64_char(a / 4), base64_char((a % 4) * 16 + b / 16), base64_char((b % 16) * 4), '=']
    } else {
        let a = bytes[0] as int;
        let b = bytes[1] as int;
        let c = bytes[2] as int;
        seq![base64_char(a / 4), base64_char((a % 4) * 16 + b / 16), base64_char((b % 16) * 4 + c / 64), base64_char(c % 64)]
            + spec_base64_standard(bytes.skip(3))
    }
}

/// `base64::engine::general_purpose::STANDARD.encode`: the standard alphabet, with padding,
/// as `spec_base64_standard` writes it out.
#[verifier::external_body]
fn base64_encode(data: &[u8]) -> (r: String)
    ensures
        r@ == spec_base64_standard(data@),
{
    base64::Engine::encode(&base64::engine::general_purpose::STANDARD, data)
}

/// The MIME type of an image with the given file extension; PNG when unknown.
pub open spec fn spec_mime_type(ext: Option<Seq<char>>) -> Seq<char> {
    match ext {
        Some(e) => if e == "png"@ { "image/png"@ }
            else if e == "jpg"@ || e == "jpeg"@ { "image/jpeg"@ }
            else if e == "gif"@ { "image/gif"@ }
            else if e == "svg"@ { "image/svg+xml"@ }
            else if e == "webp"@ { "image/webp"@ }
            else if e == "bmp"@ { "image/bmp"@ }
            else if e == "ico"@ { "image/x-icon"@ }
            else { "image/png"@ },
        None => "image/png"@,
    }
}

/// The MIME type for a file extension.
pub fn mime_type_for_extension(ext: Option<&str>) -> (r: &'static str)
    ensures
        r@ == spec_mime_type(match ext { Some(e) => Some(e@), None => None }),
{
    match ext {
        Some(e) => {
            let v = chars_of(e);
            let s = v.as_slice();
            if chars_eq(s, chars_of("png").as_slice()) {
                "image/png"
            } else if chars_eq(s, chars_of("jpg").as_slice()) || chars_eq(s, chars_of("jpeg").as_slice()) {
                "image/jpeg"
            } else if chars_eq(s, chars_of("gif").as_slice()) {
                "image/gif"
            } else if chars_eq(s, chars_of("svg").as_slice()) {
                "image/svg+xml"
            } else if chars_eq(s, chars_of("webp").as_slice()) {
                "image/webp"
            } else if chars_eq(s, chars_of("bmp").as_slice()) {
                "image/bmp"
            } else if chars_eq(s, chars_of("ico").as_slice()) {
                "image/x-icon"
            } else {
                "image/png"
            }
        },
        None => "image/png",
    }
}

/// Infer the MIME type of an image from the extension of its path.
pub fn get_mime_type(path: &str) -> (r: &'static str)
    ensures
        r@ == spec_mime_type(spec_path_extension(path@)),
{
    let ext = path_extension(path);
    match ext {
        Some(e) => mime_type_for_extension(Some(e.as_str())),
        None => mime_type_for_extension(None),
    }
}

/// Whether `s` begins with `prefix`.
pub open spec fn has_prefix(s: Seq<char>, prefix: Seq<char>) -> bool {
    prefix.len() <= s.len() && s.take(prefix.len() as int) == prefix
}

/// Whether `s` begins with the characters of `prefix`.
fn starts_with(s: &[char], prefix: &str) -> (r: bool)
    ensures
        r == has_prefix(s@, prefix@),
{
    let p = chars_of(prefix);
    if p.len() > s.len() {
        return false;
    }
    let mut i: usize = 0;
    while i < p.len()
        invariant
            p@ == prefix@,
            p@.len() <= s@.len(),
            i <= p@.len(),
            forall|j: int| 0 <= j < i ==> s@[j] == p@[j],
        decreases p@.len() - i,
    {
        if s[i] != p[i] {
            assert(s@.take(p@.len() as int)[i as int] != p@[i as int]);
            return false;
        }
        i += 1;
    }
    assert(s@.take(p@.len() as int) =~= p@);
    true
}

/// Whether a link or image source points to the web.
pub open spec fn is_web_url(s: Seq<char>) -> bool {
    has_prefix(s, "http://"@) || has_prefix(s, "https://"@)
}

/// Whether an image source is a local path that may be embedded: not a web URL and
/// not already a data URL.
pub open spec fn spec_should_embed_image(src: Seq<char>) -> bool {
    !is_web_url(src) && !has_prefix(src, "data:"@)
}

/// Whether the image source is a local path to embed.
pub fn should_embed_image(src: &str) -> (r: bool)
    ensures
        r == spec_should_embed_image(src@),
{
    let s = chars_of(src);
    !starts_with(s.as_slice(), "http://") && !starts_with(s.as_slice(), "https://")
        && !starts_with(s.as_slice(), "data:")
}

/// Whether an image, once its path is resolved, lies inside the document's directory.
/// Images outside it are never read, so a link cannot reach files by `..`.
pub fn image_within_base(canonical_path: &str, canonical_base: &str) -> (r: bool)
    ensures
        r == spec_path_starts_with(canonical_path@, canonical_base@),
{
    path_starts_with(canonical_path, canonical_base)
}

/// A data URL: `data:`, the MIME type, `;base64,` and the encoded bytes.
pub open spec fn spec_data_url(mime: Seq<char>, encoded: Seq<char>) -> Seq<char> {
    "data:"@ + mime + ";base64,"@ + encoded
}

/// Build a data URL from a MIME type and Base64 text.
pub fn data_url(mime: &str, encoded: &str) -> (r: String)
    ensures
        r@ == spec_data_url(mime@, encoded@),
{
    let mut out: Vec<char> = Vec::new();
    append_str(&mut out, "data:");
    append_str(&mut out, mime);
    append_str(&mut out, ";base64,");
    append_str(&mut out, encoded);
    string_from_chars(out.as_slice())
}

/// The data URL that replaces the source of the image read from `path`.
pub fn image_data_url(path: &str, data: &[u8]) -> (r: String)
    ensures
        r@ == spec_data_url(spec_mime_type(spec_path_extension(path@)), spec_base64_standard(data@)),
{
    let mime = get_mime_type(path);
    let encoded = base64_encode(data);
    data_url(mime, encoded.as_str())
}

/// The new `src` of an image, given what resolving and reading it gave: a data URL of
/// the bytes read, only for a local source whose canonical path lies inside the
/// document's canonical directory and could be read; otherwise `None`, and the
/// source stays as written.
pub open spec fn spec_image_src_replacement(
    src: Seq<char>,
    canonical_base: Seq<char>,
    canonical_path: Option<Seq<char>>,
    data: Option<Seq<u8>>,
) -> Option<Seq<char>> {
    match (canonical_path, data) {
        (Some(p), Some(d)) => if spec_should_embed_image(src) && spec_path_starts_with(p, canonical_base) {
            Some(spec_data_url(spec_mime_type(spec_path_extension(p)), spec_base64_standard(d)))
        } else {
            None
        },
        _ => None,
    }
}

/// The replacement for an image's `src`: `canonical_path` is what the source resolved
/// to (if it did), and `data` what reading it gave (if it was read).
pub fn image_src_replacement(
    src: &str,
    canonical_base: &str,
    canonical_path: Option<&str>,
    data: Option<&[u8]>,
) -> (r: Option<String>)
    ensures
        match r {
            Some(s) => spec_image_src_replacement(
                src@,
                canonical_base@,
                match canonical_path { Some(p) => Some(p@), None => None },
                match data { Some(d) => Some(d@), None => None },
            ) == Some(s@),
            None => spec_image_src_replacement(
                src@,
                canonical_base@,
                match canonical_path { Some(p) => Some(p@), None => None },
                match data { Some(d) => Some(d@), None => None },
            ) is None,
        },
{
    match (canonical_path, data) {
        (Some(p), Some(d)) => {
            if should_embed_image(src) && image_within_base(p, canonical_base) {
                Some(image_data_url(p, d))
            } else {
                None
            }
        },
        _ => None,
    }
}

/// The click handler of a converted link. It reads the target from the element's
/// `data-md-link` attribute, so the link text never becomes script.
pub open spec fn spec_link_handler() -> Seq<char> {
    "if(event.button===0||event.button===1){event.preventDefault();window.handleMarkdownLinkClick(this.dataset.mdLink,event.button)}"@
}

/// The class of a converted link: Markdown files open in place, others are marked invalid.
pub open spec fn spec_link_class(ext: Seq<char>) -> Seq<char> {
    if ext != "md"@ && ext != "markdown"@ { "md-link md-link-invalid"@ } else { "md-link"@ }
}

/// The edits for a link with target `href` whose path has extension `ext`: web links and
/// targets without an extension stay as they are; others become a `span` that keeps the
/// target in `data-md-link`.
pub open spec fn spec_link_edits(href: Seq<char>, ext: Option<Seq<char>>) -> Seq<EditView> {
    if is_web_url(href) {
        Seq::empty()
    } else {
        match ext {
            Some(e) => seq![
                EditView::SetTagName("span"@),
                EditView::RemoveAttribute("href"@),
                EditView::SetAttribute("data-md-link"@, href),
                EditView::SetAttribute("class"@, spec_link_class(e)),
                EditView::SetAttribute("onmousedown"@, spec_link_handler()),
            ],
            None => Seq::empty(),
        }
    }
}

/// The edits for a link, given the extension of its target.
pub fn link_edits_for(href: &str, ext: Option<&str>) -> (r: Vec<ElementEdit>)
    ensures
        edit_views(r@) == spec_link_edits(href@, match ext { Some(e) => Some(e@), None => None }),
{
    let mut edits: Vec<ElementEdit> = Vec::new();
    let h = chars_of(href);
    if starts_with(h.as_slice(), "http://") || starts_with(h.as_slice(), "https://") {
        assert(edit_views(edits@) =~= Seq::<EditView>::empty());
        return edits;
    }
    match ext {
        Some(e) => {
            let ev = chars_of(e);
            let is_markdown = chars_eq(ev.as_slice(), chars_of("md").as_slice())
                || chars_eq(ev.as_slice(), chars_of("markdown").as_slice());
            let class = if is_markdown { "md-link" } else { "md-link md-link-invalid" };
            edits.push(ElementEdit::SetTagName("span".to_owned()));
            edits.push(ElementEdit::RemoveAttribute("href".to_owned()));
            edits.push(ElementEdit::SetAttribute("data-md-link".to_owned(), href.to_owned()));
            edits.push(ElementEdit::SetAttribute("class".to_owned(), class.to_owned()));
            edits.push(ElementEdit::SetAttribute(
                "onmousedown".to_owned(),
                "if(event.button===0||event.button===1){event.preventDefault();window.handleMarkdownLinkClick(this.dataset.mdLink,event.button)}".to_owned(),
            ));
            assert(edit_views(edits@) =~= spec_link_edits(href@, Some(e@)));
            edits
        },
        None => {
            assert(edit_views(edits@) =~= Seq::<EditView>::empty());
            edits
        },
    }
}

/// The edits for a link with target `href`.
pub fn link_edits(href: &str) -> (r: Vec<ElementEdit>)
    ensures
        edit_views(r@) == spec_link_edits(href@, spec_path_extension(href@)),
{
    let ext = path_extension(href);
    match ext {
        Some(e) => link_edits_for(href, Some(e.as_str())),
        None => link_edits_for(href, None),
    }
}

/// The edits for the `index`-th table of the document: its first and last source
/// lines, when known.
pub open spec fn spec_table_edits(lines: Seq<(usize, usize)>, index: int) -> Seq<EditView> {
    if 0 <= index < lines.len() {
        seq![
            EditView::SetAttribute("data-source-line"@, spec_decimal(lines[index].0 as nat)),
            EditView::SetAttribute("data-source-line-end"@, spec_decimal(lines[index].1 as nat)),
        ]
    } else {
        Seq::empty()
    }
}

/// The edits for the `index`-th table of the document.
pub fn table_edits(table_source_lines: &[(usize, usize)], index: usize) -> (r: Vec<ElementEdit>)
    ensures
        edit_views(r@) == spec_table_edits(table_source_lines@, index as int),
{
    let mut edits: Vec<ElementEdit> = Vec::new();
    if index < table_source_lines.len() {
        let (start, end) = table_source_lines[index];
        let s = decimal_chars(start);
        let e = decimal_chars(end);
        edits.push(ElementEdit::SetAttribute("data-source-line".to_owned(), string_from_chars(s.as_slice())));
        edits.push(ElementEdit::SetAttribute("data-source-line-end".to_owned(), string_from_chars(e.as_slice())));
        assert(edit_views(edits@) =~= spec_table_edits(table_source_lines@, index as int));
    } else {
        assert(edit_views(edits@) =~= Seq::<EditView>::empty());
    }
    edits
}

/// The edits for the `index`-th heading of the document: the anchor id of the heading
/// information at that index, when there is one.
pub open spec fn spec_heading_edits(headings: Seq<HeadingInfo>, index: int) -> Seq<EditView> {
    if 0 <= index < headings.len() {
        seq![EditView::SetAttribute("id"@, headings[index].id@)]
    } else {
        Seq::empty()
    }
}

/// The edits for the `index`-th heading of the document.
pub fn heading_edits(headings: &[HeadingInfo], index: usize) -> (r: Vec<ElementEdit>)
    ensures
        edit_views(r@) == spec_heading_edits(headings@, index as int),
{
    let mut edits: Vec<ElementEdit> = Vec::new();
    if index < headings.len() {
        edits.push(ElementEdit::SetAttribute("id".to_owned(), headings[index].id.clone()));
        assert(edit_views(edits@) =~= spec_heading_edits(headings@, index as int));
    } else {
        assert(edit_views(edits@) =~= Seq::<EditView>::empty());
    }
    edits
}

/// The walk over a document's elements in document order: how many tables and headings
/// it has met so far.
pub struct DocumentPass {
    pub tables_seen: usize,
    pub headings_seen: usize,
}

impl DocumentPass {
    /// The walk at the start of a document.
    pub fn new() -> (p: DocumentPass)
        ensures
            p.tables_seen == 0,
            p.headings_seen == 0,
    {
        DocumentPass { tables_seen: 0, headings_seen: 0 }
    }

    /// The edits for the next table: the source lines at its position among the tables.
    pub fn on_table(&mut self, table_source_lines: &[(usize, usize)]) -> (r: Vec<ElementEdit>)
        requires
            old(self).tables_seen < usize::MAX,
        ensures
            edit_views(r@) == spec_table_edits(table_source_lines@, old(self).tables_seen as int),
            final(self).tables_seen == old(self).tables_seen + 1,
            final(self).headings_seen == old(self).headings_seen,
    {
        let edits = table_edits(table_source_lines, self.tables_seen);
        self.tables_seen = self.tables_seen + 1;
        edits
    }

    /// The edits for the next heading element: the `i`-th heading of the document takes
    /// the id of the `i`-th heading information, and headings past the end take nothing.
    /// With no heading information at all, headings are not counted.
    pub fn on_heading(&mut self, headings: &[HeadingInfo]) -> (r: Vec<ElementEdit>)
        requires
            old(self).headings_seen < usize::MAX,
        ensures
            edit_views(r@) == spec_heading_edits(headings@, old(self).headings_seen as int),
            final(self).tables_seen == old(self).tables_seen,
            final(self).headings_seen == if headings@.len() == 0 {
                old(self).headings_seen as int
            } else {
                old(self).headings_seen + 1
            },
    {
        if headings.len() == 0 {
            let edits: Vec<ElementEdit> = Vec::new();
            assert(edit_views(edits@) =~= spec_heading_edits(headings@, self.headings_seen as int));
            return edits;
        }
        let edits = heading_edits(headings, self.headings_seen);
        self.headings_seen = self.headings_seen + 1;
        edits
    }
}

} // verus!
