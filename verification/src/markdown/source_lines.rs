//! Source line numbers for rendered Markdown: mapping byte offsets to line numbers,
//! and the opening tags of block elements that carry `data-source-line` attributes.
use vstd::prelude::*;

use crate::markdown::headings::{decimal_chars, spec_decimal};
use crate::text::{append_chars, append_str, chars_of, string_from_chars};
use vstd::string::StringSliceAdditionalSpecFns;
use vstd::utf8::is_char_boundary;

verus! {

broadcast use vstd::seq::group_seq_axioms;

/// Number of newline bytes in `b`.
pub open spec fn count_newlines(b: Seq<u8>) -> nat
    decreases b.len(),
{
    if b.len() == 0 {
        0
    } else {
        count_newlines(b.drop_last()) + if b.last() == 10u8 { 1nat } else { 0nat }
    }
}

/// The offset clamped to the length of the text.
pub open spec fn clamp_offset(offset: int, len: int) -> int {
    if offset < len { offset } else { len }
}

/// Newlines never outnumber bytes.
proof fn lemma_count_newlines_le(b: Seq<u8>)
    ensures
        count_newlines(b) <= b.len(),
    decreases b.len(),
{
    if b.len() > 0 {
        lemma_count_newlines_le(b.drop_last());
    }
}

/// Lines never go back: a later offset in the same text falls on the same line or a later one.
pub proof fn lemma_line_non_decreasing(text: Seq<u8>, a: int, b: int)
    requires
        0 <= a <= b,
    ensures
        count_newlines(text.take(clamp_offset(a, text.len() as int)))
            <= count_newlines(text.take(clamp_offset(b, text.len() as int))),
    decreases b - a,
{
    let ca = clamp_offset(a, text.len() as int);
    let cb = clamp_offset(b, text.len() as int);
    if ca < cb {
        lemma_line_non_decreasing(text, a, cb - 1);
        assert(text.take(cb).drop_last() =~= text.take(cb - 1));
        assert(clamp_offset(cb - 1, text.len() as int) == cb - 1);
    }
}

/// Convert a byte offset in text to a 1-based line number; offsets past the end count
/// as the end. The offset, once clamped, must fall on a character boundary, and the
/// text's length must leave room for one more in a `usize`.
pub fn byte_offset_to_line(text: &str, offset: usize) -> (r: usize)
    requires
        text.spec_bytes().len() < usize::MAX,
        is_char_boundary(text.spec_bytes(), clamp_offset(offset as int, text.spec_bytes().len() as int)),
    ensures
        r == count_newlines(text.spec_bytes().take(clamp_offset(offset as int, text.spec_bytes().len() as int))) + 1,
{
    let bytes = text.as_bytes();
    let clamped = if offset < bytes.len() { offset } else { bytes.len() };
    let ghost b = bytes@;
    let mut count: usize = 0;
    let mut i: usize = 0;
    assert(b.take(0) =~= Seq::<u8>::empty());
    while i < clamped
        invariant
            b == bytes@,
            clamped <= b.len(),
            i <= clamped,
            count == count_newlines(b.take(i as int)),
            b.len() < usize::MAX,
        decreases clamped - i,
    {
        assert(b.take(i + 1).drop_last() =~= b.take(i as int));
        proof {
            lemma_count_newlines_le(b.take(i as int));
        }
        if bytes[i] == 10u8 {
            count += 1;
        }
        i += 1;
    }
    proof {
        lemma_count_newlines_le(b.take(i as int));
    }
    count + 1
}

// ---------------------------------------------------------------------------
// HTML escaping
// ---------------------------------------------------------------------------

/// How `html_escape` writes a character in text: `&`, `<` and `>` as entities, and,
/// in a double-quoted attribute, `"` as well; other characters as they are.
pub open spec fn spec_escape_char(c: char, in_attribute: bool) -> Seq<char> {
    if c == '&' {
        "&amp;"@
    } else if c == '<' {
        "&lt;"@
    } else if c == '>' {
        "&gt;"@
    } else if in_attribute && c == '"' {
        "&quot;"@
    } else {
        seq![c]
    }
}

/// Text with every character escaped as `spec_escape_char` says.
pub open spec fn spec_escape(s: Seq<char>, in_attribute: bool) -> Seq<char>
    decreases s.len(),
{
    if s.len() == 0 {
        Seq::empty()
    } else {
        spec_escape(s.drop_last(), in_attribute) + spec_escape_char(s.last(), in_attribute)
    }
}

/// `html_escape::encode_text`: `&`, `<` and `>` become `&amp;`, `&lt;` and `&gt;`;
/// everything else is kept.
#[verifier::external_body]
fn encode_text(s: &str) -> (r: String)
    ensures
        r@ == spec_escape(s@, false),
{
    html_escape::encode_text(s).into_owned()
}

/// `html_escape::encode_double_quoted_attribute`: as `encode_text`, and `"` becomes `&quot;`.
#[verifier::external_body]
fn encode_double_quoted_attribute(s: &str) -> (r: String)
    ensures
        r@ == spec_escape(s@, true),
{
    html_escape::encode_double_quoted_attribute(s).into_owned()
}

// ---------------------------------------------------------------------------
// Block starts
// ---------------------------------------------------------------------------

/// How a code block is written.
#[derive(Debug, Clone, PartialEq, Eq)]
pub enum CodeBlockKind {
    /// Between fences, with the info string's language (possibly empty).
    Fenced(String),
    /// Indented by four spaces.
    Indented,
}

/// The kind of a GitHub alert block quote.
#[derive(Debug, Clone, Copy, PartialEq, Eq, Structural)]
pub enum BlockQuoteKind {
    Note,
    Tip,
    Important,
    Warning,
    Caution,
}

/// A Markdown parser event, as far as source-line annotation reads it: the starts of
/// the block elements that get a line number, an HTML event, a table start, or any
/// other event.
#[derive(Debug, Clone, PartialEq, Eq)]
pub enum BlockStart {
    Paragraph,
    Heading { level: u8, id: Option<String>, classes: Vec<String>, attrs: Vec<(String, Option<String>)> },
    CodeBlock(CodeBlockKind),
    BlockQuote(Option<BlockQuoteKind>),
    List(Option<u64>),
    Item,
    Rule,
    Html(String),
    Table,
    TableRow,
    Other,
}

/// ` name="value"`.
pub open spec fn spec_attr(name: Seq<char>, value: Seq<char>) -> Seq<char> {
    seq![' '] + name + "=\""@ + value + seq!['"']
}

/// The classes of a heading, escaped as text and joined with spaces.
pub open spec fn spec_class_list(classes: Seq<String>) -> Seq<char>
    decreases classes.len(),
{
    if classes.len() == 0 {
        Seq::empty()
    } else if classes.len() == 1 {
        spec_escape(classes[0]@, false)
    } else {
        spec_class_list(classes.drop_last()) + seq![' '] + spec_escape(classes.last()@, false)
    }
}

/// The extra attributes of a heading: each name escaped as text, each value as a
/// double-quoted attribute, a missing value as empty.
pub open spec fn spec_heading_attrs(attrs: Seq<(String, Option<String>)>) -> Seq<char>
    decreases attrs.len(),
{
    if attrs.len() == 0 {
        Seq::empty()
    } else {
        let (name, value) = attrs.last();
        spec_heading_attrs(attrs.drop_last()) + spec_attr(
            spec_escape(name@, false),
            match value {
                Some(v) => spec_escape(v@, true),
                None => Seq::empty(),
            },
        )
    }
}

/// The CSS class of an alert block quote.
pub open spec fn spec_alert_class(kind: BlockQuoteKind) -> Seq<char> {
    match kind {
        BlockQuoteKind::Note => "markdown-alert-note"@,
        BlockQuoteKind::Tip => "markdown-alert-tip"@,
        BlockQuoteKind::Important => "markdown-alert-important"@,
        BlockQuoteKind::Warning => "markdown-alert-warning"@,
        BlockQuoteKind::Caution => "markdown-alert-caution"@,
    }
}

/// Whether `s` begins with `prefix`.
pub open spec fn begins_with(s: Seq<char>, prefix: Seq<char>) -> bool {
    prefix.len() <= s.len() && s.take(prefix.len() as int) == prefix
}

/// ` data-source-line="line"`.
pub open spec fn spec_line_attr(line: usize) -> Seq<char> {
    spec_attr("data-source-line"@, spec_decimal(line as nat))
}

/// The HTML that replaces a block start whose source spans lines `line` to `line_end`;
/// `None` where the event passes through unchanged (table starts, other HTML, inline
/// events).
pub open spec fn spec_block_start_html(block: BlockStart, line: usize, line_end: usize) -> Option<Seq<char>> {
    let range = spec_line_attr(line) + spec_attr("data-source-line-end"@, spec_decimal(line_end as nat));
    match block {
        BlockStart::Paragraph => Some("<p"@ + spec_line_attr(line) + ">"@),
        BlockStart::Heading { level, id, classes, attrs } => Some(
            "<h"@ + spec_decimal(level as nat) + spec_line_attr(line)
                + match id {
                    Some(i) => spec_attr("id"@, spec_escape(i@, true)),
                    None => Seq::empty(),
                }
                + if classes@.len() > 0 { spec_attr("class"@, spec_class_list(classes@)) } else { Seq::empty() }
                + spec_heading_attrs(attrs@) + ">"@,
        ),
        BlockStart::CodeBlock(kind) => {
            let start = match kind {
                CodeBlockKind::Fenced(_) => line + 1,
                CodeBlockKind::Indented => line as int,
            };
            let lang = match kind {
                CodeBlockKind::Fenced(l) => if l@.len() > 0 {
                    spec_attr("class"@, "language-"@ + spec_escape(l@, true))
                } else {
                    Seq::empty()
                },
                CodeBlockKind::Indented => Seq::empty(),
            };
            Some("<pre"@ + range + spec_attr("data-source-line-start"@, spec_decimal(start as nat)) + "><code"@ + lang + ">"@)
        },
        BlockStart::BlockQuote(kind) => Some(
            "<blockquote"@ + spec_line_attr(line)
                + match kind {
                    Some(k) => spec_attr("class"@, spec_alert_class(k)),
                    None => Seq::empty(),
                } + ">\n"@,
        ),
        BlockStart::List(start) => Some(match start {
            Some(n) => if n == 1 {
                "<ol"@ + spec_line_attr(line) + ">\n"@
            } else {
                "<ol"@ + spec_attr("start"@, spec_decimal(n as nat)) + spec_line_attr(line) + ">\n"@
            },
            None => "<ul"@ + spec_line_attr(line) + ">\n"@,
        }),
        BlockStart::Item => Some("<li"@ + spec_line_attr(line) + ">"@),
        BlockStart::Rule => Some("<hr"@ + spec_line_attr(line) + " />\n"@),
        BlockStart::Html(h) => if begins_with(h@, "<pre class=\"preprocessed-"@) {
            Some("<pre"@ + range + seq![' '] + h@.skip(5))
        } else if begins_with(h@, "<div class=\"preprocessed-math-display\""@) {
            Some("<div"@ + range + seq![' '] + h@.skip(5))
        } else {
            None
        },
        BlockStart::Table => None,
        BlockStart::TableRow => Some("<tr"@ + spec_line_attr(line) + ">"@),
        BlockStart::Other => None,
    }
}

/// The decimal digits of `n`.
fn decimal_u64(n: u64) -> (r: Vec<char>)
    ensures
        r@ == spec_decimal(n as nat),
    decreases n,
{
    let d = n % 10;
    let c = if d == 0 { '0' } else if d == 1 { '1' } else if d == 2 { '2' } else if d == 3 { '3' }
        else if d == 4 { '4' } else if d == 5 { '5' } else if d == 6 { '6' } else if d == 7 { '7' }
        else if d == 8 { '8' } else { '9' };
    let mut v = if n < 10 { Vec::new() } else { decimal_u64(n / 10) };
    v.push(c);
    v
}

/// Append ` name="value"`.
fn push_attr(out: &mut Vec<char>, name: &str, value: &[char])
    ensures
        final(out)@ == old(out)@ + spec_attr(name@, value@),
{
    out.push(' ');
    append_str(out, name);
    append_str(out, "=\"");
    append_chars(out, value);
    out.push('"');
    proof {
        reveal_strlit("=\"");
    }
    assert(final(out)@ =~= old(out)@ + spec_attr(name@, value@));
}

/// Whether `s` begins with the characters of `prefix`.
fn has_prefix(s: &[char], prefix: &str) -> (r: bool)
    ensures
        r == begins_with(s@, prefix@),
{
    let p = chars_of(prefix);
    if p.len() > s.len() {
        return false;
    }
    let mut i: usize = 0;
    while i < p.len()
        invariant
            p@ == prefix@,
            p@.len() <= s@.len(),
            i <= p@.len(),
            forall|j: int| 0 <= j < i ==> s@[j] == p@[j],
        decreases p@.len() - i,
    {
        if s[i] != p[i] {
            assert(s@.take(p@.len() as int)[i as int] != p@[i as int]);
            return false;
        }
        i += 1;
    }
    assert(s@.take(p@.len() as int) =~= p@);
    true
}

/// The heading's class list.
fn class_list(classes: &[String]) -> (r: Vec<char>)
    ensures
        r@ == spec_class_list(classes@),
{
    let mut out: Vec<char> = Vec::new();
    let mut i: usize = 0;
    assert(classes@.take(0) =~= Seq::<String>::empty());
    while i < classes.len()
        invariant
            i <= classes@.len(),
            out@ == spec_class_list(classes@.take(i as int)),
        decreases classes@.len() - i,
    {
        assert(classes@.take(i + 1).drop_last() =~= classes@.take(i as int));
        let e = encode_text(classes[i].as_str());
        if i > 0 {
            out.push(' ');
        } else {
            assert(classes@.take(1) =~= seq![classes@[0]]);
        }
        append_str(&mut out, e.as_str());
        i += 1;
    }
    assert(classes@.take(classes@.len() as int) =~= classes@);
    out
}

/// The heading's extra attributes.
fn heading_attrs(attrs: &[(String, Option<String>)]) -> (r: Vec<char>)
    ensures
        r@ == spec_heading_attrs(attrs@),
{
    let mut out: Vec<char> = Vec::new();
    let mut i: usize = 0;
    assert(attrs@.take(0) =~= Seq::<(String, Option<String>)>::empty());
    while i < attrs.len()
        invariant
            i <= attrs@.len(),
            out@ == spec_heading_attrs(attrs@.take(i as int)),
        decreases attrs@.len() - i,
    {
        assert(attrs@.take(i + 1).drop_last() =~= attrs@.take(i as int));
        let (name, value) = &attrs[i];
        let n = encode_text(name.as_str());
        let v: Vec<char> = match value {
            Some(v) => chars_of(encode_double_quoted_attribute(v.as_str()).as_str()),
            None => Vec::new(),
        };
        let nc = chars_of(n.as_str());
        let ghost before = out@;
        out.push(' ');
        append_chars(&mut out, nc.as_slice());
        append_str(&mut out, "=\"");
        append_chars(&mut out, v.as_slice());
        out.push('"');
        proof {
            reveal_strlit("=\"");
        }
        assert(out@ =~= before + spec_attr(nc@, v@));
        i += 1;
    }
    assert(attrs@.take(attrs@.len() as int) =~= attrs@);
    out
}

/// The HTML that replaces a block start whose source spans lines `line` to
/// `line_end`, or `None` where the event passes through unchanged. The `data-source-line`
/// attributes tie each block to its place in the source.
pub fn block_start_html(block: &BlockStart, line: usize, line_end: usize) -> (r: Option<String>)
    requires
        block matches BlockStart::CodeBlock(CodeBlockKind::Fenced(_)) ==> line < usize::MAX,
    ensures
        match r {
            Some(h) => spec_block_start_html(*block, line, line_end) == Some(h@),
            None => spec_block_start_html(*block, line, line_end) is None,
        },
{
    proof {
        reveal_strlit("<p");
        reveal_strlit(">");
    }
    let ld = decimal_chars(line);
    let ed = decimal_chars(line_end);
    let mut out: Vec<char> = Vec::new();
    match block {
        BlockStart::Paragraph => {
            append_str(&mut out, "<p");
            push_attr(&mut out, "data-source-line", ld.as_slice());
            append_str(&mut out, ">");
        },
        BlockStart::Heading { level, id, classes, attrs } => {
            append_str(&mut out, "<h");
            let lv = decimal_u64(*level as u64);
            append_chars(&mut out, lv.as_slice());
            push_attr(&mut out, "data-source-line", ld.as_slice());
            if let Some(i) = id {
                let e = chars_of(encode_double_quoted_attribute(i.as_str()).as_str());
                push_attr(&mut out, "id", e.as_slice());
            }
            if classes.len() > 0 {
                let c = class_list(classes.as_slice());
                push_attr(&mut out, "class", c.as_slice());
            }
            let a = heading_attrs(attrs.as_slice());
            append_chars(&mut out, a.as_slice());
            append_str(&mut out, ">");
        },
        BlockStart::CodeBlock(kind) => {
            let start = match kind {
                CodeBlockKind::Fenced(_) => line + 1,
                CodeBlockKind::Indented => line,
            };
            let sd = decimal_chars(start);
            append_str(&mut out, "<pre");
            push_attr(&mut out, "data-source-line", ld.as_slice());
            push_attr(&mut out, "data-source-line-end", ed.as_slice());
            push_attr(&mut out, "data-source-line-start", sd.as_slice());
            append_str(&mut out, "><code");
            if let CodeBlockKind::Fenced(l) = kind {
                if !l.as_str().is_empty() {
                    let mut v: Vec<char> = Vec::new();
                    append_str(&mut v, "language-");
                    append_str(&mut v, encode_double_quoted_attribute(l.as_str()).as_str());
                    push_attr(&mut out, "class", v.as_slice());
                }
            }
            append_str(&mut out, ">");
        },
        BlockStart::BlockQuote(kind) => {
            append_str(&mut out, "<blockquote");
            push_attr(&mut out, "data-source-line", ld.as_slice());
            if let Some(k) = kind {
                let class = match k {
                    BlockQuoteKind::Note => "markdown-alert-note",
                    BlockQuoteKind::Tip => "markdown-alert-tip",
                    BlockQuoteKind::Important => "markdown-alert-important",
                    BlockQuoteKind::Warning => "markdown-alert-warning",
                    BlockQuoteKind::Caution => "markdown-alert-caution",
                };
                let c = chars_of(class);
                push_attr(&mut out, "class", c.as_slice());
            }
            append_str(&mut out, ">\n");
        },
        BlockStart::List(start) => {
            match start {
                Some(n) => {
                    append_str(&mut out, "<ol");
                    if *n != 1 {
                        let nd = decimal_u64(*n);
                        push_attr(&mut out, "start", nd.as_slice());
                    }
                },
                None => append_str(&mut out, "<ul"),
            }
            push_attr(&mut out, "data-source-line", ld.as_slice());
            append_str(&mut out, ">\n");
        },
        BlockStart::Item => {
            append_str(&mut out, "<li");
            push_attr(&mut out, "data-source-line", ld.as_slice());
            append_str(&mut out, ">");
        },
        BlockStart::Rule => {
            append_str(&mut out, "<hr");
            push_attr(&mut out, "data-source-line", ld.as_slice());
            append_str(&mut out, " />\n");
        },
        BlockStart::Html(h) => {
            let hc = chars_of(h.as_str());
            let is_pre = has_prefix(hc.as_slice(), "<pre class=\"preprocessed-");
            let is_div = !is_pre && has_prefix(hc.as_slice(), "<div class=\"preprocessed-math-display\"");
            if !is_pre && !is_div {
                return None;
            }
            proof {
                reveal_strlit("<pre class=\"preprocessed-");
                reveal_strlit("<div class=\"preprocessed-math-display\"");
            }
            append_str(&mut out, if is_pre { "<pre" } else { "<div" });
            push_attr(&mut out, "data-source-line", ld.as_slice());
            push_attr(&mut out, "data-source-line-end", ed.as_slice());
            out.push(' ');
            let mut k: usize = 5;
            let ghost before = out@;
            while k < hc.len()
                invariant
                    5 <= k <= hc@.len(),
                    out@ == before + hc@.subrange(5, k as int),
                decreases hc@.len() - k,
            {
                out.push(hc[k]);
                assert(hc@.subrange(5, k + 1) =~= hc@.subrange(5, k as int).push(hc@[k as int]));
                k += 1;
            }
            assert(hc@.subrange(5, hc@.len() as int) =~= hc@.skip(5));
        },
        BlockStart::Table => {
            return None;
        },
        BlockStart::TableRow => {
            append_str(&mut out, "<tr");
            push_attr(&mut out, "data-source-line", ld.as_slice());
            append_str(&mut out, ">");
        },
        BlockStart::Other => {
            return None;
        },
    }
    Some(string_from_chars(out.as_slice()))
}

/// The last byte offset of a span `start..end`: one before its end, but not before its start.
pub open spec fn spec_span_last(start: usize, end: usize) -> usize {
    let e = if end >= 1 { (end - 1) as usize } else { 0usize };
    if e >= start { e } else { start }
}

/// The 1-based line of the original document for a byte offset into the processed
/// Markdown: its 0-based line there, mapped back through `origins` where they reach
/// (lines past them map to themselves), then shifted past the frontmatter's lines.
pub open spec fn spec_source_line(processed: Seq<u8>, origins: Seq<usize>, frontmatter_lines: usize, offset: usize) -> int {
    let p = count_newlines(processed.take(clamp_offset(offset as int, processed.len() as int))) as int;
    let orig = if p < origins.len() { origins[p] as int } else { p };
    orig + 1 + frontmatter_lines
}

/// Whether the line of `offset` can be computed: the clamped offset is a character
/// boundary, and the text's length and the resulting line fit in a `usize`.
pub open spec fn source_line_ok(processed: &str, origins: Seq<usize>, frontmatter_lines: usize, offset: usize) -> bool {
    &&& processed.spec_bytes().len() < usize::MAX
    &&& is_char_boundary(processed.spec_bytes(), clamp_offset(offset as int, processed.spec_bytes().len() as int))
    &&& spec_source_line(processed.spec_bytes(), origins, frontmatter_lines, offset) <= usize::MAX
}

/// The original 1-based line for a byte offset into the processed Markdown.
pub fn source_line(processed_markdown: &str, line_origins: &[usize], frontmatter_lines: usize, byte_offset: usize) -> (r: usize)
    requires
        source_line_ok(processed_markdown, line_origins@, frontmatter_lines, byte_offset),
    ensures
        r == spec_source_line(processed_markdown.spec_bytes(), line_origins@, frontmatter_lines, byte_offset),
{
    let processed_line = byte_offset_to_line(processed_markdown, byte_offset) - 1;
    let original_line = if processed_line < line_origins.len() { line_origins[processed_line] } else { processed_line };
    original_line + 1 + frontmatter_lines
}

/// The HTML that replaces the parser event for `block` over the source span
/// `start..end` of the processed Markdown, with lines mapped back to the original
/// document; `None` where the event passes through unchanged.
pub fn source_line_html(
    block: &BlockStart,
    start: usize,
    end: usize,
    processed_markdown: &str,
    line_origins: &[usize],
    frontmatter_lines: usize,
) -> (r: Option<String>)
    requires
        source_line_ok(processed_markdown, line_origins@, frontmatter_lines, start),
        source_line_ok(processed_markdown, line_origins@, frontmatter_lines, spec_span_last(start, end)),
        block matches BlockStart::CodeBlock(CodeBlockKind::Fenced(_))
            ==> spec_source_line(processed_markdown.spec_bytes(), line_origins@, frontmatter_lines, start) < usize::MAX,
    ensures
        ({
            let b = processed_markdown.spec_bytes();
            let line = spec_source_line(b, line_origins@, frontmatter_lines, start) as usize;
            let line_end = spec_source_line(b, line_origins@, frontmatter_lines, spec_span_last(start, end)) as usize;
            match r {
                Some(h) => spec_block_start_html(*block, line, line_end) == Some(h@),
                None => spec_block_start_html(*block, line, line_end) is None,
            }
        }),
{
    let last = if end >= 1 && end - 1 >= start { end - 1 } else { start };
    let line = source_line(processed_markdown, line_origins, frontmatter_lines, start);
    let line_end = source_line(processed_markdown, line_origins, frontmatter_lines, last);
    block_start_html(block, line, line_end)
}

/// The first and last original lines of every table, in document order.
pub open spec fn spec_table_source_lines(
    events: Seq<(BlockStart, usize, usize)>,
    processed: Seq<u8>,
    origins: Seq<usize>,
    frontmatter_lines: usize,
) -> Seq<(usize, usize)>
    decreases events.len(),
{
    if events.len() == 0 {
        Seq::empty()
    } else {
        let prev = spec_table_source_lines(events.drop_last(), processed, origins, frontmatter_lines);
        let (block, start, end) = events.last();
        if block is Table {
            prev.push((
                spec_source_line(processed, origins, frontmatter_lines, start) as usize,
                spec_source_line(processed, origins, frontmatter_lines, spec_span_last(start, end)) as usize,
            ))
        } else {
            prev
        }
    }
}

/// Extract the source-line ranges of tables from the parser events with their spans,
/// before the events themselves are rewritten; later applied to `<table>` elements.
pub fn extract_table_source_lines(
    events: &[(BlockStart, usize, usize)],
    processed_markdown: &str,
    line_origins: &[usize],
    frontmatter_lines: usize,
) -> (r: Vec<(usize, usize)>)
    requires
        forall|i: int| 0 <= i < events@.len() && (#[trigger] events@[i]).0 is Table ==> {
            &&& source_line_ok(processed_markdown, line_origins@, frontmatter_lines, events@[i].1)
            &&& source_line_ok(processed_markdown, line_origins@, frontmatter_lines, spec_span_last(events@[i].1, events@[i].2))
        },
    ensures
        r@ == spec_table_source_lines(events@, processed_markdown.spec_bytes(), line_origins@, frontmatter_lines),
{
    let ghost es = events@;
    let mut out: Vec<(usize, usize)> = Vec::new();
    let mut i: usize = 0;
    assert(es.take(0) =~= Seq::<(BlockStart, usize, usize)>::empty());
    while i < events.len()
        invariant
            es == events@,
            i <= es.len(),
            forall|k: int| 0 <= k < es.len() && (#[trigger] es[k]).0 is Table ==> {
                &&& source_line_ok(processed_markdown, line_origins@, frontmatter_lines, es[k].1)
                &&& source_line_ok(processed_markdown, line_origins@, frontmatter_lines, spec_span_last(es[k].1, es[k].2))
            },
            out@ == spec_table_source_lines(es.take(i as int), processed_markdown.spec_bytes(), line_origins@, frontmatter_lines),
        decreases es.len() - i,
    {
        assert(es.take(i + 1).drop_last() =~= es.take(i as int));
        assert(es.take(i + 1).last() == es[i as int]);
        let (block, start, end) = &events[i];
        if let BlockStart::Table = block {
            let last = if *end >= 1 && *end - 1 >= *start { *end - 1 } else { *start };
            let s = source_line(processed_markdown, line_origins, frontmatter_lines, *start);
            let e = source_line(processed_markdown, line_origins, frontmatter_lines, last);
            out.push((s, e));
        }
        i += 1;
    }
    assert(es.take(es.len() as int) =~= es);
    out
}

/// The marker that opens an alert of this kind in Markdown (`> [!WARNING]`).
pub open spec fn alert_marker(kind: BlockQuoteKind) -> Seq<char> {
    match kind {
        BlockQuoteKind::Note => "NOTE"@,
        BlockQuoteKind::Tip => "TIP"@,
        BlockQuoteKind::Important => "IMPORTANT"@,
        BlockQuoteKind::Warning => "WARNING"@,
        BlockQuoteKind::Caution => "CAUTION"@,
    }
}

/// ASCII upper-case letters made lower case, everything else kept.
pub open spec fn ascii_lower(s: Seq<char>) -> Seq<char> {
    s.map_values(|c: char| if 'A' <= c && c <= 'Z' { ((c as u32) + 32) as char } else { c })
}

/// The start of an alert block quote of kind `k` carries the class `markdown-alert-`
/// followed by the lower-cased marker of the kind (`[!WARNING]` gives
/// `markdown-alert-warning`); so alerts of different kinds never share a class, and
/// their block starts differ.
pub proof fn lemma_alert_class_names_kind(k: BlockQuoteKind, other: BlockQuoteKind, line: usize, line_end: usize)
    ensures
        spec_block_start_html(BlockStart::BlockQuote(Some(k)), line, line_end) == Some(
            "<blockquote"@ + spec_line_attr(line) + " class=\""@ + "markdown-alert-"@ + ascii_lower(alert_marker(k))
                + "\">\n"@,
        ),
        k != other ==> spec_block_start_html(BlockStart::BlockQuote(Some(k)), line, line_end)
            != spec_block_start_html(BlockStart::BlockQuote(Some(other)), line, line_end),
{
    reveal_strlit("NOTE");
    reveal_strlit("TIP");
    reveal_strlit("IMPORTANT");
    reveal_strlit("WARNING");
    reveal_strlit("CAUTION");
    reveal_strlit("markdown-alert-");
    reveal_strlit("markdown-alert-note");
    reveal_strlit("markdown-alert-tip");
    reveal_strlit("markdown-alert-important");
    reveal_strlit("markdown-alert-warning");
    reveal_strlit("markdown-alert-caution");
    reveal_strlit("class");
    reveal_strlit("=\"");
    reveal_strlit(" class=\"");
    reveal_strlit("\">\n");
    reveal_strlit(">\n");
    assert(ascii_lower("NOTE"@) =~= "note"@) by { reveal_strlit("note"); }
    assert(ascii_lower("TIP"@) =~= "tip"@) by { reveal_strlit("tip"); }
    assert(ascii_lower("IMPORTANT"@) =~= "important"@) by { reveal_strlit("important"); }
    assert(ascii_lower("WARNING"@) =~= "warning"@) by { reveal_strlit("warning"); }
    assert(ascii_lower("CAUTION"@) =~= "caution"@) by { reveal_strlit("caution"); }
    reveal_strlit("note");
    reveal_strlit("tip");
    reveal_strlit("important");
    reveal_strlit("warning");
    reveal_strlit("caution");
    let c = spec_alert_class(k);
    assert(spec_attr("class"@, c) =~= " class=\""@ + c + seq!['"']);
    assert(c =~= "markdown-alert-"@ + ascii_lower(alert_marker(k)));
    let head = "<blockquote"@ + spec_line_attr(line);
    assert(head + spec_attr("class"@, c) + ">\n"@ =~= head + " class=\""@ + "markdown-alert-"@
        + ascii_lower(alert_marker(k)) + "\">\n"@);
    if k != other {
        let d = spec_alert_class(other);
        let hk = head + spec_attr("class"@, c) + ">\n"@;
        let ho = head + spec_attr("class"@, d) + ">\n"@;
        if hk == ho {
            assert(c.len() == d.len()) by {
                assert(hk.len() == ho.len());
            }
            assert forall|i: int| 0 <= i < c.len() implies c[i] == d[i] by {
                assert(hk[head.len() + 8 + i] == c[i]);
                assert(ho[head.len() + 8 + i] == d[i]);
            }
            assert(c =~= d);
            assert(false) by {
                match k {
                    BlockQuoteKind::Note => { assert(c[15] != d[15] || c.len() != d.len()); },
                    BlockQuoteKind::Tip => { assert(c[15] != d[15] || c.len() != d.len()); },
                    BlockQuoteKind::Important => { assert(c[15] != d[15] || c.len() != d.len()); },
                    BlockQuoteKind::Warning => { assert(c[15] != d[15] || c.len() != d.len()); },
                    BlockQuoteKind::Caution => { assert(c[15] != d[15] || c.len() != d.len()); },
                }
            }
        }
    }
}

} // verus!
