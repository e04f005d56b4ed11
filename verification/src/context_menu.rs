//! What the content area's context menu offers: which groups of entries it shows for
//! the element under the pointer, and the default "Copy Path" entry.
use vstd::prelude::*;

use crate::markdown::headings::{decimal_chars, spec_decimal};
use crate::text::{append_chars, append_str, string_from_chars};

verus! {

/// The element the context menu was opened on.
#[derive(Debug, Clone, PartialEq, Eq)]
pub enum ContentContext {
    /// General content (no specific element).
    General,
    /// A link.
    Link { href: String },
    /// An image.
    Image { src: String, alt: Option<String> },
    /// A code block, with the lines of its source.
    CodeBlock { content: String, language: Option<String>, source_line: Option<u32>, source_line_end: Option<u32> },
    /// A Mermaid diagram.
    Mermaid { source: String },
    /// A math block.
    MathBlock { source: String },
}

/// Which parts of the context menu show.
#[derive(Debug, Clone, Copy, PartialEq, Eq, Structural)]
pub struct MenuFlags {
    /// The element is an image.
    pub is_image: bool,
    /// The element is a Mermaid diagram.
    pub is_mermaid: bool,
    /// The element is a math block.
    pub is_math: bool,
    /// The element has entries of its own (link, image, diagram, math).
    pub has_context_specific: bool,
    /// The element has source to copy (code block, diagram, math).
    pub has_copy_source: bool,
    /// Some submenu has entries.
    pub has_any_submenu: bool,
}

/// The flags for an element, given whether text is selected, a file is open and the
/// pointer is on a table.
pub open spec fn spec_menu_flags(context: ContentContext, has_selection: bool, has_file: bool, has_table: bool) -> MenuFlags {
    let is_image = context is Image;
    let is_mermaid = context is Mermaid;
    let is_math = context is MathBlock;
    let has_copy_source = context is CodeBlock || is_mermaid || is_math;
    MenuFlags {
        is_image,
        is_mermaid,
        is_math,
        has_context_specific: context is Link || is_image || is_mermaid || is_math,
        has_copy_source,
        has_any_submenu: has_selection || has_file || has_copy_source || has_table || is_image || is_mermaid || is_math,
    }
}

/// Which parts of the context menu show for `context`.
pub fn menu_flags(context: &ContentContext, has_selection: bool, has_file: bool, has_table: bool) -> (f: MenuFlags)
    ensures
        f == spec_menu_flags(*context, has_selection, has_file, has_table),
{
    let (is_image, is_mermaid, is_math, is_link, is_code) = match context {
        ContentContext::General => (false, false, false, false, false),
        ContentContext::Link { .. } => (false, false, false, true, false),
        ContentContext::Image { .. } => (true, false, false, false, false),
        ContentContext::CodeBlock { .. } => (false, false, false, false, true),
        ContentContext::Mermaid { .. } => (false, true, false, false, false),
        ContentContext::MathBlock { .. } => (false, false, true, false, false),
    };
    let has_copy_source = is_code || is_mermaid || is_math;
    MenuFlags {
        is_image,
        is_mermaid,
        is_math,
        has_context_specific: is_link || is_image || is_mermaid || is_math,
        has_copy_source,
        has_any_submenu: has_selection || has_file || has_copy_source || has_table || is_image || is_mermaid
            || is_math,
    }
}

/// The lines that "Copy" of a block refers to: a code block's own lines; for a diagram
/// or math block, the lines of the element under the pointer; none otherwise.
pub open spec fn spec_copy_source_lines(context: ContentContext, source_line: Option<u32>, source_line_end: Option<u32>) -> (Option<u32>, Option<u32>) {
    match context {
        ContentContext::CodeBlock { source_line: s, source_line_end: e, .. } => (s, e),
        ContentContext::Mermaid { .. } | ContentContext::MathBlock { .. } => (source_line, source_line_end),
        _ => (None, None),
    }
}

/// The source lines a block copy refers to.
pub fn copy_source_lines(context: &ContentContext, source_line: Option<u32>, source_line_end: Option<u32>) -> (r: (
    Option<u32>,
    Option<u32>,
))
    ensures
        r == spec_copy_source_lines(*context, source_line, source_line_end),
{
    match context {
        ContentContext::CodeBlock { source_line: s, source_line_end: e, .. } => (*s, *e),
        ContentContext::Mermaid { .. } | ContentContext::MathBlock { .. } => (source_line, source_line_end),
        _ => (None, None),
    }
}

/// The default "Copy Path" entry: its label and the text it copies. With a line range
/// of two different lines, `path:start-end`; with a line, `path:line`; with a file but
/// no line, the path; with no file, nothing to copy.
pub open spec fn spec_copy_path_entry(file: Option<Seq<char>>, start: Option<u32>, end: Option<u32>) -> (Seq<char>, Option<Seq<char>>) {
    match file {
        None => ("Copy Path"@, None),
        Some(f) => match start {
            None => ("Copy Path"@, Some(f)),
            Some(s) => match end {
                Some(e) => if s != e {
                    (
                        "Copy Path with Range ("@ + spec_decimal(s as nat) + seq!['-'] + spec_decimal(e as nat) + seq![')'],
                        Some(f + seq![':'] + spec_decimal(s as nat) + seq!['-'] + spec_decimal(e as nat)),
                    )
                } else {
                    ("Copy Path with Line ("@ + spec_decimal(s as nat) + seq![')'], Some(f + seq![':'] + spec_decimal(s as nat)))
                },
                None => ("Copy Path with Line ("@ + spec_decimal(s as nat) + seq![')'], Some(f + seq![':'] + spec_decimal(s as nat))),
            },
        },
    }
}

/// The default "Copy Path" entry for the open file (as displayed) and the lines under
/// the pointer.
pub fn copy_path_entry(file: Option<&str>, start: Option<u32>, end: Option<u32>) -> (r: (String, Option<String>))
    ensures
        ({
            let want = spec_copy_path_entry(
                match file {
                    Some(f) => Some(f@),
                    None => None,
                },
                start,
                end,
            );
            &&& r.0@ == want.0
            &&& match r.1 {
                Some(v) => want.1 == Some(v@),
                None => want.1 is None,
            }
        }),
{
    let f = match file {
        Some(f) => f,
        None => return ("Copy Path".to_string(), None),
    };
    let s = match start {
        Some(s) => s,
        None => return ("Copy Path".to_string(), Some(f.to_string())),
    };
    let sd = decimal_chars(s as usize);
    let mut label: Vec<char> = Vec::new();
    let mut value: Vec<char> = Vec::new();
    append_str(&mut value, f);
    value.push(':');
    append_chars(&mut value, sd.as_slice());
    match end {
        Some(e) => {
            if s != e {
                let ed = decimal_chars(e as usize);
                append_str(&mut label, "Copy Path with Range (");
                append_chars(&mut label, sd.as_slice());
                label.push('-');
                append_chars(&mut label, ed.as_slice());
                label.push(')');
                value.push('-');
                append_chars(&mut value, ed.as_slice());
            } else {
                append_str(&mut label, "Copy Path with Line (");
                append_chars(&mut label, sd.as_slice());
                label.push(')');
            }
        },
        None => {
            append_str(&mut label, "Copy Path with Line (");
            append_chars(&mut label, sd.as_slice());
            label.push(')');
        },
    }
    (string_from_chars(label.as_slice()), Some(string_from_chars(value.as_slice())))
}

} // verus!
