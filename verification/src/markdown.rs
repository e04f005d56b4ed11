//! Markdown preprocessing and the plain-value parts of rendering.
pub mod autolinks;
pub mod headings;
pub mod post_process;
pub mod source_lines;

use vstd::prelude::*;

use crate::text::{append_str, string_from_chars};

verus! {

/// The rendered page: the frontmatter's HTML and a newline before the body, or the
/// body alone when there is no frontmatter.
pub open spec fn spec_prepend_frontmatter(frontmatter_html: Seq<char>, html_output: Seq<char>) -> Seq<char> {
    if frontmatter_html.len() == 0 {
        html_output
    } else {
        frontmatter_html + seq!['\n'] + html_output
    }
}

/// Prepend the frontmatter HTML to the post-processed output.
pub fn prepend_frontmatter(frontmatter_html: &str, html_output: String) -> (r: String)
    ensures
        r@ == spec_prepend_frontmatter(frontmatter_html@, html_output@),
{
    if frontmatter_html.is_empty() {
        html_output
    } else {
        let mut out: Vec<char> = Vec::new();
        append_str(&mut out, frontmatter_html);
        out.push('\n');
        append_str(&mut out, html_output.as_str());
        string_from_chars(out.as_slice())
    }
}

} // verus!
