//! Helpers of the image, math and diagram viewer windows: the short ids that name
//! their content, and the truncated title of a math window.
use vstd::prelude::*;

use vstd::string::StringSliceAdditionalSpecFns;

use crate::text::{chars_of, string_from_chars};

verus! {

broadcast use vstd::seq::group_seq_axioms;

/// The SHA-256 digest of `data`.
pub uninterp spec fn spec_sha256(data: Seq<u8>) -> Seq<u8>;

/// `sha2::Sha256::digest`: the SHA-256 digest of `data`, which is 32 bytes long.
#[verifier::external_body]
fn sha256(data: &[u8]) -> (r: Vec<u8>)
    ensures
        r@ == spec_sha256(data@),
        r@.len() == 32,
{
    <sha2::Sha256 as sha2::Digest>::digest(data).to_vec()
}

/// The lowercase hexadecimal digit for `n` (below 16).
pub open spec fn hex_digit(n: int) -> char {
    if n < 10 { (('0' as int) + n) as char } else { (('a' as int) + n - 10) as char }
}

/// Bytes in lowercase hexadecimal, high nibble first, two digits per byte.
pub open spec fn spec_lower_hex(bytes: Seq<u8>) -> Seq<char>
    decreases bytes.len(),
{
    if bytes.len() == 0 {
        Seq::empty()
    } else {
        spec_lower_hex(bytes.drop_last()).push(hex_digit((bytes.last() / 16) as int)).push(hex_digit((bytes.last() % 16) as int))
    }
}

/// The lowercase hexadecimal digit for `n`.
fn hex_digit_of(n: u8) -> (c: char)
    requires
        n < 16,
    ensures
        c == hex_digit(n as int),
{
    if n == 0 { '0' } else if n == 1 { '1' } else if n == 2 { '2' } else if n == 3 { '3' }
    else if n == 4 { '4' } else if n == 5 { '5' } else if n == 6 { '6' } else if n == 7 { '7' }
    else if n == 8 { '8' } else if n == 9 { '9' } else if n == 10 { 'a' } else if n == 11 { 'b' }
    else if n == 12 { 'c' } else if n == 13 { 'd' } else if n == 14 { 'e' } else { 'f' }
}

/// The first 16 hexadecimal digits of a digest of at least 8 bytes.
pub open spec fn spec_id_of_digest(digest: Seq<u8>) -> Seq<char> {
    spec_lower_hex(digest.take(8))
}

/// The first 16 lowercase hexadecimal digits of a digest.
pub fn id_of_digest(digest: &[u8]) -> (r: String)
    requires
        digest@.len() >= 8,
    ensures
        r@ == spec_id_of_digest(digest@),
        r@.len() == 16,
{
    let mut out: Vec<char> = Vec::new();
    let mut i: usize = 0;
    assert(digest@.take(0) =~= Seq::<u8>::empty());
    while i < 8
        invariant
            digest@.len() >= 8,
            i <= 8,
            out@ == spec_lower_hex(digest@.take(i as int)),
            out@.len() == 2 * i,
        decreases 8 - i,
    {
        let b = digest[i];
        assert(digest@.take(i + 1).drop_last() =~= digest@.take(i as int));
        out.push(hex_digit_of(b / 16));
        out.push(hex_digit_of(b % 16));
        i += 1;
    }
    string_from_chars(out.as_slice())
}

/// The id of content: the first 16 hexadecimal digits of the SHA-256 of its UTF-8 bytes.
pub open spec fn spec_content_id(source: &str) -> Seq<char> {
    spec_id_of_digest(spec_sha256(source.spec_bytes()))
}

/// The id of content given as text.
fn content_id(source: &str) -> (r: String)
    ensures
        r@ == spec_content_id(source),
        r@.len() == 16,
{
    let digest = sha256(source.as_bytes());
    id_of_digest(digest.as_slice())
}

/// A stable id for an image window, from the image source.
pub fn generate_image_id(src: &str) -> (r: String)
    ensures
        r@ == spec_content_id(src),
        r@.len() == 16,
{
    content_id(src)
}

/// A stable id for a math window, from the LaTeX source.
pub fn generate_math_id(source: &str) -> (r: String)
    ensures
        r@ == spec_content_id(source),
        r@.len() == 16,
{
    content_id(source)
}

/// A stable id for a diagram window, from the Mermaid source.
pub fn generate_diagram_id(source: &str) -> (r: String)
    ensures
        r@ == spec_content_id(source),
        r@.len() == 16,
{
    content_id(source)
}

/// The title text for LaTeX source: the source when it has at most `max_len`
/// characters, else its first `max_len` characters and an ellipsis.
pub open spec fn spec_truncate_latex(source: Seq<char>, max_len: nat) -> Seq<char> {
    if source.len() <= max_len { source } else { source.take(max_len as int).push('…') }
}

/// Truncate LaTeX source for a window title.
pub fn truncate_latex(source: &str, max_len: usize) -> (r: String)
    ensures
        r@ == spec_truncate_latex(source@, max_len as nat),
{
    let cs = chars_of(source);
    if cs.len() <= max_len {
        source.to_owned()
    } else {
        let mut out: Vec<char> = Vec::new();
        let mut i: usize = 0;
        while i < max_len
            invariant
                i <= max_len,
                max_len < cs@.len(),
                out@ == cs@.take(i as int),
            decreases max_len - i,
        {
            out.push(cs[i]);
            assert(cs@.take(i + 1) =~= cs@.take(i as int).push(cs@[i as int]));
            i += 1;
        }
        out.push('…');
        string_from_chars(out.as_slice())
    }
}

} // verus!
