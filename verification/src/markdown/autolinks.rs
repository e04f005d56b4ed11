//! Rewriting bare `http://` and `https://` URLs into CommonMark autolinks (`<URL>`).
//!
//! Fenced code blocks and inline code spans are left alone, and the text keeps its
//! line count so that source-line annotations stay correct.
use vstd::prelude::*;

use crate::text::{
    append_chars, append_str, chars_of, deep_chars, join_seqs, lemma_join_split, lemma_split_seq_nonempty, split_chars,
    split_seq, string_from_chars,
};

verus! {

// ---------------------------------------------------------------------------
// Lines
// ---------------------------------------------------------------------------

/// `s` without one trailing carriage return.
pub open spec fn strip_cr(s: Seq<char>) -> Seq<char> {
    if s.len() > 0 && s.last() == '\r' {
        s.drop_last()
    } else {
        s
    }
}

/// The lines of `t` as `str::lines` yields them: split at `\n`; a line ended by `\n`
/// loses one trailing `\r`; a final empty piece (text ending with `\n`, or empty
/// text) is not a line.
pub open spec fn spec_lines(t: Seq<char>) -> Seq<Seq<char>> {
    let p = split_seq(t, '\n');
    let ended = Seq::new((p.len() - 1) as nat, |i: int| strip_cr(p[i]));
    if p.last().len() == 0 {
        ended
    } else {
        ended.push(p.last())
    }
}

/// The lines of a text (`str::lines`).
pub fn lines_of(t: &[char]) -> (r: Vec<Vec<char>>)
    ensures
        deep_chars(r@) == spec_lines(t@),
{
    let pieces = split_chars(t, '\n');
    let ghost p = split_seq(t@, '\n');
    proof {
        lemma_split_seq_nonempty(t@, '\n');
    }
    let n = pieces.len();
    let mut r: Vec<Vec<char>> = Vec::new();
    let mut i: usize = 0;
    while i + 1 < n
        invariant
            p == deep_chars(pieces@),
            n == p.len(),
            n >= 1,
            i + 1 <= n,
            deep_chars(r@) == Seq::new(i as nat, |j: int| strip_cr(p[j])),
        decreases n - i,
    {
        let piece = &pieces[i];
        let mut line: Vec<char> = Vec::new();
        let len = piece.len();
        let keep = if len > 0 && piece[len - 1] == '\r' { len - 1 } else { len };
        let mut j: usize = 0;
        while j < keep
            invariant
                keep <= piece@.len(),
                j <= keep,
                line@ == piece@.take(j as int),
            decreases keep - j,
        {
            line.push(piece[j]);
            j += 1;
        }
        assert(line@ =~= strip_cr(p[i as int]));
        let ghost before = r@;
        let ghost lv = line@;
        r.push(line);
        assert(deep_chars(r@) =~= deep_chars(before).push(lv));
        assert(deep_chars(r@) =~= Seq::new((i + 1) as nat, |j: int| strip_cr(p[j])));
        i += 1;
    }
    if pieces[n - 1].len() > 0 {
        let last = &pieces[n - 1];
        let mut line: Vec<char> = Vec::new();
        append_chars(&mut line, last.as_slice());
        assert(line@ =~= p.last());
        let ghost before = r@;
        r.push(line);
        assert(deep_chars(r@) =~= deep_chars(before).push(p.last()));
    }
    r
}

// ---------------------------------------------------------------------------
// Code fences
// ---------------------------------------------------------------------------

/// Whitespace in the sense of `char::is_whitespace` (the Unicode `White_Space` property).
pub open spec fn is_unicode_whitespace(c: char) -> bool {
    c == ' ' || ('\t' <= c && c <= '\r') || c == '\u{85}' || c == '\u{A0}' || c == '\u{1680}'
        || ('\u{2000}' <= c && c <= '\u{200A}') || c == '\u{2028}' || c == '\u{2029}'
        || c == '\u{202F}' || c == '\u{205F}' || c == '\u{3000}'
}

/// Number of leading characters of `s[from..]` that are whitespace.
pub open spec fn leading_ws(s: Seq<char>, from: int) -> int
    decreases s.len() - from,
{
    if from < 0 || from >= s.len() || !is_unicode_whitespace(s[from]) {
        0
    } else {
        1 + leading_ws(s, from + 1)
    }
}

/// Length of the run of `c` in `s` starting at `from`.
pub open spec fn run_len(s: Seq<char>, from: int, c: char) -> int
    decreases s.len() - from,
{
    if from < 0 || from >= s.len() || s[from] != c {
        0
    } else {
        1 + run_len(s, from + 1, c)
    }
}

/// An opening code fence: after leading whitespace, a run of three or more
/// backticks or tildes; gives the fence character and the run length.
pub open spec fn spec_opening_fence(line: Seq<char>) -> Option<(char, int)> {
    let start = leading_ws(line, 0);
    if start >= line.len() {
        None
    } else {
        let c = line[start];
        if c != '`' && c != '~' {
            None
        } else {
            let n = run_len(line, start, c);
            if n >= 3 { Some((c, n)) } else { None }
        }
    }
}

/// Whether every character of `s[from..]` is a space or a tab.
pub open spec fn only_blanks_from(s: Seq<char>, from: int) -> bool {
    forall|i: int| from <= i < s.len() ==> (#[trigger] s[i] == ' ' || s[i] == '\t')
}

/// A closing fence for an opening fence of `fence_len` characters `fence_char`:
/// after leading whitespace, at least that many of that character, then only blanks.
pub open spec fn spec_closing_fence(line: Seq<char>, fence_char: char, fence_len: int) -> bool {
    let start = leading_ws(line, 0);
    start < line.len() && line[start] == fence_char && run_len(line, start, fence_char) >= fence_len
        && only_blanks_from(line, start + run_len(line, start, fence_char))
}

/// Whitespace in the sense of `char::is_whitespace`.
pub fn is_whitespace(c: char) -> (r: bool)
    ensures
        r == is_unicode_whitespace(c),
{
    c == ' ' || ('\t' <= c && c <= '\r') || c == '\u{85}' || c == '\u{A0}' || c == '\u{1680}'
        || ('\u{2000}' <= c && c <= '\u{200A}') || c == '\u{2028}' || c == '\u{2029}'
        || c == '\u{202F}' || c == '\u{205F}' || c == '\u{3000}'
}

/// Index of the first non-whitespace character of `s` (or its length).
fn skip_whitespace(s: &[char]) -> (r: usize)
    ensures
        r == leading_ws(s@, 0),
        r <= s@.len(),
{
    let mut i: usize = 0;
    while i < s.len() && is_whitespace(s[i])
        invariant
            i <= s@.len(),
            leading_ws(s@, 0) == i + leading_ws(s@, i as int),
        decreases s@.len() - i,
    {
        i += 1;
    }
    i
}

/// Length of the run of `c` starting at `from`.
fn run_length(s: &[char], from: usize, c: char) -> (r: usize)
    requires
        from <= s@.len(),
    ensures
        r == run_len(s@, from as int, c),
        from + r <= s@.len(),
{
    let mut i: usize = from;
    while i < s.len() && s[i] == c
        invariant
            from <= i <= s@.len(),
            run_len(s@, from as int, c) == (i - from) + run_len(s@, i as int, c),
        decreases s@.len() - i,
    {
        i += 1;
    }
    i - from
}

/// Detect an opening code fence (```` ``` ```` or `~~~`): the fence character and length.
pub fn detect_opening_fence(line: &[char]) -> (r: Option<(char, usize)>)
    ensures
        match r {
            Some((c, n)) => spec_opening_fence(line@) == Some((c, n as int)),
            None => spec_opening_fence(line@) is None,
        },
{
    let start = skip_whitespace(line);
    if start >= line.len() {
        return None;
    }
    let c = line[start];
    if c != '`' && c != '~' {
        return None;
    }
    let n = run_length(line, start, c);
    if n >= 3 { Some((c, n)) } else { None }
}

/// Whether a line closes a fence of `fence_len` characters `fence_char`.
pub fn is_closing_fence(line: &[char], fence_char: char, fence_len: usize) -> (r: bool)
    ensures
        r == spec_closing_fence(line@, fence_char, fence_len as int),
{
    let start = skip_whitespace(line);
    if start >= line.len() || line[start] != fence_char {
        return false;
    }
    let n = run_length(line, start, fence_char);
    if n < fence_len {
        return false;
    }
    let mut i = start + n;
    while i < line.len()
        invariant
            start == leading_ws(line@, 0),
            start < line@.len(),
            line@[start as int] == fence_char,
            n == run_len(line@, start as int, fence_char),
            n >= fence_len,
            start + n <= i <= line@.len(),
            forall|k: int| start + n <= k < i ==> (#[trigger] line@[k] == ' ' || line@[k] == '\t'),
        decreases line@.len() - i,
    {
        if line[i] != ' ' && line[i] != '\t' {
            assert(!(line@[i as int] == ' ' || line@[i as int] == '\t'));
            return false;
        }
        i += 1;
    }
    true
}

// ---------------------------------------------------------------------------
// URLs inside a line
// ---------------------------------------------------------------------------

/// Whether `s[pos..]` starts with `lit`.
pub open spec fn starts_with_at(s: Seq<char>, pos: int, lit: Seq<char>) -> bool {
    0 <= pos && pos + lit.len() <= s.len() && s.subrange(pos, pos + lit.len()) == lit
}

/// Length of the `https://` or `http://` prefix at `pos`, if there is one.
pub open spec fn spec_http_protocol(s: Seq<char>, pos: int) -> Option<int> {
    if starts_with_at(s, pos, "https://"@) {
        Some(8)
    } else if starts_with_at(s, pos, "http://"@) {
        Some(7)
    } else {
        None
    }
}

/// Whether the character before `pos` allows a URL at `pos` to become a link:
/// start of line, a space or tab, or `(` that does not follow `]`.
pub open spec fn spec_valid_predecessor(s: Seq<char>, pos: int) -> bool {
    if pos == 0 {
        true
    } else {
        let prev = s[pos - 1];
        if prev == '(' {
            !(pos >= 2 && s[pos - 2] == ']')
        } else {
            prev == ' ' || prev == '\t'
        }
    }
}

/// Whether `c` may stand inside a URL: not a control character or space, not `<` or `>`.
pub open spec fn is_url_char(c: char) -> bool {
    (c as u32) > 0x20 && c != '<' && c != '>'
}

/// Number of URL characters from `pos` on.
pub open spec fn url_run(s: Seq<char>, pos: int) -> int
    decreases s.len() - pos,
{
    if pos < 0 || pos >= s.len() || !is_url_char(s[pos]) {
        0
    } else {
        1 + url_run(s, pos + 1)
    }
}

/// Occurrences of `c` in `s`.
pub open spec fn count_char(s: Seq<char>, c: char) -> int
    decreases s.len(),
{
    if s.len() == 0 {
        0
    } else {
        count_char(s.drop_last(), c) + if s.last() == c { 1int } else { 0int }
    }
}

/// Whether trailing `c` is punctuation that does not belong to a URL.
pub open spec fn is_trailing_punct(c: char) -> bool {
    c == '.' || c == ',' || c == ';' || c == ':' || c == '!' || c == '?' || c == '\'' || c == '"'
}

/// The end of `u[..end]` once trailing punctuation is removed, and closing parentheses
/// that outnumber opening ones.
pub open spec fn spec_strip_trailing(u: Seq<char>, end: int) -> int
    decreases end,
{
    if end <= 0 || end > u.len() {
        if end <= 0 { 0 } else { end }
    } else {
        let last = u[end - 1];
        if is_trailing_punct(last) {
            spec_strip_trailing(u, end - 1)
        } else if last == ')' && count_char(u.take(end), ')') > count_char(u.take(end), '(') {
            spec_strip_trailing(u, end - 1)
        } else {
            end
        }
    }
}

/// Length of the URL that starts at `pos`.
pub open spec fn spec_url_len(s: Seq<char>, pos: int) -> int {
    let u = s.skip(pos);
    spec_strip_trailing(u, url_run(s, pos))
}

/// Index where a run of `count` backticks starts at or after `i`; runs of other
/// lengths are skipped whole.
pub open spec fn spec_closing_backticks(s: Seq<char>, i: int, count: int) -> Option<int>
    decreases s.len() - i,
{
    if i < 0 || i >= s.len() {
        None
    } else if s[i] == '`' {
        let run = run_len(s, i, '`');
        proof {
            lemma_run_len_bounds(s, i, '`');
        }
        if run == count {
            Some(i)
        } else {
            spec_closing_backticks(s, i + run, count)
        }
    } else {
        spec_closing_backticks(s, i + 1, count)
    }
}

/// URL runs stay inside the text.
pub proof fn lemma_url_run_bounds(s: Seq<char>, pos: int)
    ensures
        0 <= url_run(s, pos),
        0 <= pos <= s.len() ==> pos + url_run(s, pos) <= s.len(),
    decreases s.len() - pos,
{
    if 0 <= pos < s.len() && is_url_char(s[pos]) {
        lemma_url_run_bounds(s, pos + 1);
    }
}

/// Stripping only shortens.
pub proof fn lemma_strip_trailing_bounds(u: Seq<char>, end: int)
    ensures
        end >= 0 ==> 0 <= spec_strip_trailing(u, end) <= end,
    decreases end,
{
    if end > 0 && end <= u.len() {
        lemma_strip_trailing_bounds(u, end - 1);
    }
}

/// A URL length stays inside the line.
pub proof fn lemma_url_len_bounds(s: Seq<char>, pos: int)
    ensures
        0 <= pos <= s.len() ==> 0 <= spec_url_len(s, pos) <= url_run(s, pos) && pos + spec_url_len(s, pos) <= s.len(),
{
    lemma_url_run_bounds(s, pos);
    lemma_strip_trailing_bounds(s.skip(pos), url_run(s, pos));
}

/// A run at a position holding `c` has length at least one and stays inside `s`.
pub proof fn lemma_run_len_bounds(s: Seq<char>, from: int, c: char)
    ensures
        0 <= run_len(s, from, c),
        0 <= from < s.len() ==> from + run_len(s, from, c) <= s.len(),
        0 <= from < s.len() && s[from] == c ==> run_len(s, from, c) >= 1,
    decreases s.len() - from,
{
    if 0 <= from < s.len() && s[from] == c {
        lemma_run_len_bounds(s, from + 1, c);
    }
}

/// A closing run is found at or after the start of the search and lies inside `s`.
pub proof fn lemma_closing_backticks_after(s: Seq<char>, i: int, count: int)
    ensures
        spec_closing_backticks(s, i, count) matches Some(k) ==> i <= k && k < s.len() && k + run_len(s, k, '`') <= s.len() && run_len(s, k, '`') == count,
    decreases s.len() - i,
{
    if 0 <= i < s.len() {
        lemma_run_len_bounds(s, i, '`');
        if s[i] == '`' {
            let run = run_len(s, i, '`');
            if run != count {
                lemma_closing_backticks_after(s, i + run, count);
            }
        } else {
            lemma_closing_backticks_after(s, i + 1, count);
        }
    }
}

/// The output for `line[pos..]`: code spans copied verbatim, linkable URLs wrapped in
/// `<` and `>`, everything else copied.
pub open spec fn spec_process_from(line: Seq<char>, pos: int) -> Seq<char>
    decreases line.len() - pos,
{
    if pos < 0 || pos >= line.len() {
        Seq::empty()
    } else if line[pos] == '`' {
        let run = run_len(line, pos, '`');
        let after = pos + run;
        proof {
            lemma_run_len_bounds(line, pos, '`');
            lemma_closing_backticks_after(line, after, run);
        }
        match spec_closing_backticks(line, after, run) {
            Some(close) => line.subrange(pos, close + run) + spec_process_from(line, close + run),
            None => line.subrange(pos, after) + spec_process_from(line, after),
        }
    } else {
        match spec_http_protocol(line, pos) {
            Some(proto) => {
                let n = spec_url_len(line, pos);
                proof {
                    lemma_url_len_bounds(line, pos);
                }
                if spec_valid_predecessor(line, pos) && n > proto {
                    seq!['<'] + line.subrange(pos, pos + n) + seq!['>'] + spec_process_from(line, pos + n)
                } else {
                    seq![line[pos]] + spec_process_from(line, pos + 1)
                }
            },
            None => seq![line[pos]] + spec_process_from(line, pos + 1),
        }
    }
}

/// The output for a line outside code fences.
pub open spec fn spec_process_line(line: Seq<char>) -> Seq<char> {
    spec_process_from(line, 0)
}

/// Whether a protocol prefix (`http://` or `https://`) starts anywhere in `line[pos..]`.
pub open spec fn has_protocol_from(line: Seq<char>, pos: int) -> bool {
    exists|p: int| pos <= p < line.len() && #[trigger] spec_http_protocol(line, p) is Some
}

/// Text without any `http://` or `https://` goes through unchanged.
pub proof fn lemma_process_without_protocol(line: Seq<char>, pos: int)
    requires
        0 <= pos <= line.len(),
        !has_protocol_from(line, pos),
    ensures
        spec_process_from(line, pos) == line.subrange(pos, line.len() as int),
    decreases line.len() - pos,
{
    if pos < line.len() {
        assert(spec_http_protocol(line, pos) is None);
        if line[pos] == '`' {
            let run = run_len(line, pos, '`');
            let after = pos + run;
            lemma_run_len_bounds(line, pos, '`');
            lemma_closing_backticks_after(line, after, run);
            match spec_closing_backticks(line, after, run) {
                Some(close) => {
                    let next = close + run;
                    assert(!has_protocol_from(line, next)) by {
                        if has_protocol_from(line, next) {
                            let p = choose|p: int| next <= p < line.len() && #[trigger] spec_http_protocol(line, p) is Some;
                            assert(pos <= p);
                        }
                    }
                    lemma_process_without_protocol(line, next);
                    assert(line.subrange(pos, next) + line.subrange(next, line.len() as int)
                        =~= line.subrange(pos, line.len() as int));
                },
                None => {
                    assert(!has_protocol_from(line, after)) by {
                        if has_protocol_from(line, after) {
                            let p = choose|p: int| after <= p < line.len() && #[trigger] spec_http_protocol(line, p) is Some;
                            assert(pos <= p);
                        }
                    }
                    lemma_process_without_protocol(line, after);
                    assert(line.subrange(pos, after) + line.subrange(after, line.len() as int)
                        =~= line.subrange(pos, line.len() as int));
                },
            }
        } else {
            assert(!has_protocol_from(line, pos + 1)) by {
                if has_protocol_from(line, pos + 1) {
                    let p = choose|p: int| pos + 1 <= p < line.len() && #[trigger] spec_http_protocol(line, p) is Some;
                    assert(pos <= p);
                }
            }
            lemma_process_without_protocol(line, pos + 1);
            assert(seq![line[pos]] + line.subrange(pos + 1, line.len() as int)
                =~= line.subrange(pos, line.len() as int));
        }
    } else {
        assert(line.subrange(pos, line.len() as int) =~= Seq::<char>::empty());
    }
}

/// Whether `s[pos..]` starts with the characters of `lit`.
fn starts_with_lit(s: &[char], pos: usize, lit: &str) -> (r: bool)
    requires
        pos <= s@.len(),
    ensures
        r == starts_with_at(s@, pos as int, lit@),
{
    let l = chars_of(lit);
    let slen = s.len();
    if l.len() > slen - pos {
        return false;
    }
    let mut i: usize = 0;
    while i < l.len()
        invariant
            l@ == lit@,
            slen == s@.len(),
            pos + l@.len() <= slen,
            i <= l@.len(),
            forall|j: int| 0 <= j < i ==> #[trigger] s@[pos + j] == l@[j],
        decreases l@.len() - i,
    {
        if s[pos + i] != l[i] {
            assert(s@.subrange(pos as int, pos + l@.len())[i as int] != l@[i as int]);
            return false;
        }
        i += 1;
    }
    assert forall|j: int| 0 <= j < l@.len() implies #[trigger] s@.subrange(pos as int, pos + l@.len())[j] == l@[j] by {
        assert(s@[pos + j] == l@[j]);
    }
    assert(s@.subrange(pos as int, pos + l@.len()) =~= l@);
    true
}

/// Length of an `https://` or `http://` prefix at `pos`.
pub fn match_http_protocol(s: &[char], pos: usize) -> (r: Option<usize>)
    requires
        pos <= s@.len(),
    ensures
        match r {
            Some(n) => spec_http_protocol(s@, pos as int) == Some(n as int),
            None => spec_http_protocol(s@, pos as int) is None,
        },
{
    if starts_with_lit(s, pos, "https://") {
        Some(8)
    } else if starts_with_lit(s, pos, "http://") {
        Some(7)
    } else {
        None
    }
}

/// Whether the character before `pos` allows URL conversion at `pos`.
pub fn is_valid_predecessor(s: &[char], pos: usize) -> (r: bool)
    requires
        pos <= s@.len(),
    ensures
        r == spec_valid_predecessor(s@, pos as int),
{
    if pos == 0 {
        return true;
    }
    let prev = s[pos - 1];
    if prev == '(' {
        !(pos >= 2 && s[pos - 2] == ']')
    } else {
        prev == ' ' || prev == '\t'
    }
}

/// Occurrences of `c` in `s[from..to]`.
fn count_in(s: &[char], from: usize, to: usize, c: char) -> (r: usize)
    requires
        from <= to <= s@.len(),
    ensures
        r == count_char(s@.subrange(from as int, to as int), c),
{
    let mut i: usize = from;
    let mut n: usize = 0;
    assert(s@.subrange(from as int, from as int) =~= Seq::<char>::empty());
    while i < to
        invariant
            from <= i <= to <= s@.len(),
            n <= i - from,
            n == count_char(s@.subrange(from as int, i as int), c),
        decreases to - i,
    {
        assert(s@.subrange(from as int, i + 1).drop_last() =~= s@.subrange(from as int, i as int));
        if s[i] == c {
            n += 1;
        }
        i += 1;
    }
    n
}

/// The end (relative to `pos`) of `s[pos..pos + end]` without trailing punctuation
/// and unbalanced closing parentheses.
pub fn strip_trailing_punctuation(s: &[char], pos: usize, end: usize) -> (r: usize)
    requires
        pos + end <= s@.len(),
    ensures
        r == spec_strip_trailing(s@.skip(pos as int), end as int),
{
    let ghost u = s@.skip(pos as int);
    let slen = s.len();
    let mut e = end;
    while e > 0
        invariant
            slen == s@.len(),
            u == s@.skip(pos as int),
            pos + e <= s@.len(),
            e <= end,
            spec_strip_trailing(u, end as int) == spec_strip_trailing(u, e as int),
        decreases e,
    {
        let last = s[pos + e - 1];
        assert(u[e - 1] == last);
        if last == '.' || last == ',' || last == ';' || last == ':' || last == '!' || last == '?'
            || last == '\'' || last == '"' {
            e -= 1;
        } else if last == ')' {
            let opens = count_in(s, pos, pos + e, '(');
            let closes = count_in(s, pos, pos + e, ')');
            assert(u.take(e as int) =~= s@.subrange(pos as int, pos + e));
            if closes > opens {
                e -= 1;
            } else {
                return e;
            }
        } else {
            return e;
        }
    }
    e
}

/// Length of the URL starting at `pos`.
pub fn find_url_end(s: &[char], pos: usize) -> (r: usize)
    requires
        pos <= s@.len(),
    ensures
        r == spec_url_len(s@, pos as int),
        pos + r <= s@.len(),
{
    let mut end: usize = 0;
    let slen = s.len();
    while pos + end < slen && s[pos + end] as u32 > 0x20 && s[pos + end] != '<' && s[pos + end] != '>'
        invariant
            slen == s@.len(),
            pos + end <= s@.len(),
            url_run(s@, pos as int) == end + url_run(s@, pos + end),
        decreases s@.len() - pos - end,
    {
        end += 1;
    }
    proof {
        lemma_url_len_bounds(s@, pos as int);
    }
    strip_trailing_punctuation(s, pos, end)
}

/// Index where a run of exactly `count` backticks starts at or after `i`.
pub fn find_closing_backticks(s: &[char], i: usize, count: usize) -> (r: Option<usize>)
    requires
        i <= s@.len(),
    ensures
        match r {
            Some(k) => spec_closing_backticks(s@, i as int, count as int) == Some(k as int),
            None => spec_closing_backticks(s@, i as int, count as int) is None,
        },
{
    let mut j = i;
    while j < s.len()
        invariant
            i <= j <= s@.len(),
            spec_closing_backticks(s@, i as int, count as int) == spec_closing_backticks(s@, j as int, count as int),
        decreases s@.len() - j,
    {
        if s[j] == '`' {
            let run = run_length(s, j, '`');
            proof {
                lemma_run_len_bounds(s@, j as int, '`');
            }
            if run == count {
                return Some(j);
            }
            j += run;
        } else {
            j += 1;
        }
    }
    None
}

/// Process a line outside code fences: copy inline code spans verbatim and wrap
/// linkable bare URLs in `<` and `>`.
pub fn process_line(line: &[char]) -> (r: Vec<char>)
    ensures
        r@ == spec_process_line(line@),
{
    let mut out: Vec<char> = Vec::new();
    let mut pos: usize = 0;
    let len = line.len();
    while pos < len
        invariant
            len == line@.len(),
            pos <= len,
            out@ + spec_process_from(line@, pos as int) == spec_process_line(line@),
        decreases len - pos,
    {
        let ghost before = out@;
        if line[pos] == '`' {
            let run = run_length(line, pos, '`');
            proof {
                lemma_run_len_bounds(line@, pos as int, '`');
            }
            let after = pos + run;
            match find_closing_backticks(line, after, run) {
                Some(close) => {
                    proof {
                        lemma_closing_backticks_after(line@, after as int, run as int);
                    }
                    let stop = close + run;
                    let mut k = pos;
                    while k < stop
                        invariant
                            pos <= k <= stop <= len,
                            len == line@.len(),
                            out@ == before + line@.subrange(pos as int, k as int),
                        decreases stop - k,
                    {
                        out.push(line[k]);
                        assert(line@.subrange(pos as int, k + 1) =~= line@.subrange(pos as int, k as int).push(line@[k as int]));
                        k += 1;
                    }
                    assert(out@ + spec_process_from(line@, stop as int) =~= before + (line@.subrange(pos as int, stop as int) + spec_process_from(line@, stop as int)));
                    pos = stop;
                },
                None => {
                    let mut k = pos;
                    while k < after
                        invariant
                            pos <= k <= after <= len,
                            len == line@.len(),
                            out@ == before + line@.subrange(pos as int, k as int),
                        decreases after - k,
                    {
                        out.push(line[k]);
                        assert(line@.subrange(pos as int, k + 1) =~= line@.subrange(pos as int, k as int).push(line@[k as int]));
                        k += 1;
                    }
                    assert(out@ + spec_process_from(line@, after as int) =~= before + (line@.subrange(pos as int, after as int) + spec_process_from(line@, after as int)));
                    pos = after;
                },
            }
        } else {
            let proto = match_http_protocol(line, pos);
            let mut wrapped = false;
            if let Some(p) = proto {
                let n = find_url_end(line, pos);
                if is_valid_predecessor(line, pos) && n > p {
                    out.push('<');
                    let mut k = pos;
                    while k < pos + n
                        invariant
                            pos <= k <= pos + n <= len,
                            len == line@.len(),
                            out@ == before.push('<') + line@.subrange(pos as int, k as int),
                        decreases pos + n - k,
                    {
                        out.push(line[k]);
                        assert(line@.subrange(pos as int, k + 1) =~= line@.subrange(pos as int, k as int).push(line@[k as int]));
                        k += 1;
                    }
                    out.push('>');
                    assert(out@ + spec_process_from(line@, pos + n) =~= before + (seq!['<'] + line@.subrange(pos as int, pos + n) + seq!['>'] + spec_process_from(line@, pos + n)));
                    pos = pos + n;
                    wrapped = true;
                }
            }
            if !wrapped {
                out.push(line[pos]);
                assert(out@ + spec_process_from(line@, pos + 1) =~= before + (seq![line@[pos as int]] + spec_process_from(line@, pos + 1)));
                pos += 1;
            }
        }
    }
    assert(out@ =~= out@ + spec_process_from(line@, pos as int));
    out
}

// ---------------------------------------------------------------------------
// Whole text
// ---------------------------------------------------------------------------

/// Output and next fence state for one line; the state is the open fence's
/// character and length, if inside a fenced code block.
pub open spec fn spec_line_step(fence: Option<(char, int)>, line: Seq<char>) -> (Seq<char>, Option<(char, int)>) {
    match fence {
        Some((c, n)) => (line, if spec_closing_fence(line, c, n) { None } else { fence }),
        None => match spec_opening_fence(line) {
            Some(f) => (line, Some(f)),
            None => (spec_process_line(line), None),
        },
    }
}

/// Output lines for a list of lines, and the fence state after them.
pub open spec fn spec_fence_pass(ls: Seq<Seq<char>>) -> (Seq<Seq<char>>, Option<(char, int)>)
    decreases ls.len(),
{
    if ls.len() == 0 {
        (Seq::empty(), None)
    } else {
        let prev = spec_fence_pass(ls.drop_last());
        let step = spec_line_step(prev.1, ls.last());
        (prev.0.push(step.0), step.1)
    }
}

/// One output line per input line: each is the input line itself (fence lines and
/// code-block contents) or the line with its bare URLs turned into autolinks.
pub proof fn lemma_fence_pass_lines(ls: Seq<Seq<char>>)
    ensures
        spec_fence_pass(ls).0.len() == ls.len(),
        forall|i: int| 0 <= i < ls.len() ==> {
            let o = #[trigger] spec_fence_pass(ls).0[i];
            o == ls[i] || o == spec_process_line(ls[i])
        },
    decreases ls.len(),
{
    if ls.len() > 0 {
        let p = ls.drop_last();
        lemma_fence_pass_lines(p);
        assert forall|i: int| 0 <= i < ls.len() implies {
            let o = #[trigger] spec_fence_pass(ls).0[i];
            o == ls[i] || o == spec_process_line(ls[i])
        } by {
            if i < p.len() {
                assert(spec_fence_pass(ls).0[i] == spec_fence_pass(p).0[i]);
                assert(ls[i] == p[i]);
            }
        }
    }
}

/// Whether `t` ends with a newline.
pub open spec fn ends_with_newline(t: Seq<char>) -> bool {
    t.len() > 0 && t.last() == '\n'
}

/// The text with bare URLs turned into autolinks: the output lines joined with `\n`,
/// plus a final `\n` when the input ends with one.
pub open spec fn spec_preprocess_autolinks(md: Seq<char>) -> Seq<char> {
    join_seqs(spec_fence_pass(spec_lines(md)).0, "\n"@) + if ends_with_newline(md) {
        seq!['\n']
    } else {
        Seq::<char>::empty()
    }
}

/// Convert bare URLs (`http://` / `https://`) into CommonMark autolinks (`<URL>`).
///
/// Lines inside fenced code blocks and inline code spans are copied unchanged; the
/// result has as many newlines as the input and ends with a newline exactly when the
/// input does (`lemma_preprocess_keeps_newlines`), and nothing changes but the links
/// wrapped in `<` and `>` (`lemma_preprocess_only_wraps_links`).
pub fn preprocess_autolinks(markdown: &str) -> (r: String)
    ensures
        r@ == spec_preprocess_autolinks(markdown@),
{
    let text = chars_of(markdown);
    let lines = lines_of(text.as_slice());
    let ghost ls = spec_lines(markdown@);
    let mut out: Vec<char> = Vec::new();
    let mut fence: Option<(char, usize)> = None;
    let mut i: usize = 0;
    assert(ls.take(0) =~= Seq::<Seq<char>>::empty());
    while i < lines.len()
        invariant
            ls == deep_chars(lines@),
            i <= ls.len(),
            out@ == join_seqs(spec_fence_pass(ls.take(i as int)).0, "\n"@),
            spec_fence_pass(ls.take(i as int)).1 == match fence {
                Some((c, n)) => Some((c, n as int)),
                None => None::<(char, int)>,
            },
        decreases ls.len() - i,
    {
        let line = lines[i].as_slice();
        assert(ls.take(i + 1).drop_last() =~= ls.take(i as int));
        assert(ls.take(i + 1).last() == line@);
        let ghost prev = spec_fence_pass(ls.take(i as int));
        if i > 0 {
            append_str(&mut out, "\n");
        }
        match fence {
            Some((c, n)) => {
                append_chars(&mut out, line);
                if is_closing_fence(line, c, n) {
                    fence = None;
                }
            },
            None => {
                match detect_opening_fence(line) {
                    Some((c, n)) => {
                        append_chars(&mut out, line);
                        fence = Some((c, n));
                    },
                    None => {
                        let processed = process_line(line);
                        append_chars(&mut out, processed.as_slice());
                    },
                }
            },
        }
        proof {
            let cur = spec_fence_pass(ls.take(i + 1));
            assert(cur.0 == prev.0.push(spec_line_step(prev.1, line@).0));
            if i > 0 {
                assert(cur.0.drop_last() =~= prev.0);
            } else {
                assert(cur.0 =~= seq![spec_line_step(prev.1, line@).0]);
            }
        }
        i += 1;
    }
    assert(ls.take(ls.len() as int) =~= ls);
    let n = text.len();
    if n > 0 && text[n - 1] == '\n' {
        append_str(&mut out, "\n");
        proof {
            reveal_strlit("\n");
        }
    }
    string_from_chars(out.as_slice())
}

} // verus!

verus! {

// ---------------------------------------------------------------------------
// Line count
// ---------------------------------------------------------------------------

/// Whether `s` holds no newline.
pub open spec fn no_newline(s: Seq<char>) -> bool {
    forall|i: int| 0 <= i < s.len() ==> s[i] != '\n'
}

/// Counting over a concatenation adds the counts.
proof fn lemma_count_concat(a: Seq<char>, b: Seq<char>, c: char)
    ensures
        count_char(a + b, c) == count_char(a, c) + count_char(b, c),
    decreases b.len(),
{
    if b.len() == 0 {
        assert(a + b =~= a);
    } else {
        lemma_count_concat(a, b.drop_last(), c);
        assert((a + b).drop_last() =~= a + b.drop_last());
    }
}

/// A single newline counts one.
proof fn lemma_count_one_newline()
    ensures
        count_char(seq!['\n'], '\n') == 1,
        count_char("\n"@, '\n') == 1,
{
    reveal_strlit("\n");
    let s = seq!['\n'];
    assert(s.drop_last() =~= Seq::<char>::empty());
    assert(count_char(s.drop_last(), '\n') == 0);
    assert(s.last() == '\n');
    assert("\n"@ =~= s);
}

/// Text without newlines counts none.
proof fn lemma_count_no_newline(s: Seq<char>)
    requires
        no_newline(s),
    ensures
        count_char(s, '\n') == 0,
    decreases s.len(),
{
    if s.len() > 0 {
        lemma_count_no_newline(s.drop_last());
    }
}

/// Splitting at newlines gives pieces without newlines, one more than the newlines,
/// and a last piece that is empty exactly when the text is empty or ends with a newline.
proof fn lemma_split_newlines(t: Seq<char>)
    ensures
        split_seq(t, '\n').len() == count_char(t, '\n') + 1,
        forall|i: int| 0 <= i < split_seq(t, '\n').len() ==> no_newline(#[trigger] split_seq(t, '\n')[i]),
        (split_seq(t, '\n').last().len() == 0) == (t.len() == 0 || ends_with_newline(t)),
    decreases t.len(),
{
    if t.len() > 0 {
        let q = t.drop_last();
        lemma_split_newlines(q);
        lemma_split_seq_nonempty(q, '\n');
        let prev = split_seq(q, '\n');
        let p = split_seq(t, '\n');
        assert forall|i: int| 0 <= i < p.len() implies no_newline(#[trigger] p[i]) by {
            if i < prev.len() - 1 || (i == prev.len() - 1 && t.last() == '\n') {
                assert(p[i] == prev[i]);
            } else if i == prev.len() - 1 {
                assert(p[i] == prev[i].push(t.last()));
                assert(no_newline(prev[i]));
                assert forall|k: int| 0 <= k < p[i].len() implies p[i][k] != '\n' by {
                    if k < prev[i].len() {
                        assert(p[i][k] == prev[i][k]);
                    }
                }
            }
        }
    }
}

/// A processed line holds only characters of the line and the inserted `<` and `>`,
/// so a line without newlines stays without newlines.
proof fn lemma_process_no_newline(line: Seq<char>, pos: int)
    requires
        no_newline(line),
    ensures
        no_newline(spec_process_from(line, pos)),
    decreases line.len() - pos,
{
    if 0 <= pos < line.len() {
        if line[pos] == '`' {
            let run = run_len(line, pos, '`');
            let after = pos + run;
            lemma_run_len_bounds(line, pos, '`');
            lemma_closing_backticks_after(line, after, run);
            match spec_closing_backticks(line, after, run) {
                Some(close) => {
                    lemma_process_no_newline(line, close + run);
                    let a = line.subrange(pos, close + run);
                    let b = spec_process_from(line, close + run);
                    assert forall|k: int| 0 <= k < (a + b).len() implies (a + b)[k] != '\n' by {
                        if k < a.len() {
                            assert((a + b)[k] == line[pos + k]);
                        } else {
                            assert((a + b)[k] == b[k - a.len()]);
                        }
                    }
                },
                None => {
                    lemma_process_no_newline(line, after);
                    let a = line.subrange(pos, after);
                    let b = spec_process_from(line, after);
                    assert forall|k: int| 0 <= k < (a + b).len() implies (a + b)[k] != '\n' by {
                        if k < a.len() {
                            assert((a + b)[k] == line[pos + k]);
                        } else {
                            assert((a + b)[k] == b[k - a.len()]);
                        }
                    }
                },
            }
        } else {
            match spec_http_protocol(line, pos) {
                Some(proto) => {
                    let n = spec_url_len(line, pos);
                    lemma_url_len_bounds(line, pos);
                    if spec_valid_predecessor(line, pos) && n > proto {
                        lemma_process_no_newline(line, pos + n);
                        let a = seq!['<'] + line.subrange(pos, pos + n) + seq!['>'];
                        let b = spec_process_from(line, pos + n);
                        assert forall|k: int| 0 <= k < (a + b).len() implies (a + b)[k] != '\n' by {
                            if k == 0 {
                            } else if k < n + 1 {
                                assert((a + b)[k] == line[pos + k - 1]);
                            } else if k == n + 1 {
                            } else {
                                assert((a + b)[k] == b[k - a.len()]);
                            }
                        }
                    } else {
                        lemma_process_no_newline(line, pos + 1);
                        let b = spec_process_from(line, pos + 1);
                        assert forall|k: int| 0 <= k < (seq![line[pos]] + b).len() implies (seq![line[pos]] + b)[k] != '\n' by {
                            if k > 0 {
                                assert((seq![line[pos]] + b)[k] == b[k - 1]);
                            }
                        }
                    }
                },
                None => {
                    lemma_process_no_newline(line, pos + 1);
                    let b = spec_process_from(line, pos + 1);
                    assert forall|k: int| 0 <= k < (seq![line[pos]] + b).len() implies (seq![line[pos]] + b)[k] != '\n' by {
                        if k > 0 {
                            assert((seq![line[pos]] + b)[k] == b[k - 1]);
                        }
                    }
                },
            }
        }
    }
}

/// Joining lines without newlines with `\n` puts exactly one newline between neighbours.
proof fn lemma_count_join(ls: Seq<Seq<char>>)
    requires
        ls.len() > 0,
        forall|i: int| 0 <= i < ls.len() ==> no_newline(#[trigger] ls[i]),
    ensures
        count_char(join_seqs(ls, "\n"@), '\n') == ls.len() - 1,
    decreases ls.len(),
{
    reveal_strlit("\n");
    if ls.len() == 1 {
        assert(no_newline(ls[0]));
        lemma_count_no_newline(ls[0]);
    } else {
        let p = ls.drop_last();
        assert forall|i: int| 0 <= i < p.len() implies no_newline(#[trigger] p[i]) by {
            assert(p[i] == ls[i]);
        }
        lemma_count_join(p);
        let j = join_seqs(p, "\n"@);
        assert(no_newline(ls.last()));
        lemma_count_no_newline(ls.last());
        lemma_count_concat(j, "\n"@, '\n');
        lemma_count_concat(j + "\n"@, ls.last(), '\n');
        lemma_count_one_newline();
    }
}

/// A non-empty line stays non-empty once processed.
proof fn lemma_process_nonempty(line: Seq<char>, pos: int)
    requires
        0 <= pos < line.len(),
    ensures
        spec_process_from(line, pos).len() > 0,
{
    if line[pos] == '`' {
        let run = run_len(line, pos, '`');
        lemma_run_len_bounds(line, pos, '`');
        lemma_closing_backticks_after(line, pos + run, run);
    }
}

/// The last character of a join is the last character of the last piece, when that
/// piece is not empty.
proof fn lemma_join_last(ps: Seq<Seq<char>>, sep: Seq<char>)
    requires
        ps.len() > 0,
        ps.last().len() > 0,
    ensures
        join_seqs(ps, sep).len() > 0,
        join_seqs(ps, sep).last() == ps.last().last(),
{
    if ps.len() == 1 {
        assert(ps[0] == ps.last());
    }
}

/// Autolinking keeps the number of newlines, so every line keeps its line number.
pub proof fn lemma_preprocess_keeps_newlines(md: Seq<char>)
    ensures
        count_char(spec_preprocess_autolinks(md), '\n') == count_char(md, '\n'),
        ends_with_newline(spec_preprocess_autolinks(md)) == ends_with_newline(md),
{
    reveal_strlit("\n");
    let p = split_seq(md, '\n');
    lemma_split_newlines(md);
    lemma_split_seq_nonempty(md, '\n');
    let ls = spec_lines(md);
    let ended = Seq::new((p.len() - 1) as nat, |i: int| strip_cr(p[i]));
    assert forall|i: int| 0 <= i < ls.len() implies no_newline(#[trigger] ls[i]) by {
        assert(no_newline(p[i]));
        if i < p.len() - 1 {
            assert(ls[i] == strip_cr(p[i]));
            assert forall|k: int| 0 <= k < ls[i].len() implies ls[i][k] != '\n' by {
                assert(ls[i][k] == p[i][k]);
            }
        } else {
            assert(ls[i] == p.last());
        }
    }
    lemma_fence_pass_lines(ls);
    let outs = spec_fence_pass(ls).0;
    assert forall|i: int| 0 <= i < outs.len() implies no_newline(#[trigger] outs[i]) by {
        assert(no_newline(ls[i]));
        lemma_process_no_newline(ls[i], 0);
    }
    let tail = if ends_with_newline(md) { seq!['\n'] } else { Seq::<char>::empty() };
    lemma_count_concat(join_seqs(outs, "\n"@), tail, '\n');
    if ends_with_newline(md) {
        lemma_count_one_newline();
        let q = md.drop_last();
        lemma_split_seq_nonempty(q, '\n');
        assert(p.len() == split_seq(q, '\n').len() + 1);
    } else {
        assert(count_char(tail, '\n') == 0);
    }
    if p.last().len() == 0 {
        assert(ls.len() == p.len() - 1);
    } else {
        assert(ls.len() == p.len());
    }
    assert(outs.len() == ls.len());
    if outs.len() > 0 {
        lemma_count_join(outs);
    } else {
        assert(join_seqs(outs, "\n"@) =~= Seq::<char>::empty());
        assert(count_char(Seq::<char>::empty(), '\n') == 0);
    }
    let out = spec_preprocess_autolinks(md);
    if ends_with_newline(md) {
        assert(out == join_seqs(outs, "\n"@) + seq!['\n']);
        assert(out.last() == '\n');
    } else {
        assert(out =~= join_seqs(outs, "\n"@));
        if md.len() > 0 {
            assert(p.last().len() > 0);
            let k = ls.len() - 1;
            assert(ls[k] == p.last());
            let o = outs[k];
            if o != ls[k] {
                lemma_process_nonempty(ls[k], 0);
            }
            assert(o.len() > 0);
            assert(outs.last() == o);
            lemma_join_last(outs, "\n"@);
            assert(no_newline(o));
            assert(o.last() == o[o.len() - 1]);
        }
    }
}

/// A link target that autolinking wraps: `http://` or `https://` and at least one more
/// character.
pub open spec fn is_link_target(u: Seq<char>) -> bool {
    (u.len() > 8 && u.take(8) == "https://"@) || (u.len() > 7 && u.take(7) == "http://"@)
}

/// `b` is `a` with some link targets wrapped in `<` and `>`: reading both from the start,
/// each character of `b` is the next of `a`, or opens a wrapped run of `a` that is a link
/// target and is closed by `>`.
pub open spec fn links_wrapped(a: Seq<char>, b: Seq<char>) -> bool
    decreases b.len(),
{
    if b.len() == 0 {
        a.len() == 0
    } else {
        (a.len() > 0 && a[0] == b[0] && links_wrapped(a.drop_first(), b.drop_first()))
            || (b[0] == '<' && exists|n: int|
            0 < n <= a.len() && n + 2 <= b.len() && is_link_target(#[trigger] a.take(n))
                && b.subrange(1, n + 1) == a.take(n) && b[n + 1] == '>' && links_wrapped(a.skip(n), b.skip(n + 2)))
    }
}

proof fn lemma_links_refl(a: Seq<char>)
    ensures
        links_wrapped(a, a),
    decreases a.len(),
{
    if a.len() > 0 {
        lemma_links_refl(a.drop_first());
    }
}

proof fn lemma_links_concat(a1: Seq<char>, b1: Seq<char>, a2: Seq<char>, b2: Seq<char>)
    requires
        links_wrapped(a1, b1),
        links_wrapped(a2, b2),
    ensures
        links_wrapped(a1 + a2, b1 + b2),
    decreases b1.len(),
{
    if b1.len() == 0 {
        assert(a1 + a2 =~= a2);
        assert(b1 + b2 =~= b2);
    } else if a1.len() > 0 && a1[0] == b1[0] && links_wrapped(a1.drop_first(), b1.drop_first()) {
        lemma_links_concat(a1.drop_first(), b1.drop_first(), a2, b2);
        assert((a1 + a2).drop_first() =~= a1.drop_first() + a2);
        assert((b1 + b2).drop_first() =~= b1.drop_first() + b2);
    } else {
        let n = choose|n: int|
            0 < n <= a1.len() && n + 2 <= b1.len() && is_link_target(#[trigger] a1.take(n))
                && b1.subrange(1, n + 1) == a1.take(n) && b1[n + 1] == '>' && links_wrapped(a1.skip(n), b1.skip(n + 2));
        lemma_links_concat(a1.skip(n), b1.skip(n + 2), a2, b2);
        let a = a1 + a2;
        let b = b1 + b2;
        assert(a.take(n) =~= a1.take(n));
        assert(b.subrange(1, n + 1) =~= b1.subrange(1, n + 1));
        assert(a.skip(n) =~= a1.skip(n) + a2);
        assert(b.skip(n + 2) =~= b1.skip(n + 2) + b2);
        assert(b[n + 1] == b1[n + 1]);
        assert(b[0] == b1[0]);
        assert(0 < n <= a.len() && n + 2 <= b.len() && is_link_target(a.take(n)) && b.subrange(1, n + 1) == a.take(n)
            && b[n + 1] == '>' && links_wrapped(a.skip(n), b.skip(n + 2)));
    }
}

proof fn lemma_links_wrap(u: Seq<char>)
    requires
        is_link_target(u),
    ensures
        links_wrapped(u, seq!['<'] + u + seq!['>']),
{
    let b = seq!['<'] + u + seq!['>'];
    let n = u.len() as int;
    assert(u.take(n) =~= u);
    assert(b.subrange(1, n + 1) =~= u);
    assert(u.skip(n) =~= Seq::<char>::empty());
    assert(b.skip(n + 2) =~= Seq::<char>::empty());
    assert(links_wrapped(u.skip(n), b.skip(n + 2)));
    assert(is_link_target(u.take(n)));
}

proof fn lemma_process_from_links(line: Seq<char>, pos: int)
    requires
        0 <= pos <= line.len(),
    ensures
        links_wrapped(line.subrange(pos, line.len() as int), spec_process_from(line, pos)),
    decreases line.len() - pos,
{
    let len = line.len() as int;
    if pos == len {
        assert(line.subrange(pos, len) =~= Seq::<char>::empty());
    } else if line[pos] == '`' {
        let run = run_len(line, pos, '`');
        let after = pos + run;
        lemma_run_len_bounds(line, pos, '`');
        lemma_closing_backticks_after(line, after, run);
        let stop = match spec_closing_backticks(line, after, run) {
            Some(close) => close + run,
            None => after,
        };
        lemma_process_from_links(line, stop);
        lemma_links_refl(line.subrange(pos, stop));
        lemma_links_concat(line.subrange(pos, stop), line.subrange(pos, stop), line.subrange(stop, len), spec_process_from(line, stop));
        assert(line.subrange(pos, stop) + line.subrange(stop, len) =~= line.subrange(pos, len));
    } else {
        let single = seq![line[pos]];
        match spec_http_protocol(line, pos) {
            Some(proto) => {
                let n = spec_url_len(line, pos);
                lemma_url_len_bounds(line, pos);
                if spec_valid_predecessor(line, pos) && n > proto {
                    let u = line.subrange(pos, pos + n);
                    reveal_strlit("https://");
                    reveal_strlit("http://");
                    if proto == 8 {
                        assert(u.take(8) =~= line.subrange(pos, pos + 8));
                    } else {
                        assert(u.take(7) =~= line.subrange(pos, pos + 7));
                    }
                    lemma_process_from_links(line, pos + n);
                    lemma_links_wrap(u);
                    lemma_links_concat(u, seq!['<'] + u + seq!['>'], line.subrange(pos + n, len), spec_process_from(line, pos + n));
                    assert(u + line.subrange(pos + n, len) =~= line.subrange(pos, len));
                } else {
                    lemma_process_from_links(line, pos + 1);
                    lemma_links_refl(single);
                    lemma_links_concat(single, single, line.subrange(pos + 1, len), spec_process_from(line, pos + 1));
                    assert(single + line.subrange(pos + 1, len) =~= line.subrange(pos, len));
                }
            },
            None => {
                lemma_process_from_links(line, pos + 1);
                lemma_links_refl(single);
                lemma_links_concat(single, single, line.subrange(pos + 1, len), spec_process_from(line, pos + 1));
                assert(single + line.subrange(pos + 1, len) =~= line.subrange(pos, len));
            },
        }
    }
}

proof fn lemma_join_links(ls: Seq<Seq<char>>, outs: Seq<Seq<char>>)
    requires
        ls.len() == outs.len(),
        forall|i: int| 0 <= i < ls.len() ==> links_wrapped(#[trigger] ls[i], outs[i]),
    ensures
        links_wrapped(join_seqs(ls, "\n"@), join_seqs(outs, "\n"@)),
    decreases ls.len(),
{
    if ls.len() == 0 {
    } else if ls.len() == 1 {
        assert(links_wrapped(ls[0], outs[0]));
    } else {
        let pl = ls.drop_last();
        let po = outs.drop_last();
        assert forall|i: int| 0 <= i < pl.len() implies links_wrapped(#[trigger] pl[i], po[i]) by {
            assert(pl[i] == ls[i] && po[i] == outs[i]);
        }
        lemma_join_links(pl, po);
        lemma_links_refl("\n"@);
        lemma_links_concat(join_seqs(pl, "\n"@), join_seqs(po, "\n"@), "\n"@, "\n"@);
        assert(links_wrapped(ls.last(), outs.last()));
        lemma_links_concat(join_seqs(pl, "\n"@) + "\n"@, join_seqs(po, "\n"@) + "\n"@, ls.last(), outs.last());
    }
}

proof fn lemma_split_avoids(t: Seq<char>, sep: char, c: char)
    requires
        forall|m: int| 0 <= m < t.len() ==> t[m] != c,
    ensures
        forall|i: int, k: int|
            0 <= i < split_seq(t, sep).len() && 0 <= k < split_seq(t, sep)[i].len() ==> #[trigger] split_seq(t, sep)[i][k] != c,
    decreases t.len(),
{
    lemma_split_seq_nonempty(t, sep);
    if t.len() > 0 {
        let q = t.drop_last();
        lemma_split_avoids(q, sep, c);
        lemma_split_seq_nonempty(q, sep);
        let p = split_seq(q, sep);
        let s = split_seq(t, sep);
        assert(t[t.len() - 1] != c);
        assert forall|i: int, k: int| 0 <= i < s.len() && 0 <= k < s[i].len() implies #[trigger] s[i][k] != c by {
            if t.last() == sep {
                if i < p.len() {
                    assert(s[i] == p[i]);
                }
            } else if i == p.len() - 1 && k == p[i].len() {
            } else {
                assert(s[i][k] == p[i][k]);
            }
        }
    }
}

/// Autolinking only wraps links: on text without carriage returns, the output is the input
/// with some runs that start with `http://` or `https://` (and go on) put between `<` and
/// `>`, and nothing else changed.
pub proof fn lemma_preprocess_only_wraps_links(md: Seq<char>)
    requires
        forall|i: int| 0 <= i < md.len() ==> md[i] != '\r',
    ensures
        links_wrapped(md, spec_preprocess_autolinks(md)),
{
    reveal_strlit("\n");
    let p = split_seq(md, '\n');
    lemma_join_split(md, '\n');
    lemma_split_seq_nonempty(md, '\n');
    assert(seq!['\n'] =~= "\n"@);
    let ls = spec_lines(md);
    lemma_split_avoids(md, '\n', '\r');
    assert forall|i: int| 0 <= i < p.len() - 1 implies strip_cr(#[trigger] p[i]) == p[i] by {
        if p[i].len() > 0 {
            assert(p[i][p[i].len() - 1] != '\r');
        }
    }
    lemma_fence_pass_lines(ls);
    let outs = spec_fence_pass(ls).0;
    assert forall|i: int| 0 <= i < ls.len() implies links_wrapped(#[trigger] ls[i], outs[i]) by {
        if outs[i] == ls[i] {
            lemma_links_refl(ls[i]);
        } else {
            lemma_process_from_links(ls[i], 0);
            assert(ls[i].subrange(0, ls[i].len() as int) =~= ls[i]);
        }
    }
    lemma_join_links(ls, outs);
    let out = spec_preprocess_autolinks(md);
    if p.last().len() == 0 {
        assert(ls =~= p.drop_last());
        if p.len() == 1 {
            assert(md.len() == 0);
            assert(out =~= Seq::<char>::empty());
        } else {
            assert(md == join_seqs(p.drop_last(), "\n"@) + "\n"@ + p.last());
            assert(md =~= join_seqs(ls, "\n"@) + seq!['\n']);
            assert(ends_with_newline(md));
            lemma_links_refl(seq!['\n']);
            lemma_links_concat(join_seqs(ls, "\n"@), join_seqs(outs, "\n"@), seq!['\n'], seq!['\n']);
        }
    } else {
        assert(ls =~= p);
        if md.len() > 0 && md.last() == '\n' {
            assert(p == split_seq(md.drop_last(), '\n').push(Seq::<char>::empty()));
        }
        assert(!ends_with_newline(md));
        assert(out =~= join_seqs(outs, "\n"@));
    }
}

} // verus!
