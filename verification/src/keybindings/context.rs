//! Focus contexts in which keybindings apply.
use vstd::prelude::*;

use crate::text::{chars_eq, chars_of};

verus! {

/// Context for keybinding matching.
///
/// When a key chord matches both a context-specific and a global binding,
/// the context-specific binding takes priority. Bindings of a different context
/// are invisible.
#[derive(Debug, Clone, Copy, PartialEq, Eq, Hash, Structural)]
pub enum KeyContext {
    Content,
    Sidebar,
    RightSidebar,
    QuickAccess,
    Search,
}

/// Error for a name that no context carries; holds the rejected text.
#[derive(Debug, Clone, PartialEq, Eq)]
pub struct KeyContextParseError(pub String);

/// What parsing the text `s` gives: the context named `s`, or an error holding `s`
/// when no context has that name.
pub open spec fn context_parse_outcome(s: Seq<char>, r: Result<KeyContext, KeyContextParseError>) -> bool {
    match r {
        Ok(c) => c.spec_name() == s,
        Err(e) => e.0@ == s && forall|c: KeyContext| #[trigger] c.spec_name() != s,
    }
}

impl KeyContext {
    /// The snake_case name of the context.
    pub open spec fn spec_name(self) -> Seq<char> {
        match self {
            KeyContext::Content => "content"@,
            KeyContext::Sidebar => "sidebar"@,
            KeyContext::RightSidebar => "right_sidebar"@,
            KeyContext::QuickAccess => "quick_access"@,
            KeyContext::Search => "search"@,
        }
    }

    /// The snake_case name, as text.
    pub fn as_str(self) -> (s: &'static str)
        ensures
            s@ == self.spec_name(),
    {
        match self {
            KeyContext::Content => "content",
            KeyContext::Sidebar => "sidebar",
            KeyContext::RightSidebar => "right_sidebar",
            KeyContext::QuickAccess => "quick_access",
            KeyContext::Search => "search",
        }
    }

    /// The snake_case name, as an owned string.
    pub fn to_string(&self) -> (s: String)
        ensures
            s@ == self.spec_name(),
    {
        self.as_str().to_owned()
    }

    /// Parse a context name; succeeds exactly for the five context names.
    pub fn parse(s: &str) -> (r: Result<KeyContext, KeyContextParseError>)
        ensures
            context_parse_outcome(s@, r),
    {
        let input = chars_of(s);
        let all = [
            KeyContext::Content,
            KeyContext::Sidebar,
            KeyContext::RightSidebar,
            KeyContext::QuickAccess,
            KeyContext::Search,
        ];
        let mut i: usize = 0;
        while i < 5
            invariant
                input@ == s@,
                i <= 5,
                all@ == seq![KeyContext::Content, KeyContext::Sidebar, KeyContext::RightSidebar, KeyContext::QuickAccess, KeyContext::Search],
                forall|j: int| 0 <= j < i ==> #[trigger] all@[j].spec_name() != s@,
            decreases 5 - i,
        {
            let c = all[i];
            let name = chars_of(c.as_str());
            if chars_eq(input.as_slice(), name.as_slice()) {
                return Ok(c);
            }
            i += 1;
        }
        assert forall|c: KeyContext| #[trigger] c.spec_name() != s@ by {
            match c {
                KeyContext::Content => assert(all@[0].spec_name() != s@),
                KeyContext::Sidebar => assert(all@[1].spec_name() != s@),
                KeyContext::RightSidebar => assert(all@[2].spec_name() != s@),
                KeyContext::QuickAccess => assert(all@[3].spec_name() != s@),
                KeyContext::Search => assert(all@[4].spec_name() != s@),
            }
        }
        Err(KeyContextParseError(s.to_owned()))
    }
}

/// Parsing through the standard `FromStr` trait.
impl std::str::FromStr for KeyContext {
    type Err = KeyContextParseError;

    fn from_str(s: &str) -> (r: Result<KeyContext, KeyContextParseError>)
        ensures
            context_parse_outcome(s@, r),
    {
        KeyContext::parse(s)
    }
}

/// The context whose name starts with `first` and has length `len`; these two
/// facts tell the five names apart.
pub open spec fn context_from_first_and_len(first: char, len: int) -> KeyContext {
    if first == 'c' {
        KeyContext::Content
    } else if first == 'r' {
        KeyContext::RightSidebar
    } else if first == 'q' {
        KeyContext::QuickAccess
    } else if len == 7 {
        KeyContext::Sidebar
    } else {
        KeyContext::Search
    }
}

proof fn lemma_context_key(c: KeyContext)
    ensures
        context_from_first_and_len(c.spec_name()[0], c.spec_name().len() as int) == c,
{
    match c {
        KeyContext::Content => { reveal_strlit("content"); },
        KeyContext::Sidebar => { reveal_strlit("sidebar"); },
        KeyContext::RightSidebar => { reveal_strlit("right_sidebar"); },
        KeyContext::QuickAccess => { reveal_strlit("quick_access"); },
        KeyContext::Search => { reveal_strlit("search"); },
    }
}

/// No two contexts share a name.
pub proof fn lemma_context_name_injective(a: KeyContext, b: KeyContext)
    requires
        a.spec_name() == b.spec_name(),
    ensures
        a == b,
{
    lemma_context_key(a);
    lemma_context_key(b);
}

/// Parsing the name of a context gives back that context.
pub proof fn lemma_context_parse_name(c: KeyContext, r: Result<KeyContext, KeyContextParseError>)
    requires
        context_parse_outcome(c.spec_name(), r),
    ensures
        r is Ok && r->Ok_0 == c,
{
    match r {
        Ok(d) => {
            lemma_context_name_injective(c, d);
        },
        Err(e) => {
            assert(c.spec_name() != c.spec_name());
        },
    }
}

} // verus!
