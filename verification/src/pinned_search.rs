//! Pinned searches: persistent keyword highlights, each with its own color.
//!
//! The collection and its edits live here; loading, saving and telling other
//! windows about a change are left to the caller.
use vstd::prelude::*;

use crate::text::{append_str, chars_of, str_eq, string_from_chars};
use crate::viewer::{hex_digit, spec_lower_hex};

verus! {

broadcast use vstd::seq::group_seq_axioms;

/// A UTC instant: whole seconds since the Unix epoch and the nanoseconds past them.
#[derive(Debug, Clone, Copy, PartialEq, Eq, Structural)]
pub struct Timestamp {
    pub secs: i64,
    pub nanos: u32,
}

/// A reading of the system clock relative to the Unix epoch: how far after it
/// (`after_epoch`), or how far before it, in whole seconds and the nanoseconds past them.
#[derive(Debug, Clone, Copy, PartialEq, Eq, Structural)]
pub struct ClockReading {
    pub after_epoch: bool,
    pub secs: u64,
    pub nanos: u32,
}

/// The current time (`SystemTime::now`) measured from the Unix epoch
/// (`duration_since(UNIX_EPOCH)`): the `Duration` after it, or, for a clock set before
/// the epoch, the `Duration` of the error (`SystemTimeError::duration`), each in whole
/// seconds (`as_secs`) and the nanoseconds past them (`subsec_nanos`, always under one
/// billion). Which time it reads is left open: it depends on the clock.
#[verifier::external_body]
fn read_clock() -> (r: ClockReading)
    ensures
        r.nanos < 1_000_000_000,
{
    match std::time::SystemTime::now().duration_since(std::time::UNIX_EPOCH) {
        Ok(d) => ClockReading { after_epoch: true, secs: d.as_secs(), nanos: d.subsec_nanos() },
        Err(e) => ClockReading { after_epoch: false, secs: e.duration().as_secs(), nanos: e.duration().subsec_nanos() },
    }
}

/// The UTC instant of a clock reading: seconds after the epoch as they are; a time before
/// it as negative seconds and the nanoseconds forward from them. `None` when the seconds
/// do not fit in `i64`.
pub open spec fn spec_timestamp(r: ClockReading) -> Option<Timestamp> {
    if r.after_epoch {
        if r.secs <= i64::MAX {
            Some(Timestamp { secs: r.secs as i64, nanos: r.nanos })
        } else {
            None
        }
    } else if r.nanos == 0 {
        if r.secs <= i64::MAX {
            Some(Timestamp { secs: (-(r.secs as int)) as i64, nanos: 0 })
        } else {
            None
        }
    } else if r.secs < i64::MAX {
        Some(Timestamp { secs: (-(r.secs as int) - 1) as i64, nanos: (1_000_000_000 - r.nanos) as u32 })
    } else {
        None
    }
}

/// The UTC instant of a clock reading whose nanoseconds are under one billion.
pub fn timestamp_from_reading(r: ClockReading) -> (t: Option<Timestamp>)
    requires
        r.nanos < 1_000_000_000,
    ensures
        t == spec_timestamp(r),
{
    if r.after_epoch {
        if r.secs <= 0x7fff_ffff_ffff_ffffu64 {
            Some(Timestamp { secs: r.secs as i64, nanos: r.nanos })
        } else {
            None
        }
    } else if r.nanos == 0 {
        if r.secs <= 0x7fff_ffff_ffff_ffffu64 {
            let s = r.secs as i64;
            Some(Timestamp { secs: -s, nanos: 0 })
        } else {
            None
        }
    } else if r.secs < 0x7fff_ffff_ffff_ffffu64 {
        let s = r.secs as i64;
        Some(Timestamp { secs: -s - 1, nanos: 1_000_000_000 - r.nanos })
    } else {
        None
    }
}

/// The current time as a UTC instant; `None` only when the clock reads further than
/// `i64` seconds from the epoch.
pub fn now_timestamp() -> (t: Option<Timestamp>)
    ensures
        exists|r: ClockReading| r.nanos < 1_000_000_000 && t == spec_timestamp(r),
{
    let r = read_clock();
    timestamp_from_reading(r)
}

/// Whether `c` is a lowercase hexadecimal digit.
pub open spec fn is_lower_hex(c: char) -> bool {
    ('0' <= c && c <= '9') || ('a' <= c && c <= 'f')
}

/// Sixteen bytes from the system's random source (`getrandom::fill`); `None` when the
/// source reports an error. Which bytes come out is left open: they are random.
#[verifier::external_body]
fn random_bytes() -> (r: Option<Vec<u8>>)
    ensures
        r matches Some(b) ==> b@.len() == 16,
{
    let mut bytes = [0u8; 16];
    match getrandom::fill(&mut bytes) {
        Ok(()) => Some(bytes.to_vec()),
        Err(_) => None,
    }
}

/// The bytes of a random (version 4) UUID made from `b`: byte 6 keeps its low nibble
/// under version 4, byte 8 keeps its low six bits under the RFC 4122 variant.
pub open spec fn v4_bytes(b: Seq<u8>) -> Seq<u8> {
    b.update(6, ((b[6] % 16) + 64) as u8).update(8, ((b[8] % 64) + 128) as u8)
}

/// `uuid::Builder::from_random_bytes(b).into_uuid().simple()` written out: the UUID's
/// sixteen bytes in order, each as two lowercase hexadecimal digits, high nibble first.
#[verifier::external_body]
fn uuid_v4_simple(b: &[u8]) -> (s: String)
    requires
        b@.len() == 16,
    ensures
        s@ == spec_lower_hex(v4_bytes(b@)),
{
    let bytes: [u8; 16] = b.try_into().unwrap();
    uuid::Builder::from_random_bytes(bytes).into_uuid().simple().to_string()
}

/// The hexadecimal digits of bytes are lowercase hexadecimal digits, two per byte.
proof fn lemma_lower_hex_shape(bytes: Seq<u8>)
    ensures
        spec_lower_hex(bytes).len() == 2 * bytes.len(),
        forall|i: int| 0 <= i < spec_lower_hex(bytes).len() ==> is_lower_hex(#[trigger] spec_lower_hex(bytes)[i]),
    decreases bytes.len(),
{
    if bytes.len() > 0 {
        let p = bytes.drop_last();
        lemma_lower_hex_shape(p);
        let h = spec_lower_hex(bytes);
        let hp = spec_lower_hex(p);
        let b = bytes.last();
        assert(is_lower_hex(hex_digit((b / 16) as int))) by {
            lemma_hex_digit_is_lower_hex((b / 16) as int);
        }
        assert(is_lower_hex(hex_digit((b % 16) as int))) by {
            lemma_hex_digit_is_lower_hex((b % 16) as int);
        }
        assert forall|i: int| 0 <= i < h.len() implies is_lower_hex(#[trigger] h[i]) by {
            if i < hp.len() {
                assert(h[i] == hp[i]);
            }
        }
    }
}

/// A hexadecimal digit value gives a lowercase hexadecimal digit.
proof fn lemma_hex_digit_is_lower_hex(n: int)
    requires
        0 <= n < 16,
    ensures
        is_lower_hex(hex_digit(n)),
{
}

/// Whether `s` has the shape of a generated id: `ps_` followed by 32 lowercase hex digits.
pub open spec fn is_generated_id(s: Seq<char>) -> bool {
    &&& s.len() == 35
    &&& s.take(3) == seq!['p', 's', '_']
    &&& forall|i: int| 3 <= i < 35 ==> is_lower_hex(#[trigger] s[i])
}

/// The id made from random bytes `b`: `ps_` and the digits of the version 4 UUID of `b`.
pub open spec fn spec_id_from_bytes(b: Seq<u8>) -> Seq<char> {
    seq!['p', 's', '_'] + spec_lower_hex(v4_bytes(b))
}

/// An id made from sixteen bytes has the shape of a generated id.
pub proof fn lemma_generated_id_shape(b: Seq<u8>)
    requires
        b.len() == 16,
    ensures
        is_generated_id(spec_id_from_bytes(b)),
{
    lemma_lower_hex_shape(v4_bytes(b));
    let s = spec_id_from_bytes(b);
    let h = spec_lower_hex(v4_bytes(b));
    assert(s.take(3) =~= seq!['p', 's', '_']);
    assert forall|i: int| 3 <= i < 35 implies is_lower_hex(#[trigger] s[i]) by {
        assert(s[i] == h[i - 3]);
    }
}

/// Unique identifier for a pinned search.
#[derive(Debug, PartialEq, Eq, Hash)]
pub struct PinnedSearchId(String);

impl View for PinnedSearchId {
    type V = Seq<char>;

    closed spec fn view(&self) -> Seq<char> {
        self.0@
    }
}

impl Clone for PinnedSearchId {
    fn clone(&self) -> (r: PinnedSearchId)
        ensures
            r == *self,
    {
        PinnedSearchId(self.0.clone())
    }
}

impl PinnedSearchId {
    /// The id made from sixteen random bytes: `ps_` and the version 4 UUID of those
    /// bytes in simple form (32 lowercase hexadecimal digits).
    pub fn from_random_bytes(bytes: &[u8]) -> (r: PinnedSearchId)
        requires
            bytes@.len() == 16,
        ensures
            r@ == spec_id_from_bytes(bytes@),
            is_generated_id(r@),
    {
        let hex = uuid_v4_simple(bytes);
        proof {
            lemma_generated_id_shape(bytes@);
        }
        let mut out: Vec<char> = Vec::new();
        out.push('p');
        out.push('s');
        out.push('_');
        append_str(&mut out, hex.as_str());
        assert(out@ =~= spec_id_from_bytes(bytes@));
        PinnedSearchId(string_from_chars(out.as_slice()))
    }

    /// Generate a new unique id from sixteen bytes of the system's random source;
    /// `None` when the source fails.
    pub fn new() -> (r: Option<PinnedSearchId>)
        ensures
            r matches Some(id) ==> exists|b: Seq<u8>| b.len() == 16 && id@ == spec_id_from_bytes(b),
            r matches Some(id) ==> is_generated_id(id@),
    {
        match random_bytes() {
            Some(b) => Some(PinnedSearchId::from_random_bytes(b.as_slice())),
            None => None,
        }
    }

    /// An id holding the given text.
    pub fn from_string(s: String) -> (r: PinnedSearchId)
        ensures
            r@ == s@,
    {
        PinnedSearchId(s)
    }

    /// The id's text.
    pub fn as_str(&self) -> (r: &str)
        ensures
            r@ == self@,
    {
        self.0.as_str()
    }

    /// The id's text, as an owned string.
    pub fn to_string(&self) -> (r: String)
        ensures
            r@ == self@,
    {
        self.0.clone()
    }
}

impl From<String> for PinnedSearchId {
    fn from(s: String) -> (r: PinnedSearchId) {
        PinnedSearchId(s)
    }
}

impl vstd::std_specs::convert::FromSpecImpl<String> for PinnedSearchId {
    open spec fn obeys_from_spec() -> bool {
        true
    }

    closed spec fn from_spec(v: String) -> PinnedSearchId {
        PinnedSearchId(v)
    }
}

/// Highlight color for pinned searches.
///
/// Yellow is not among them: it marks the active search, which can be navigated.
#[derive(Debug, Clone, Copy, PartialEq, Eq, Hash, Structural)]
pub enum HighlightColor {
    Green,
    Blue,
    Pink,
    Orange,
    Purple,
}

impl Default for HighlightColor {
    fn default() -> (c: HighlightColor)
        ensures
            c == HighlightColor::Green,
    {
        HighlightColor::Green
    }
}

impl HighlightColor {
    /// All colors for pinned searches, in rotation order.
    pub const ALL: [HighlightColor; 5] = [
        HighlightColor::Green,
        HighlightColor::Blue,
        HighlightColor::Pink,
        HighlightColor::Orange,
        HighlightColor::Purple,
    ];

    /// The color that follows in the fixed rotation.
    pub open spec fn spec_next(self) -> HighlightColor {
        match self {
            HighlightColor::Green => HighlightColor::Blue,
            HighlightColor::Blue => HighlightColor::Pink,
            HighlightColor::Pink => HighlightColor::Orange,
            HighlightColor::Orange => HighlightColor::Purple,
            HighlightColor::Purple => HighlightColor::Green,
        }
    }

    /// The CSS class that paints this color.
    pub open spec fn spec_css_class(self) -> Seq<char> {
        match self {
            HighlightColor::Green => "highlight-green"@,
            HighlightColor::Blue => "highlight-blue"@,
            HighlightColor::Pink => "highlight-pink"@,
            HighlightColor::Orange => "highlight-orange"@,
            HighlightColor::Purple => "highlight-purple"@,
        }
    }

    /// The color's name on the script side.
    pub open spec fn spec_js_name(self) -> Seq<char> {
        match self {
            HighlightColor::Green => "green"@,
            HighlightColor::Blue => "blue"@,
            HighlightColor::Pink => "pink"@,
            HighlightColor::Orange => "orange"@,
            HighlightColor::Purple => "purple"@,
        }
    }

    /// Return the next color in the fixed rotation order.
    pub fn next(self) -> (c: HighlightColor)
        ensures
            c == self.spec_next(),
    {
        match self {
            HighlightColor::Green => HighlightColor::Blue,
            HighlightColor::Blue => HighlightColor::Pink,
            HighlightColor::Pink => HighlightColor::Orange,
            HighlightColor::Orange => HighlightColor::Purple,
            HighlightColor::Purple => HighlightColor::Green,
        }
    }

    /// The CSS class name for this color.
    pub fn css_class(&self) -> (s: &'static str)
        ensures
            s@ == self.spec_css_class(),
    {
        match self {
            HighlightColor::Green => "highlight-green",
            HighlightColor::Blue => "highlight-blue",
            HighlightColor::Pink => "highlight-pink",
            HighlightColor::Orange => "highlight-orange",
            HighlightColor::Purple => "highlight-purple",
        }
    }

    /// The color name for the script side.
    pub fn to_js_name(self) -> (s: &'static str)
        ensures
            s@ == self.spec_js_name(),
    {
        match self {
            HighlightColor::Green => "green",
            HighlightColor::Blue => "blue",
            HighlightColor::Pink => "pink",
            HighlightColor::Orange => "orange",
            HighlightColor::Purple => "purple",
        }
    }
}

/// The rotation returns to its start after five steps.
pub proof fn lemma_next_period_five(c: HighlightColor)
    ensures
        c.spec_next().spec_next().spec_next().spec_next().spec_next() == c,
{
}

/// Five steps of the rotation from any color pass through five different colors,
/// so five pins added in a row get every color once.
pub proof fn lemma_rotation_covers_all_colors(c: HighlightColor, d: HighlightColor)
    ensures
        d == c || d == c.spec_next() || d == c.spec_next().spec_next()
            || d == c.spec_next().spec_next().spec_next()
            || d == c.spec_next().spec_next().spec_next().spec_next(),
{
}

/// A pinned search entry.
#[derive(Debug, PartialEq)]
pub struct PinnedSearch {
    /// Unique identifier.
    pub id: PinnedSearchId,
    /// Search pattern (plain text, not a regular expression).
    pub pattern: String,
    /// Highlight color.
    pub color: HighlightColor,
    /// Case-sensitive matching.
    pub case_sensitive: bool,
    /// Disabled: the highlight is not shown but the entry stays in the list.
    pub disabled: bool,
    /// Creation timestamp.
    pub created_at: Timestamp,
}

impl Clone for PinnedSearch {
    fn clone(&self) -> (r: PinnedSearch)
        ensures
            r == *self,
    {
        PinnedSearch {
            id: self.id.clone(),
            pattern: self.pattern.clone(),
            color: self.color,
            case_sensitive: self.case_sensitive,
            disabled: self.disabled,
            created_at: self.created_at,
        }
    }
}

impl PinnedSearch {
    /// A pinned search from its parts: enabled and case-insensitive.
    pub fn from_parts(id: PinnedSearchId, pattern: &str, color: HighlightColor, created_at: Timestamp) -> (p: PinnedSearch)
        ensures
            is_pin(p, id@, pattern@, color, created_at),
    {
        PinnedSearch { id, pattern: pattern.to_owned(), color, case_sensitive: false, disabled: false, created_at }
    }

    /// Create a new pinned search with the given pattern and color, enabled and
    /// case-insensitive, under an id made from fresh random bytes and stamped with the
    /// current time; `None` when the random source fails or the clock reads further
    /// than `i64` seconds from the epoch.
    pub fn new(pattern: &str, color: HighlightColor) -> (r: Option<PinnedSearch>)
        ensures
            r matches Some(p) ==> is_fresh_pin(p, pattern@, color),
    {
        let id = match PinnedSearchId::new() {
            Some(id) => id,
            None => return None,
        };
        let created_at = match now_timestamp() {
            Some(t) => t,
            None => return None,
        };
        Some(PinnedSearch::from_parts(id, pattern, color, created_at))
    }
}

/// `p` is the enabled, case-insensitive pinned search with these parts.
pub open spec fn is_pin(p: PinnedSearch, id: Seq<char>, pattern: Seq<char>, color: HighlightColor, created_at: Timestamp) -> bool {
    &&& p.id@ == id
    &&& p.pattern@ == pattern
    &&& p.color == color
    &&& !p.case_sensitive
    &&& !p.disabled
    &&& p.created_at == created_at
}

/// `p` is a pin of `pattern` in `color` as creation makes it: its id made from sixteen
/// random bytes and its time read from the clock.
pub open spec fn is_fresh_pin(p: PinnedSearch, pattern: Seq<char>, color: HighlightColor) -> bool {
    &&& exists|b: Seq<u8>| b.len() == 16 && #[trigger] spec_id_from_bytes(b) == p.id@
    &&& exists|r: ClockReading| r.nanos < 1_000_000_000 && #[trigger] spec_timestamp(r) == Some(p.created_at)
    &&& is_pin(p, p.id@, pattern, color, p.created_at)
}

/// Pinned searches storage.
#[derive(Debug, Clone, PartialEq)]
pub struct PinnedSearches {
    /// File format version.
    pub version: u32,
    /// List of pinned searches, oldest first.
    pub pinned_searches: Vec<PinnedSearch>,
}

/// The file format version that an absent `version` field takes.
pub fn default_version() -> (v: u32)
    ensures
        v == 1,
{
    1
}

impl Default for PinnedSearches {
    fn default() -> (s: PinnedSearches)
        ensures
            s.version == 1,
            s.pinned_searches@.len() == 0,
    {
        PinnedSearches { version: 1, pinned_searches: Vec::new() }
    }
}

/// Whether some entry has the id `id`.
pub open spec fn has_id(s: Seq<PinnedSearch>, id: Seq<char>) -> bool {
    exists|i: int| 0 <= i < s.len() && #[trigger] s[i].id@ == id
}

/// Whether `i` is the first entry with the id `id`.
pub open spec fn is_first_with_id(s: Seq<PinnedSearch>, id: Seq<char>, i: int) -> bool {
    &&& 0 <= i < s.len()
    &&& s[i].id@ == id
    &&& forall|j: int| 0 <= j < i ==> #[trigger] s[j].id@ != id
}

/// The index of the first entry with the id `id` (meaningful when `has_id(s, id)`).
pub open spec fn first_with_id(s: Seq<PinnedSearch>, id: Seq<char>) -> int {
    choose|i: int| is_first_with_id(s, id, i)
}

/// The entries without those whose id is `id`, in their order.
pub open spec fn without_id(s: Seq<PinnedSearch>, id: Seq<char>) -> Seq<PinnedSearch>
    decreases s.len(),
{
    if s.len() == 0 {
        s
    } else {
        let rest = without_id(s.drop_last(), id);
        if s.last().id@ == id { rest } else { rest.push(s.last()) }
    }
}

/// The entries after setting the color of the first one with id `id`.
pub open spec fn with_color(s: Seq<PinnedSearch>, id: Seq<char>, color: HighlightColor) -> Seq<PinnedSearch> {
    if has_id(s, id) {
        let i = first_with_id(s, id);
        s.update(i, PinnedSearch { color, ..s[i] })
    } else {
        s
    }
}

/// The entries after flipping the disabled flag of the first one with id `id`.
pub open spec fn with_toggled(s: Seq<PinnedSearch>, id: Seq<char>) -> Seq<PinnedSearch> {
    if has_id(s, id) {
        let i = first_with_id(s, id);
        s.update(i, PinnedSearch { disabled: !s[i].disabled, ..s[i] })
    } else {
        s
    }
}

/// The color a new pin gets: the one after the latest pin's color, or green.
pub open spec fn spec_next_color(s: Seq<PinnedSearch>) -> HighlightColor {
    if s.len() == 0 { HighlightColor::Green } else { s.last().color.spec_next() }
}

/// The first entry with a given id is unique, and exists when some entry has that id.
pub proof fn lemma_first_with_id(s: Seq<PinnedSearch>, id: Seq<char>, i: int)
    requires
        is_first_with_id(s, id, i),
    ensures
        first_with_id(s, id) == i,
        has_id(s, id),
{
    let k = first_with_id(s, id);
    assert(is_first_with_id(s, id, k));
    if k < i {
        assert(s[k].id@ != id);
    }
    if i < k {
        assert(s[i].id@ != id);
    }
}

/// When some entry has the id, a first such entry exists.
proof fn lemma_has_first(s: Seq<PinnedSearch>, id: Seq<char>)
    requires
        has_id(s, id),
    ensures
        is_first_with_id(s, id, first_with_id(s, id)),
    decreases s.len(),
{
    if s[0].id@ == id {
        assert(is_first_with_id(s, id, 0));
    } else {
        let t = s.drop_first();
        let w = choose|i: int| 0 <= i < s.len() && #[trigger] s[i].id@ == id;
        assert(t[w - 1].id@ == id);
        lemma_has_first(t, id);
        let k = first_with_id(t, id);
        assert forall|j: int| 0 <= j < k + 1 implies #[trigger] s[j].id@ != id by {
            if j > 0 {
                assert(s[j] == t[j - 1]);
            }
        }
        assert(is_first_with_id(s, id, k + 1));
    }
}

/// Removing an id keeps at most as many entries, and fewer exactly when some entry had it;
/// afterwards no entry has it.
pub proof fn lemma_without_id(s: Seq<PinnedSearch>, id: Seq<char>)
    ensures
        without_id(s, id).len() <= s.len(),
        without_id(s, id).len() < s.len() <==> has_id(s, id),
        !has_id(without_id(s, id), id),
        !has_id(s, id) ==> without_id(s, id) == s,
    decreases s.len(),
{
    if s.len() > 0 {
        let p = s.drop_last();
        lemma_without_id(p, id);
        if has_id(p, id) {
            let w = choose|i: int| 0 <= i < p.len() && #[trigger] p[i].id@ == id;
            assert(s[w].id@ == id);
        }
        if has_id(s, id) && !has_id(p, id) {
            let w = choose|i: int| 0 <= i < s.len() && #[trigger] s[i].id@ == id;
            if w < p.len() {
                assert(p[w].id@ == id);
            }
        }
        let r = without_id(s, id);
        if has_id(r, id) {
            let w = choose|i: int| 0 <= i < r.len() && #[trigger] r[i].id@ == id;
            let rp = without_id(p, id);
            if w < rp.len() {
                assert(rp[w].id@ == id);
            }
        }
    }
}

/// Toggling the disabled flag of the same id twice restores the entries.
pub proof fn lemma_toggle_twice(s: Seq<PinnedSearch>, id: Seq<char>)
    ensures
        with_toggled(with_toggled(s, id), id) == s,
{
    if has_id(s, id) {
        lemma_has_first(s, id);
        let i = first_with_id(s, id);
        let t = with_toggled(s, id);
        assert(is_first_with_id(t, id, i));
        lemma_first_with_id(t, id, i);
        assert(with_toggled(t, id) =~= s);
    }
}

/// Setting a color changes only the color of the first entry with the id, which then
/// has that color; the ids, patterns and flags of all entries stay as they were.
pub proof fn lemma_with_color(s: Seq<PinnedSearch>, id: Seq<char>, color: HighlightColor)
    ensures
        with_color(s, id, color).len() == s.len(),
        has_id(s, id) ==> with_color(s, id, color)[first_with_id(s, id)].color == color,
        forall|j: int| 0 <= j < s.len() ==> {
            let q = #[trigger] with_color(s, id, color)[j];
            &&& q.id == s[j].id
            &&& q.pattern == s[j].pattern
            &&& q.disabled == s[j].disabled
            &&& q.case_sensitive == s[j].case_sensitive
            &&& (j != first_with_id(s, id) ==> q == s[j])
        },
{
    if has_id(s, id) {
        lemma_has_first(s, id);
    }
}

/// Removing the id of a pin that was just added, under an id no earlier pin had,
/// gives back the entries from before the add.
pub proof fn lemma_remove_added(s: Seq<PinnedSearch>, p: PinnedSearch)
    requires
        !has_id(s, p.id@),
    ensures
        without_id(s.push(p), p.id@) == s,
{
    assert(s.push(p).drop_last() =~= s);
    lemma_without_id(s, p.id@);
}

impl PinnedSearches {
    /// Whether a pattern is already pinned.
    pub fn contains_pattern(&self, pattern: &str) -> (r: bool)
        ensures
            r == exists|i: int| 0 <= i < self.pinned_searches@.len()
                && #[trigger] self.pinned_searches@[i].pattern@ == pattern@,
    {
        let mut i: usize = 0;
        while i < self.pinned_searches.len()
            invariant
                i <= self.pinned_searches@.len(),
                forall|j: int| 0 <= j < i ==> #[trigger] self.pinned_searches@[j].pattern@ != pattern@,
            decreases self.pinned_searches@.len() - i,
        {
            if str_eq(self.pinned_searches[i].pattern.as_str(), pattern) {
                return true;
            }
            i += 1;
        }
        false
    }

    /// The color for the next pin: the rotation after the latest pin's color, or the
    /// default color when nothing is pinned.
    fn next_color(&self) -> (c: HighlightColor)
        ensures
            c == spec_next_color(self.pinned_searches@),
    {
        let n = self.pinned_searches.len();
        if n == 0 {
            HighlightColor::default()
        } else {
            self.pinned_searches[n - 1].color.next()
        }
    }

    /// The index of the first entry with the id, if any.
    fn position_of(&self, id: &PinnedSearchId) -> (r: Option<usize>)
        ensures
            match r {
                Some(i) => is_first_with_id(self.pinned_searches@, id@, i as int),
                None => !has_id(self.pinned_searches@, id@),
            },
    {
        let mut i: usize = 0;
        while i < self.pinned_searches.len()
            invariant
                i <= self.pinned_searches@.len(),
                forall|j: int| 0 <= j < i ==> #[trigger] self.pinned_searches@[j].id@ != id@,
            decreases self.pinned_searches@.len() - i,
        {
            if str_eq(self.pinned_searches[i].id.as_str(), id.as_str()) {
                return Some(i);
            }
            i += 1;
        }
        None
    }

    /// Append a pinned search of `pattern` with the id and creation time given, in the
    /// next color of the rotation, enabled and case-insensitive.
    pub fn add_with(&mut self, pattern: &str, id: PinnedSearchId, created_at: Timestamp)
        ensures
            final(self).version == old(self).version,
            final(self).pinned_searches@.len() == old(self).pinned_searches@.len() + 1,
            final(self).pinned_searches@.drop_last() == old(self).pinned_searches@,
            is_pin(
                final(self).pinned_searches@.last(),
                id@,
                pattern@,
                spec_next_color(old(self).pinned_searches@),
                created_at,
            ),
    {
        let color = self.next_color();
        let ghost before = self.pinned_searches@;
        self.pinned_searches.push(PinnedSearch::from_parts(id, pattern, color, created_at));
        assert(self.pinned_searches@.drop_last() =~= before);
    }

    /// Add a new pinned search with the next color of the rotation, under an id made
    /// from fresh random bytes and stamped with the current time; returns it. When the
    /// random source fails or the clock reads further than `i64` seconds from the epoch,
    /// nothing is added and `None` comes back.
    pub fn add(&mut self, pattern: &str) -> (r: Option<&PinnedSearch>)
        ensures
            final(self).version == old(self).version,
            match r {
                Some(p) => {
                    &&& final(self).pinned_searches@ == old(self).pinned_searches@.push(*p)
                    &&& is_fresh_pin(*p, pattern@, spec_next_color(old(self).pinned_searches@))
                    &&& is_generated_id(p.id@)
                },
                None => final(self).pinned_searches@ == old(self).pinned_searches@,
            },
    {
        let id = match PinnedSearchId::new() {
            Some(id) => id,
            None => return None,
        };
        let created_at = match now_timestamp() {
            Some(t) => t,
            None => return None,
        };
        let ghost idv = id@;
        let ghost before = self.pinned_searches@;
        self.add_with(pattern, id, created_at);
        let n = self.pinned_searches.len();
        let p = &self.pinned_searches[n - 1];
        assert(self.pinned_searches@ =~= before.push(*p));
        assert(p.id@ == idv);
        Some(p)
    }

    /// Remove every pinned search with the id; returns whether one was there.
    pub fn remove(&mut self, id: &PinnedSearchId) -> (r: bool)
        ensures
            final(self).version == old(self).version,
            final(self).pinned_searches@ == without_id(old(self).pinned_searches@, id@),
            r == has_id(old(self).pinned_searches@, id@),
    {
        let ghost s = self.pinned_searches@;
        let len_before = self.pinned_searches.len();
        let mut kept: Vec<PinnedSearch> = Vec::new();
        let mut i: usize = 0;
        assert(s.take(0) =~= Seq::<PinnedSearch>::empty());
        while i < self.pinned_searches.len()
            invariant
                s == self.pinned_searches@,
                i <= s.len(),
                kept@ == without_id(s.take(i as int), id@),
            decreases s.len() - i,
        {
            assert(s.take(i + 1).drop_last() =~= s.take(i as int));
            if !str_eq(self.pinned_searches[i].id.as_str(), id.as_str()) {
                kept.push(self.pinned_searches[i].clone());
            }
            i += 1;
        }
        assert(s.take(s.len() as int) =~= s);
        proof {
            lemma_without_id(s, id@);
        }
        self.pinned_searches = kept;
        self.pinned_searches.len() < len_before
    }

    /// Set the color of the first pinned search with the id; returns whether one was there.
    pub fn set_color(&mut self, id: &PinnedSearchId, color: HighlightColor) -> (r: bool)
        ensures
            final(self).version == old(self).version,
            final(self).pinned_searches@ == with_color(old(self).pinned_searches@, id@, color),
            r == has_id(old(self).pinned_searches@, id@),
    {
        match self.position_of(id) {
            Some(i) => {
                proof {
                    lemma_first_with_id(self.pinned_searches@, id@, i as int);
                }
                let mut p = self.pinned_searches[i].clone();
                p.color = color;
                self.pinned_searches.set(i, p);
                true
            },
            None => false,
        }
    }

    /// Flip the disabled flag of the first pinned search with the id; returns whether
    /// one was there.
    pub fn toggle_disabled(&mut self, id: &PinnedSearchId) -> (r: bool)
        ensures
            final(self).version == old(self).version,
            final(self).pinned_searches@ == with_toggled(old(self).pinned_searches@, id@),
            r == has_id(old(self).pinned_searches@, id@),
    {
        match self.position_of(id) {
            Some(i) => {
                proof {
                    lemma_first_with_id(self.pinned_searches@, id@, i as int);
                }
                let mut p = self.pinned_searches[i].clone();
                p.disabled = !p.disabled;
                self.pinned_searches.set(i, p);
                true
            },
            None => false,
        }
    }
}

/// Add a pinned search; returns its id, or `None` (and adds nothing) when the random
/// source fails or the clock reads further than `i64` seconds from the epoch. The caller
/// saves the collection and tells the other windows.
pub fn add_pinned_search(searches: &mut PinnedSearches, pattern: &str) -> (r: Option<PinnedSearchId>)
    ensures
        final(searches).version == old(searches).version,
        match r {
            Some(id) => {
                &&& final(searches).pinned_searches@.len() == old(searches).pinned_searches@.len() + 1
                &&& final(searches).pinned_searches@.drop_last() == old(searches).pinned_searches@
                &&& id == final(searches).pinned_searches@.last().id
                &&& is_generated_id(id@)
                &&& is_fresh_pin(
                    final(searches).pinned_searches@.last(),
                    pattern@,
                    spec_next_color(old(searches).pinned_searches@),
                )
            },
            None => final(searches).pinned_searches@ == old(searches).pinned_searches@,
        },
{
    let ghost before = searches.pinned_searches@;
    match searches.add(pattern) {
        Some(search) => {
            let id = search.id.clone();
            assert(searches.pinned_searches@.drop_last() =~= before);
            Some(id)
        },
        None => None,
    }
}

/// Remove a pinned search; returns whether one had the id. The caller saves and tells
/// the other windows only when it returns `true`.
pub fn remove_pinned_search(searches: &mut PinnedSearches, id: &PinnedSearchId) -> (r: bool)
    ensures
        final(searches).version == old(searches).version,
        final(searches).pinned_searches@ == without_id(old(searches).pinned_searches@, id@),
        r == has_id(old(searches).pinned_searches@, id@),
{
    searches.remove(id)
}

/// Set the color of a pinned search; returns whether one had the id. The caller saves
/// and tells the other windows only when it returns `true`.
pub fn set_pinned_search_color(searches: &mut PinnedSearches, id: &PinnedSearchId, color: HighlightColor) -> (r: bool)
    ensures
        final(searches).version == old(searches).version,
        final(searches).pinned_searches@ == with_color(old(searches).pinned_searches@, id@, color),
        r == has_id(old(searches).pinned_searches@, id@),
{
    searches.set_color(id, color)
}

/// Flip the disabled flag of a pinned search; returns whether one had the id. The caller
/// saves and tells the other windows only when it returns `true`.
pub fn toggle_pinned_search_disabled(searches: &mut PinnedSearches, id: &PinnedSearchId) -> (r: bool)
    ensures
        final(searches).version == old(searches).version,
        final(searches).pinned_searches@ == with_toggled(old(searches).pinned_searches@, id@),
        r == has_id(old(searches).pinned_searches@, id@),
{
    searches.toggle_disabled(id)
}

} // verus!
