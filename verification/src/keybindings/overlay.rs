//! The keyboard shortcut overlay: its layout in columns, its labels, its visibility
//! states and the keys it handles itself.
use vstd::prelude::*;

use crate::keybindings::action::Action;
use crate::keybindings::labels::{name_label, spec_name_label};
use crate::text::{chars_of, str_eq, string_from_chars};

verus! {

broadcast use vstd::seq::group_seq_axioms;

/// The Control modifier bit of a key event.
pub const MOD_CONTROL: u32 = 0x08;

/// One row of the overlay: a shortcut and the label of its action.
#[derive(Debug, PartialEq)]
pub struct ShortcutHelpItem {
    pub key: String,
    pub action: String,
}

impl Clone for ShortcutHelpItem {
    fn clone(&self) -> (r: ShortcutHelpItem)
        ensures
            r == *self,
    {
        ShortcutHelpItem { key: self.key.clone(), action: self.action.clone() }
    }
}

/// The number of columns for a window width.
pub open spec fn spec_column_count(window_width: u32) -> int {
    if window_width <= 760 {
        1
    } else if window_width <= 1080 {
        2
    } else if window_width <= 1400 {
        3
    } else if window_width <= 1720 {
        4
    } else {
        5
    }
}

/// The number of columns the overlay uses for a window width.
pub fn shortcut_column_count(window_width: u32) -> (r: usize)
    ensures
        r == spec_column_count(window_width),
{
    if window_width <= 760 {
        1
    } else if window_width <= 1080 {
        2
    } else if window_width <= 1400 {
        3
    } else if window_width <= 1720 {
        4
    } else {
        5
    }
}

/// Rows per column for `n` items (at least one) at a window width: the items spread
/// over at most as many columns as the width allows, and as evenly as whole rows permit.
pub open spec fn spec_rows_per_column(n: int, window_width: u32) -> int {
    let c = if spec_column_count(window_width) <= n { spec_column_count(window_width) } else { n };
    (n - 1) / c + 1
}

/// The concatenation of the columns.
pub open spec fn flatten_columns(cols: Seq<Seq<ShortcutHelpItem>>) -> Seq<ShortcutHelpItem>
    decreases cols.len(),
{
    if cols.len() == 0 {
        Seq::empty()
    } else {
        flatten_columns(cols.drop_last()) + cols.last()
    }
}

/// The views of a list of columns.
pub open spec fn column_views(v: Seq<Vec<ShortcutHelpItem>>) -> Seq<Seq<ShortcutHelpItem>> {
    v.map_values(|c: Vec<ShortcutHelpItem>| c@)
}

/// Split the overlay items into columns, top to bottom then left to right: reading
/// the columns in order gives the items in order, every column but the last holds
/// the same number of rows, and the last holds at least one and at most that many.
pub fn split_shortcut_help_columns(items: Vec<ShortcutHelpItem>, window_width: u32) -> (r: Vec<Vec<ShortcutHelpItem>>)
    ensures
        items@.len() == 0 ==> r@.len() == 0,
        flatten_columns(column_views(r@)) == items@,
        items@.len() > 0 ==> {
            let rows = spec_rows_per_column(items@.len() as int, window_width);
            &&& 1 <= r@.len() <= spec_column_count(window_width)
            &&& forall|k: int| 0 <= k < r@.len() - 1 ==> (#[trigger] r@[k])@.len() == rows
            &&& 0 < r@.last()@.len() <= rows
        },
{
    let mut result: Vec<Vec<ShortcutHelpItem>> = Vec::new();
    let n = items.len();
    if n == 0 {
        assert(flatten_columns(column_views(result@)) =~= items@);
        return result;
    }
    let count = shortcut_column_count(window_width);
    let columns = if count <= n { count } else { n };
    let rows = (n - 1) / columns + 1;
    proof {
        let x = (n - 1) as int;
        let c = columns as int;
        vstd::arithmetic::div_mod::lemma_fundamental_div_mod(x, c);
        assert(c * (rows as int) == c * (x / c) + c) by (nonlinear_arith)
            requires
                rows as int == x / c + 1;
    }
    let mut start: usize = 0;
    let mut col: usize = 0;
    assert(items@.take(0) =~= Seq::<ShortcutHelpItem>::empty());
    while col < columns && start < n
        invariant
            items@.len() == n,
            n >= 1,
            1 <= columns <= n,
            columns <= spec_column_count(window_width),
            rows == spec_rows_per_column(n as int, window_width),
            rows >= 1,
            columns * rows >= n,
            col <= columns,
            start <= n,
            result@.len() == col,
            start < n ==> start == col * rows,
            col == 0 ==> start == 0,
            flatten_columns(column_views(result@)) == items@.take(start as int),
            forall|k: int| 0 <= k < col - 1 ==> (#[trigger] result@[k])@.len() == rows,
            forall|k: int| 0 <= k < col ==> 0 < (#[trigger] result@[k])@.len() <= rows,
            start < n && col > 0 ==> result@[col - 1]@.len() == rows,
        decreases columns - col,
    {
        let end = if n - start >= rows { start + rows } else { n };
        let mut column: Vec<ShortcutHelpItem> = Vec::new();
        let mut j = start;
        while j < end
            invariant
                items@.len() == n,
                start <= j <= end <= n,
                column@ == items@.subrange(start as int, j as int),
            decreases end - j,
        {
            column.push(items[j].clone());
            assert(items@.subrange(start as int, j + 1) =~= items@.subrange(start as int, j as int).push(items@[j as int]));
            j += 1;
        }
        let ghost before = result@;
        result.push(column);
        proof {
            assert(column_views(result@).drop_last() =~= column_views(before));
            assert(items@.take(end as int) =~= items@.take(start as int) + items@.subrange(start as int, end as int));
            assert((col + 1) * rows == col * rows + rows) by (nonlinear_arith);
        }
        start = end;
        col += 1;
    }
    proof {
        if start < n {
            assert(col == columns);
            assert(start == columns * rows);
        }
    }
    assert(items@.take(n as int) =~= items@);
    result
}

/// The overlay label of an action: its name without a leading `clipboard.` or `help.`,
/// in words.
pub open spec fn spec_overlay_label(name: Seq<char>) -> Seq<char> {
    if name.len() >= 10 && name.take(10) == "clipboard."@ {
        spec_name_label(name.skip(10))
    } else if name.len() >= 5 && name.take(5) == "help."@ {
        spec_name_label(name.skip(5))
    } else {
        spec_name_label(name)
    }
}

/// The label the overlay shows for an action.
pub fn overlay_action_label(action: Action) -> (r: String)
    ensures
        r@ == spec_overlay_label(action.spec_name()),
{
    proof {
        reveal_strlit("clipboard.");
        reveal_strlit("help.");
    }
    let name = chars_of(action.as_str());
    let clip = chars_of("clipboard.");
    let help = chars_of("help.");
    let mut skip: usize = 0;
    if name.len() >= 10 && str_eq_prefix(name.as_slice(), clip.as_slice()) {
        skip = 10;
    } else if name.len() >= 5 && str_eq_prefix(name.as_slice(), help.as_slice()) {
        skip = 5;
    }
    let mut rest: Vec<char> = Vec::new();
    let mut i = skip;
    while i < name.len()
        invariant
            skip <= i <= name@.len(),
            rest@ == name@.subrange(skip as int, i as int),
        decreases name@.len() - i,
    {
        rest.push(name[i]);
        assert(name@.subrange(skip as int, i + 1) =~= name@.subrange(skip as int, i as int).push(name@[i as int]));
        i += 1;
    }
    assert(rest@ =~= name@.skip(skip as int));
    assert(name@.skip(0) =~= name@);
    let label = name_label(rest.as_slice());
    string_from_chars(label.as_slice())
}

/// Whether `s` begins with all of `prefix`.
fn str_eq_prefix(s: &[char], prefix: &[char]) -> (r: bool)
    requires
        prefix@.len() <= s@.len(),
    ensures
        r == (s@.take(prefix@.len() as int) == prefix@),
{
    let mut i: usize = 0;
    while i < prefix.len()
        invariant
            prefix@.len() <= s@.len(),
            i <= prefix@.len(),
            forall|j: int| 0 <= j < i ==> s@[j] == prefix@[j],
        decreases prefix@.len() - i,
    {
        if s[i] != prefix[i] {
            assert(s@.take(prefix@.len() as int)[i as int] != prefix@[i as int]);
            return false;
        }
        i += 1;
    }
    assert(s@.take(prefix@.len() as int) =~= prefix@);
    true
}

/// Visibility of the overlay; `Closing` lasts while the closing animation plays.
#[derive(Debug, Clone, Copy, PartialEq, Eq, Structural)]
pub enum ShortcutOverlayVisibility {
    Hidden,
    Visible,
    Closing,
}

/// What to do after a visibility change: whether to hide the overlay once the
/// closing animation has played.
#[derive(Debug, Clone, Copy, PartialEq, Eq, Structural)]
pub struct VisibilityChange {
    pub next: ShortcutOverlayVisibility,
    pub hide_after_animation: bool,
}

/// Whether the overlay is on screen (shown or closing).
pub fn is_shortcut_overlay_visible(visibility: ShortcutOverlayVisibility) -> (r: bool)
    ensures
        r == (visibility != ShortcutOverlayVisibility::Hidden),
{
    !matches!(visibility, ShortcutOverlayVisibility::Hidden)
}

/// Start closing the overlay: nothing happens when it is hidden; otherwise it goes
/// to `Closing` and is hidden once the animation has played.
pub fn close_shortcut_overlay(visibility: ShortcutOverlayVisibility) -> (r: VisibilityChange)
    ensures
        visibility == ShortcutOverlayVisibility::Hidden ==> r == (VisibilityChange {
            next: ShortcutOverlayVisibility::Hidden,
            hide_after_animation: false,
        }),
        visibility != ShortcutOverlayVisibility::Hidden ==> r == (VisibilityChange {
            next: ShortcutOverlayVisibility::Closing,
            hide_after_animation: true,
        }),
{
    match visibility {
        ShortcutOverlayVisibility::Hidden => VisibilityChange {
            next: ShortcutOverlayVisibility::Hidden,
            hide_after_animation: false,
        },
        _ => VisibilityChange { next: ShortcutOverlayVisibility::Closing, hide_after_animation: true },
    }
}

/// Show a hidden overlay, or start closing a shown or closing one.
pub fn toggle_shortcut_overlay(visibility: ShortcutOverlayVisibility) -> (r: VisibilityChange)
    ensures
        visibility == ShortcutOverlayVisibility::Hidden ==> r == (VisibilityChange {
            next: ShortcutOverlayVisibility::Visible,
            hide_after_animation: false,
        }),
        visibility != ShortcutOverlayVisibility::Hidden ==> r == (VisibilityChange {
            next: ShortcutOverlayVisibility::Closing,
            hide_after_animation: true,
        }),
{
    match visibility {
        ShortcutOverlayVisibility::Hidden => VisibilityChange {
            next: ShortcutOverlayVisibility::Visible,
            hide_after_animation: false,
        },
        _ => close_shortcut_overlay(visibility),
    }
}

/// The state once the closing animation has played: a still-closing overlay is
/// hidden; one shown again meanwhile stays shown.
pub fn finish_closing(visibility: ShortcutOverlayVisibility) -> (r: ShortcutOverlayVisibility)
    ensures
        visibility == ShortcutOverlayVisibility::Closing ==> r == ShortcutOverlayVisibility::Hidden,
        visibility != ShortcutOverlayVisibility::Closing ==> r == visibility,
{
    match visibility {
        ShortcutOverlayVisibility::Closing => ShortcutOverlayVisibility::Hidden,
        _ => visibility,
    }
}

/// Whether `s` is one ASCII letter `c` in either case (`c` lower case).
pub open spec fn is_letter_ignoring_case(s: Seq<char>, lower: char) -> bool {
    s.len() == 1 && (s[0] == lower || s[0] as int == lower as int - 32)
}

/// The scroll step for a key in the overlay: `j`/Down and Ctrl-`n` scroll down,
/// `k`/Up and Ctrl-`p` scroll up, by 56 pixels; other keys do not scroll.
pub open spec fn spec_scroll_delta(key: Seq<char>, modifiers: u32) -> Option<i32> {
    if modifiers == 0 && (key == "j"@ || key == "ArrowDown"@) {
        Some(56i32)
    } else if modifiers == 0 && (key == "k"@ || key == "ArrowUp"@) {
        Some(-56i32)
    } else if modifiers == MOD_CONTROL && is_letter_ignoring_case(key, 'n') {
        Some(56i32)
    } else if modifiers == MOD_CONTROL && is_letter_ignoring_case(key, 'p') {
        Some(-56i32)
    } else {
        None
    }
}

/// Whether `key` is the letter `lower` in either case.
fn letter_ignoring_case(key: &[char], lower: char, upper: char) -> (r: bool)
    requires
        upper as int == lower as int - 32,
    ensures
        r == is_letter_ignoring_case(key@, lower),
{
    key.len() == 1 && (key[0] == lower || key[0] == upper)
}

/// The scroll step the overlay takes for a key press, if it handles the key.
pub fn shortcut_overlay_scroll_delta(key: &str, modifiers: u32) -> (r: Option<i32>)
    ensures
        r == spec_scroll_delta(key@, modifiers),
{
    let k = chars_of(key);
    let no_mod = modifiers == 0;
    let ctrl_only = modifiers == MOD_CONTROL;
    if no_mod && (str_eq(key, "j") || str_eq(key, "ArrowDown")) {
        Some(56)
    } else if no_mod && (str_eq(key, "k") || str_eq(key, "ArrowUp")) {
        Some(-56)
    } else if ctrl_only && letter_ignoring_case(k.as_slice(), 'n', 'N') {
        Some(56)
    } else if ctrl_only && letter_ignoring_case(k.as_slice(), 'p', 'P') {
        Some(-56)
    } else {
        None
    }
}

/// Whether a key press closes the overlay: Escape with no modifier.
pub fn is_shortcut_overlay_close_key(key: &str, modifiers: u32) -> (r: bool)
    ensures
        r == (modifiers == 0 && key@ == "Escape"@),
{
    modifiers == 0 && str_eq(key, "Escape")
}

} // verus!
