//! Choosing the window that receives an open request.
use vstd::prelude::*;

use crate::config::FileOpenBehavior;
use vstd::std_specs::cmp::PartialEqSpec;

verus! {

/// Where an open request goes.
#[derive(Debug, Clone, Copy, PartialEq, Eq)]
pub enum OpenTarget<T> {
    ExistingWindow(T),
    NewWindow,
}

/// A visible window and whether it is on the cursor's current screen.
#[derive(Debug, Clone, Copy)]
pub struct WindowSelectionInput<T> {
    pub window_id: T,
    pub is_on_current_screen: bool,
}

/// Whether some visible window has id `id`.
pub open spec fn has_window<T>(ws: Seq<WindowSelectionInput<T>>, id: T) -> bool {
    exists|i: int| 0 <= i < ws.len() && #[trigger] ws[i].window_id == id
}

/// Ids of the windows on the current screen, in order.
pub open spec fn current_screen_ids<T>(ws: Seq<WindowSelectionInput<T>>) -> Seq<T>
    decreases ws.len(),
{
    if ws.len() == 0 {
        Seq::empty()
    } else {
        let prev = current_screen_ids(ws.drop_last());
        if ws.last().is_on_current_screen { prev.push(ws.last().window_id) } else { prev }
    }
}

/// The target for a behavior: `NewWindow` always opens a new window; `LastFocused`
/// uses the last focused window when it is visible; `CurrentScreen` uses the last
/// focused window when it is on the current screen, else the first window there,
/// and a new window when there is none.
pub open spec fn spec_choose_open_target<T>(
    behavior: FileOpenBehavior,
    ws: Seq<WindowSelectionInput<T>>,
    last_focused: Option<T>,
) -> OpenTarget<T> {
    match behavior {
        FileOpenBehavior::NewWindow => OpenTarget::NewWindow,
        FileOpenBehavior::LastFocused => match last_focused {
            Some(w) => if has_window(ws, w) { OpenTarget::ExistingWindow(w) } else { OpenTarget::NewWindow },
            None => OpenTarget::NewWindow,
        },
        FileOpenBehavior::CurrentScreen => {
            let cs = current_screen_ids(ws);
            if cs.len() == 0 {
                OpenTarget::NewWindow
            } else {
                match last_focused {
                    Some(w) => if cs.contains(w) { OpenTarget::ExistingWindow(w) } else { OpenTarget::ExistingWindow(cs[0]) },
                    None => OpenTarget::ExistingWindow(cs[0]),
                }
            }
        },
    }
}

/// Every window on the current screen is a visible window.
pub proof fn lemma_current_screen_ids_visible<T>(ws: Seq<WindowSelectionInput<T>>, k: int)
    requires
        0 <= k < current_screen_ids(ws).len(),
    ensures
        has_window(ws, current_screen_ids(ws)[k]),
    decreases ws.len(),
{
    let p = ws.drop_last();
    let prev = current_screen_ids(p);
    if k < prev.len() {
        lemma_current_screen_ids_visible(p, k);
        let i = choose|i: int| 0 <= i < p.len() && #[trigger] p[i].window_id == prev[k];
        assert(ws[i].window_id == prev[k]);
    } else {
        assert(ws[ws.len() - 1].window_id == current_screen_ids(ws)[k]);
    }
}

/// An open request only ever goes to a window that is visible: the chosen existing
/// window is always one of the visible windows.
pub proof fn lemma_target_is_visible<T>(
    behavior: FileOpenBehavior,
    ws: Seq<WindowSelectionInput<T>>,
    last_focused: Option<T>,
)
    ensures
        spec_choose_open_target(behavior, ws, last_focused) matches OpenTarget::ExistingWindow(w)
            ==> has_window(ws, w),
{
    if behavior == FileOpenBehavior::CurrentScreen {
        let cs = current_screen_ids(ws);
        if cs.len() > 0 {
            lemma_current_screen_ids_visible(ws, 0);
            if let Some(w) = last_focused {
                if cs.contains(w) {
                    let k = choose|k: int| 0 <= k < cs.len() && cs[k] == w;
                    lemma_current_screen_ids_visible(ws, k);
                }
            }
        }
    }
}

/// Choose the window that receives an open request.
pub fn choose_open_target<T: Copy + PartialEq>(
    behavior: FileOpenBehavior,
    visible_windows: &[WindowSelectionInput<T>],
    last_focused: Option<T>,
) -> (r: OpenTarget<T>)
    requires
        vstd::laws_eq::obeys_concrete_eq::<T>(),
    ensures
        r == spec_choose_open_target(behavior, visible_windows@, last_focused),
{
    proof {
        reveal(vstd::laws_eq::obeys_concrete_eq);
    }
    match behavior {
        FileOpenBehavior::NewWindow => OpenTarget::NewWindow,
        FileOpenBehavior::LastFocused => match last_focused {
            Some(w) => {
                let mut i: usize = 0;
                while i < visible_windows.len()
                    invariant
                        i <= visible_windows@.len(),
                        behavior == FileOpenBehavior::LastFocused,
                        last_focused == Some(w),
                        forall|j: int| 0 <= j < i ==> #[trigger] visible_windows@[j].window_id != w,
                        vstd::laws_eq::obeys_concrete_eq::<T>(),
                        T::obeys_eq_spec(),
                        forall|x: T, y: T| x.eq_spec(&y) <==> (x == y),
                    decreases visible_windows@.len() - i,
                {
                    if visible_windows[i].window_id == w {
                        assert(visible_windows@[i as int].window_id == w);
                        assert(has_window(visible_windows@, w));
                        return OpenTarget::ExistingWindow(w);
                    }
                    i += 1;
                }
                OpenTarget::NewWindow
            },
            None => OpenTarget::NewWindow,
        },
        FileOpenBehavior::CurrentScreen => {
            let ghost ws = visible_windows@;
            let mut cs: Vec<T> = Vec::new();
            let mut i: usize = 0;
            assert(ws.take(0) =~= Seq::<WindowSelectionInput<T>>::empty());
            while i < visible_windows.len()
                invariant
                    ws == visible_windows@,
                    i <= ws.len(),
                    cs@ == current_screen_ids(ws.take(i as int)),
                decreases ws.len() - i,
            {
                assert(ws.take(i + 1).drop_last() =~= ws.take(i as int));
                if visible_windows[i].is_on_current_screen {
                    cs.push(visible_windows[i].window_id);
                }
                i += 1;
            }
            assert(ws.take(ws.len() as int) =~= ws);
            if cs.len() == 0 {
                return OpenTarget::NewWindow;
            }
            if let Some(w) = last_focused {
                let mut k: usize = 0;
                while k < cs.len()
                    invariant
                        cs@ == current_screen_ids(visible_windows@),
                        cs@.len() > 0,
                        behavior == FileOpenBehavior::CurrentScreen,
                        last_focused == Some(w),
                        k <= cs@.len(),
                        forall|j: int| 0 <= j < k ==> #[trigger] cs@[j] != w,
                        T::obeys_eq_spec(),
                        forall|x: T, y: T| x.eq_spec(&y) <==> (x == y),
                    decreases cs@.len() - k,
                {
                    if cs[k] == w {
                        assert(cs@[k as int] == w);
                        assert(cs@.contains(w));
                        return OpenTarget::ExistingWindow(w);
                    }
                    k += 1;
                }
                assert(!cs@.contains(w));
            }
            OpenTarget::ExistingWindow(cs[0])
        },
    }
}

} // verus!

verus! {

/// A window's frame as the window server reports it.
#[derive(Debug, Clone, Copy, PartialEq, Eq, Structural)]
pub struct WindowBounds {
    pub x: i32,
    pub y: i32,
    pub width: u32,
    pub height: u32,
}

/// A display's frame: its origin and size.
#[derive(Debug, Clone, Copy, PartialEq, Eq, Structural)]
pub struct DisplayBounds {
    pub x: i32,
    pub y: i32,
    pub width: u32,
    pub height: u32,
}

/// Whether the far edges of a frame fit in `i32`, as the frame arithmetic needs.
pub open spec fn edges_fit(x: i32, y: i32, width: u32, height: u32) -> bool {
    width <= i32::MAX && height <= i32::MAX && x + width <= i32::MAX && y + height <= i32::MAX
}

/// The larger of two integers.
pub open spec fn max_int(a: int, b: int) -> int {
    if a >= b { a } else { b }
}

/// The smaller of two integers.
pub open spec fn min_int(a: int, b: int) -> int {
    if a <= b { a } else { b }
}

/// The overlap of a window with a display: `None` when they share no area (or the
/// window has none), else the shared area and the window's area.
pub open spec fn spec_window_overlap(d: DisplayBounds, w: WindowBounds) -> Option<(int, int)> {
    let left = max_int(w.x as int, d.x as int);
    let top = max_int(w.y as int, d.y as int);
    let right = min_int(w.x + w.width, d.x + d.width);
    let bottom = min_int(w.y + w.height, d.y + d.height);
    if left >= right || top >= bottom || w.width * w.height == 0 {
        None
    } else {
        Some(((right - left) * (bottom - top), w.width * w.height))
    }
}

/// The area a window shares with a display, and the window's own area; `None` when
/// they do not overlap. The caller compares the two to tell whether the window is on
/// that display.
pub fn window_overlap(display: DisplayBounds, bounds: WindowBounds) -> (r: Option<(u64, u64)>)
    requires
        edges_fit(display.x, display.y, display.width, display.height),
        edges_fit(bounds.x, bounds.y, bounds.width, bounds.height),
    ensures
        match spec_window_overlap(display, bounds) {
            Some((o, a)) => r == Some((o as u64, a as u64)) && o == r->Some_0.0 && a == r->Some_0.1,
            None => r is None,
        },
{
    let display_left = display.x;
    let display_top = display.y;
    let display_right = display.x + display.width as i32;
    let display_bottom = display.y + display.height as i32;
    let window_left = bounds.x;
    let window_top = bounds.y;
    let window_right = bounds.x + bounds.width as i32;
    let window_bottom = bounds.y + bounds.height as i32;
    let overlap_left = if window_left >= display_left { window_left } else { display_left };
    let overlap_top = if window_top >= display_top { window_top } else { display_top };
    let overlap_right = if window_right <= display_right { window_right } else { display_right };
    let overlap_bottom = if window_bottom <= display_bottom { window_bottom } else { display_bottom };
    if overlap_left >= overlap_right || overlap_top >= overlap_bottom {
        return None;
    }
    let ow: u64 = (overlap_right as i64 - overlap_left as i64) as u64;
    let oh: u64 = (overlap_bottom as i64 - overlap_top as i64) as u64;
    let ww: u64 = bounds.width as u64;
    let wh: u64 = bounds.height as u64;
    assert(ow <= ww && oh <= wh);
    assert(ow * oh <= ww * wh) by (nonlinear_arith)
        requires
            ow <= ww,
            oh <= wh,
    ;
    assert(ww * wh <= 0xffff_ffff_u64 * 0xffff_ffff_u64) by (nonlinear_arith)
        requires
            ww <= 0xffff_ffff_u64,
            wh <= 0xffff_ffff_u64,
    ;
    let window_area = ww * wh;
    if window_area == 0 {
        return None;
    }
    Some((ow * oh, window_area))
}

} // verus!
