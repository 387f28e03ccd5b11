//! Which tabs fit in the title bar, and where each one goes.
use vstd::prelude::*;

use crate::arith::{max, max_u32, min, min_u32, sat_add, sat_sub};
use crate::tokens::{BURGER_BTN_LEFT_PX, BURGER_BTN_SIZE_PX, CHROME_CONTROLS_LEFT};
use super::constants::{
    ADD_TAB_SIZE_PX, MIN_DRAG_WIDTH_PX, TAB_FALLBACK_WIDTH_PX, TAB_GAP_PX, TAB_HEIGHT_PX,
    TAB_MAX_WIDTH_PX, TAB_MIN_VISIBLE_WIDTH_PX, TAB_MIN_WIDTH_PX, TAB_TEXT_SIDE_PADDING_PX,
    TAB_TOP_PX,
};
use super::geometry::{compute_tab_close_rect, tab_close_rect_spec};
use crate::text::{trim_str, trim_ws};

verus! {

/// Sum of `w[s..e]`.
pub open spec fn width_sum(w: Seq<u32>, s: int, e: int) -> int
    decreases e - s,
{
    if e <= s { 0 } else { width_sum(w, s, e - 1) + w[e - 1] }
}

/// Width of the run of tabs `w[s..e]` separated by gaps, counting the tab at
/// `active` as at most `max_space` wide.
pub open spec fn run_width(w: Seq<u32>, active: int, max_space: int, s: int, e: int) -> int {
    min(w[active] as int, max_space) + (width_sum(w, s, e) - w[active]) + TAB_GAP_PX * (e - s - 1)
}

/// What the running total becomes when the tab of width `next` joins a run
/// whose running total is `used` (every step saturating).
pub open spec fn grow(used: int, next: int) -> int {
    sat_add(sat_add(used, TAB_GAP_PX as int), next)
}

/// `(s, e)` is a range of tabs the strip may show: it holds the active tab,
/// its running total fits in `max_space`, and neither neighbour fits any more.
pub open spec fn visible_range_ok(w: Seq<u32>, active: int, max_space: int, s: int, e: int) -> bool {
    let used = min(run_width(w, active, max_space, s, e), u32::MAX as int);
    &&& 0 <= s <= active < e <= w.len()
    &&& used <= max_space
    &&& (s == 0 || grow(used, w[s - 1] as int) > max_space)
    &&& (e == w.len() || grow(used, w[e] as int) > max_space)
}

/// One step of growing the run `(s, e)` of running total `used`: the
/// neighbour on the preferred side joins if it fits, else the one on the
/// other side; `None` when neither fits. Gives the new run and total.
pub open spec fn expand_step(
    w: Seq<u32>,
    max_space: int,
    s: int,
    e: int,
    used: int,
    prefer_left: bool,
) -> Option<(int, int, int)> {
    let left_fits = s > 0 && grow(used, w[s - 1] as int) <= max_space;
    let right_fits = e < w.len() && grow(used, w[e] as int) <= max_space;
    let left = Some((s - 1, e, grow(used, w[s - 1] as int)));
    let right = Some((s, e + 1, grow(used, w[e] as int)));
    if prefer_left {
        if left_fits { left } else if right_fits { right } else { None }
    } else {
        if right_fits { right } else if left_fits { left } else { None }
    }
}

/// The run the strip ends up with from the run `(s, e)`: it grows one tab at
/// a time, the preferred side switching after each step, until no
/// neighbour fits.
pub open spec fn grow_run(w: Seq<u32>, max_space: int, s: int, e: int, used: int, prefer_left: bool) -> (int, int)
    decreases s + (w.len() - e),
    when 0 <= s && e <= w.len()
{
    match expand_step(w, max_space, s, e, used, prefer_left) {
        Some(next) => grow_run(w, max_space, next.0, next.1, next.2, !prefer_left),
        None => (s, e),
    }
}

proof fn lemma_width_sum_prepend(w: Seq<u32>, s: int, e: int)
    requires
        0 < s <= e <= w.len(),
    ensures
        width_sum(w, s - 1, e) == w[s - 1] + width_sum(w, s, e),
    decreases e - s,
{
    if e > s {
        lemma_width_sum_prepend(w, s, e - 1);
    } else {
        assert(width_sum(w, s - 1, s - 1) == 0);
    }
}

proof fn lemma_width_sum_nonneg(w: Seq<u32>, s: int, e: int)
    ensures
        width_sum(w, s, e) >= 0,
    decreases e - s,
{
    if e > s {
        lemma_width_sum_nonneg(w, s, e - 1);
    }
}

proof fn lemma_width_sum_wider(w: Seq<u32>, s0: int, s: int, e: int, e0: int)
    requires
        0 <= s0 <= s <= e <= e0 <= w.len(),
    ensures
        width_sum(w, s0, e0) >= width_sum(w, s, e),
    decreases (s - s0) + (e0 - e),
{
    if e0 > e {
        lemma_width_sum_wider(w, s0, s, e, e0 - 1);
        assert(width_sum(w, s0, e0) == width_sum(w, s0, e0 - 1) + w[e0 - 1]);
    } else if s > s0 {
        lemma_width_sum_wider(w, s0 + 1, s, e, e0);
        lemma_width_sum_prepend(w, s0 + 1, e0);
    }
}

/// The tabs `w[s..e]`, separated by gaps, fit in `max_space` (the running
/// total saturating at `u32::MAX`).
pub open spec fn run_fits(w: Seq<u32>, active: int, max_space: int, s: int, e: int) -> bool {
    min(run_width(w, active, max_space, s, e), u32::MAX as int) <= max_space
}

/// For the run `(s, e)` grown from the active tab `a`: the right side gets
/// ahead of the left only once the left neighbour no longer fit beside the
/// run as it stood with both sides level, and the left side gets more than
/// one tab ahead only once the right neighbour no longer fit beside the run
/// as it stood when the left had just taken its extra tab.
pub open spec fn sides_alternate(w: Seq<u32>, a: int, max_space: int, s: int, e: int) -> bool {
    let left = a - s;
    let right = e - a - 1;
    &&& right > left ==> (s == 0 || !run_fits(w, a, max_space, s - 1, a + left + 1))
    &&& left > right + 1 ==> (e == w.len() || !run_fits(w, a, max_space, a - right - 1, e + 1))
}

proof fn lemma_grow_run_alternates(
    w: Seq<u32>,
    max_space: int,
    a: int,
    s: int,
    e: int,
    used: int,
    prefer_left: bool,
)
    requires
        0 <= s <= a < e <= w.len(),
        0 <= max_space <= u32::MAX,
        used == min(run_width(w, a, max_space, s, e), u32::MAX as int),
        used <= max_space,
        sides_alternate(w, a, max_space, s, e),
        a - s == e - a - 1 ==> prefer_left,
        a - s == e - a ==> !prefer_left,
    ensures
        ({
            let (s2, e2) = grow_run(w, max_space, s, e, used, prefer_left);
            sides_alternate(w, a, max_space, s2, e2)
        }),
    decreases s + (w.len() - e),
{
    let left = a - s;
    let right = e - a - 1;
    if s > 0 {
        lemma_width_sum_prepend(w, s, e);
        assert(grow(used, w[s - 1] as int) == min(
            run_width(w, a, max_space, s - 1, e),
            u32::MAX as int,
        ));
    }
    if e < w.len() {
        assert(width_sum(w, s, e + 1) == width_sum(w, s, e) + w[e]);
        assert(grow(used, w[e] as int) == min(
            run_width(w, a, max_space, s, e + 1),
            u32::MAX as int,
        ));
    }
    if left > right + 1 && e < w.len() {
        let s0 = a - right - 1;
        lemma_width_sum_wider(w, s, s0, e + 1, e + 1);
        assert(!run_fits(w, a, max_space, s, e + 1));
    }
    if right > left && s > 0 {
        lemma_width_sum_wider(w, s - 1, s - 1, a + left + 1, e);
        assert(!run_fits(w, a, max_space, s - 1, e));
    }
    match expand_step(w, max_space, s, e, used, prefer_left) {
        Some(next) => {
            lemma_grow_run_alternates(w, max_space, a, next.0, next.1, next.2, !prefer_left);
        },
        None => {},
    }
}

/// Tabs join the visible run on alternate sides, the left first: while the
/// neighbours on both sides fit, the run grows one tab left, then one right,
/// and so on, so it stays centred on the active tab; a side only falls
/// behind once its next tab no longer fits.
pub proof fn visible_tabs_alternate_sides(widths: Seq<u32>, active_index: usize, max_space: u32)
    requires
        widths.len() > 0,
        max_space > 0,
    ensures
        ({
            let a = min(active_index as int, widths.len() - 1);
            let (s, e) = grow_run(
                widths,
                max_space as int,
                a,
                a + 1,
                min(widths[a] as int, max_space as int),
                true,
            );
            sides_alternate(widths, a, max_space as int, s, e)
        }),
{
    let a = min(active_index as int, widths.len() - 1);
    assert(width_sum(widths, a, a + 1) == widths[a]) by {
        assert(width_sum(widths, a, a) == 0);
    }
    lemma_grow_run_alternates(
        widths,
        max_space as int,
        a,
        a,
        a + 1,
        min(widths[a] as int, max_space as int),
        true,
    );
}

/// Tries to add the tab left of the run; on success moves `start` one to the
/// left and updates the running total.
pub fn try_expand_left(widths: &[u32], start: &mut usize, used: &mut u32, max_space: u32) -> (r: bool)
    requires
        *old(start) <= widths@.len(),
    ensures
        r == (*old(start) > 0 && grow(*old(used) as int, widths@[*old(start) - 1] as int)
            <= max_space),
        r ==> *final(start) == *old(start) - 1 && *final(used) == grow(
            *old(used) as int,
            widths@[*old(start) - 1] as int,
        ),
        !r ==> *final(start) == *old(start) && *final(used) == *old(used),
{
    if *start == 0 {
        return false;
    }
    let candidate = used.saturating_add(TAB_GAP_PX).saturating_add(widths[*start - 1]);
    if candidate > max_space {
        return false;
    }
    *start = *start - 1;
    *used = candidate;
    true
}

/// Tries to add the tab right of the run; on success moves `end` one to the
/// right and updates the running total.
pub fn try_expand_right(widths: &[u32], end: &mut usize, used: &mut u32, max_space: u32) -> (r: bool)
    ensures
        r == (*old(end) < widths@.len() && grow(*old(used) as int, widths@[*old(end) as int] as int)
            <= max_space),
        r ==> *final(end) == *old(end) + 1 && *final(used) == grow(
            *old(used) as int,
            widths@[*old(end) as int] as int,
        ),
        !r ==> *final(end) == *old(end) && *final(used) == *old(used),
{
    if *end >= widths.len() {
        return false;
    }
    let candidate = used.saturating_add(TAB_GAP_PX).saturating_add(widths[*end]);
    if candidate > max_space {
        return false;
    }
    *end = *end + 1;
    *used = candidate;
    true
}

/// The range of tabs to show: starting from the active tab, tabs are added
/// alternately on the left and on the right (left first) while they fit.
pub fn select_visible_tab_range(widths: &[u32], active_index: usize, max_space: u32) -> (r: (
    usize,
    usize,
))
    ensures
        (widths@.len() == 0 || max_space == 0) ==> r == (0usize, 0usize),
        (widths@.len() > 0 && max_space > 0) ==> ({
            let a = min(active_index as int, widths@.len() - 1);
            (r.0 as int, r.1 as int) == grow_run(
                widths@,
                max_space as int,
                a,
                a + 1,
                min(widths@[a] as int, max_space as int),
                true,
            )
        }),
        (widths@.len() > 0 && max_space > 0) ==> visible_range_ok(
            widths@,
            min(active_index as int, widths@.len() - 1),
            max_space as int,
            r.0 as int,
            r.1 as int,
        ),
        (widths@.len() > 0 && max_space > 0) ==> sides_alternate(
            widths@,
            min(active_index as int, widths@.len() - 1),
            max_space as int,
            r.0 as int,
            r.1 as int,
        ),
{
    if widths.len() == 0 || max_space == 0 {
        return (0, 0);
    }
    proof {
        visible_tabs_alternate_sides(widths@, active_index, max_space);
    }
    let active = min_usize(active_index, widths.len() - 1);
    let ghost w = widths@;
    let ghost a = active as int;
    let mut start = active;
    let mut end = active + 1;
    let mut used = min_u32(widths[active], max_space);
    let mut prefer_left = true;
    let ghost target = grow_run(w, max_space as int, a, a + 1, used as int, true);
    proof {
        assert(width_sum(w, a, a + 1) == w[a]) by {
            assert(width_sum(w, a, a) == 0);
        }
    }
    loop
        invariant
            w == widths@,
            0 <= start <= a < end <= w.len(),
            a == min(active_index as int, w.len() - 1),
            used as int == min(run_width(w, a, max_space as int, start as int, end as int), u32::MAX as int),
            used <= max_space,
            grow_run(w, max_space as int, start as int, end as int, used as int, prefer_left) == target,
        ensures
            visible_range_ok(w, a, max_space as int, start as int, end as int),
            (start as int, end as int) == target,
        decreases start + (w.len() - end),
    {
        let ghost s0 = start as int;
        let ghost e0 = end as int;
        let ghost u0 = used as int;
        let ghost p0 = prefer_left;
        let expanded = if prefer_left {
            try_expand_left(widths, &mut start, &mut used, max_space) || try_expand_right(
                widths,
                &mut end,
                &mut used,
                max_space,
            )
        } else {
            try_expand_right(widths, &mut end, &mut used, max_space) || try_expand_left(
                widths,
                &mut start,
                &mut used,
                max_space,
            )
        };
        proof {
            lemma_width_sum_nonneg(w, s0, e0);
            if start as int == s0 - 1 {
                lemma_width_sum_prepend(w, s0, e0);
            }
            let step = expand_step(w, max_space as int, s0, e0, u0, p0);
            if expanded {
                assert(step == Some((start as int, end as int, used as int)));
            } else {
                assert(step is None);
            }
        }
        if !expanded {
            break;
        }
        prefer_left = !prefer_left;
    }
    (start, end)
}

/// Width of a tab whose title measures `text_width` pixels (`None`: no font
/// to measure with), shrunk to at most `max_width` but never below the
/// visible minimum (or `max_width`, if that is smaller).
pub open spec fn tab_width_spec(text_width: Option<u32>, max_width: int) -> int {
    let desired = match text_width {
        Some(t) => clamp_int(
            sat_add(t as int, 2 * TAB_TEXT_SIDE_PADDING_PX as int),
            TAB_MIN_WIDTH_PX as int,
            TAB_MAX_WIDTH_PX as int,
        ),
        None => TAB_FALLBACK_WIDTH_PX as int,
    };
    let cap = max(max_width, 1);
    max(min(desired, cap), min(TAB_MIN_VISIBLE_WIDTH_PX as int, cap))
}

/// `v.clamp(lo, hi)`.
pub open spec fn clamp_int(v: int, lo: int, hi: int) -> int {
    if v < lo { lo } else if v > hi { hi } else { v }
}

/// The caption a tab shows: its title without surrounding white space, or
/// "Untitled" when nothing is left.
pub fn tab_title(title: &str) -> (r: &str)
    ensures
        r@ == (if trim_ws(title@).len() == 0 { "Untitled"@ } else { trim_ws(title@) }),
{
    let trimmed = trim_str(title);
    if trimmed.is_empty() {
        "Untitled"
    } else {
        trimmed
    }
}

/// The width of one tab in a strip with `max_width` pixels of tab space.
pub fn measure_tab_width(text_width: Option<u32>, max_width: u32) -> (r: u32)
    ensures
        r == tab_width_spec(text_width, max_width as int),
{
    let desired = match text_width {
        Some(t) => {
            let padded = t.saturating_add(TAB_TEXT_SIDE_PADDING_PX * 2);
            if padded < TAB_MIN_WIDTH_PX {
                TAB_MIN_WIDTH_PX
            } else if padded > TAB_MAX_WIDTH_PX {
                TAB_MAX_WIDTH_PX
            } else {
                padded
            }
        },
        None => TAB_FALLBACK_WIDTH_PX,
    };
    let cap = max_u32(max_width, 1);
    max_u32(min_u32(desired, cap), min_u32(TAB_MIN_VISIBLE_WIDTH_PX, cap))
}

/// The window drag region: from `drag_start` to the right edge when the
/// window buttons are on the left, else from `min(drag_start, drag_end)` to
/// `drag_end`; always the full bar height.
pub open spec fn drag_rect_spec(width: int, height: int, drag_start: int, drag_end: int) -> [u32; 4] {
    let origin = if CHROME_CONTROLS_LEFT { drag_start } else { min(drag_start, drag_end) };
    let w = if CHROME_CONTROLS_LEFT { sat_sub(width, origin) } else { sat_sub(drag_end, origin) };
    [origin as u32, 0, w as u32, height as u32]
}

/// The window drag region of the title bar.
pub fn build_drag_rect(width: u32, height: u32, drag_start: u32, drag_end: u32) -> (r: [u32; 4])
    ensures
        r == drag_rect_spec(width as int, height as int, drag_start as int, drag_end as int),
{
    let drag_origin = if CHROME_CONTROLS_LEFT {
        drag_start
    } else {
        min_u32(drag_start, drag_end)
    };
    let drag_width = if CHROME_CONTROLS_LEFT {
        width.saturating_sub(drag_origin)
    } else {
        drag_end.saturating_sub(drag_origin)
    };
    [drag_origin, 0, drag_width, height]
}

fn min_usize(a: usize, b: usize) -> (r: usize)
    ensures
        r == min(a as int, b as int),
{
    if a <= b { a } else { b }
}

} // verus!

verus! {

/// Where the tabs, the new-tab button and the drag region went.
pub struct TabStripBuildResult {
    /// Index (into the full tab list) of each tab that was laid out.
    pub tab_indices: Vec<usize>,
    /// Rectangle of each laid-out tab, parallel to `tab_indices`.
    pub tab_rects: Vec<[u32; 4]>,
    /// Close button of each laid-out tab, where it shows one.
    pub tab_close_rects: Vec<Option<[u32; 4]>>,
    /// The new-tab button, where there is room for it.
    pub add_tab_rect: Option<[u32; 4]>,
    /// The region that drags the window.
    pub drag_rect: [u32; 4],
}

impl TabStripBuildResult {
    /// A strip without tabs or new-tab button.
    pub open spec fn is_empty_with(self, drag_rect: [u32; 4]) -> bool {
        &&& self.tab_indices@.len() == 0
        &&& self.tab_rects@.len() == 0
        &&& self.tab_close_rects@.len() == 0
        &&& self.add_tab_rect is None
        &&& self.drag_rect == drag_rect
    }

    /// A strip that shows no tab, only the given drag region.
    pub fn empty(drag_rect: [u32; 4]) -> (r: Self)
        ensures
            r.is_empty_with(drag_rect),
    {
        TabStripBuildResult {
            tab_indices: Vec::new(),
            tab_rects: Vec::new(),
            tab_close_rects: Vec::new(),
            add_tab_rect: None,
            drag_rect,
        }
    }
}

/// Right edge of the burger button plus its margin, cut to the bar width.
pub open spec fn burger_right(width: int) -> int {
    min(sat_add(sat_add(BURGER_BTN_LEFT_PX as int, BURGER_BTN_SIZE_PX as int), 12), width)
}

/// Where the first tab starts.
pub open spec fn tab_start_x(width: int, controls_cluster_end: int) -> int {
    if CHROME_CONTROLS_LEFT {
        max(burger_right(width), sat_add(controls_cluster_end, 10))
    } else {
        burger_right(width)
    }
}

/// Where the tab strip (tabs and new-tab button) must end.
pub open spec fn strip_limit_x(width: int, drag_end: int) -> int {
    if CHROME_CONTROLS_LEFT {
        sat_sub(width, MIN_DRAG_WIDTH_PX as int)
    } else {
        sat_sub(drag_end, MIN_DRAG_WIDTH_PX as int)
    }
}

/// Pixels of strip between the first tab and the strip limit.
pub open spec fn available_strip(width: int, controls_cluster_end: int, drag_end: int) -> int {
    sat_sub(strip_limit_x(width, drag_end), tab_start_x(width, controls_cluster_end))
}

/// Whether the strip is wide enough to show the new-tab button.
pub open spec fn shows_add_button(width: int, controls_cluster_end: int, drag_end: int) -> bool {
    available_strip(width, controls_cluster_end, drag_end) >= sat_add(
        TAB_MIN_VISIBLE_WIDTH_PX as int,
        ADD_TAB_SIZE_PX + TAB_GAP_PX + 12,
    )
}

/// Pixels the tabs themselves may use.
pub open spec fn tab_space(width: int, controls_cluster_end: int, drag_end: int) -> int {
    if shows_add_button(width, controls_cluster_end, drag_end) {
        sat_sub(available_strip(width, controls_cluster_end, drag_end), ADD_TAB_SIZE_PX + TAB_GAP_PX)
    } else {
        available_strip(width, controls_cluster_end, drag_end)
    }
}

/// Drag start used when the strip shows no tabs although it has room.
pub open spec fn tabless_drag_start(width: int, controls_cluster_end: int, drag_end: int) -> int {
    if CHROME_CONTROLS_LEFT {
        max(controls_cluster_end, tab_start_x(width, controls_cluster_end))
    } else {
        min(tab_start_x(width, controls_cluster_end), drag_end)
    }
}

/// Left edge of the `k`-th tab of a run starting at tab `s` at `start_x`:
/// each tab is followed by a gap.
pub open spec fn tab_x(w: Seq<u32>, start_x: int, s: int, k: int) -> int
    decreases k - s,
{
    if k <= s {
        start_x
    } else {
        sat_add(sat_add(tab_x(w, start_x, s, k - 1), w[k - 1] as int), TAB_GAP_PX as int)
    }
}

/// Width of each tab for the given measurements and tab space.
pub open spec fn tab_widths(text_widths: Seq<Option<u32>>, space: int) -> Seq<u32> {
    Seq::new(text_widths.len(), |i: int| tab_width_spec(text_widths[i], space) as u32)
}

/// Whether the tab at `idx` shows its close button: only when there are
/// several tabs, and then for the active one and the one under the cursor.
pub open spec fn shows_close(
    n: int,
    idx: int,
    active: int,
    hovered_tab: Option<usize>,
    hovered_close_tab: Option<usize>,
) -> bool {
    n > 1 && (idx == active || hovered_tab == Some(idx as usize) || hovered_close_tab == Some(
        idx as usize,
    ))
}

/// Entry `k` of a laid-out run starting at tab `s`: it is tab `s + k`, sits
/// at its place in the run with its width, and shows a close button exactly
/// when `shows_close` says so.
pub open spec fn tab_entry_ok(
    indices: Seq<usize>,
    rects: Seq<[u32; 4]>,
    closes: Seq<Option<[u32; 4]>>,
    w: Seq<u32>,
    start_x: int,
    s: int,
    n: int,
    a: int,
    tab_h: int,
    hovered_tab: Option<usize>,
    hovered_close_tab: Option<usize>,
    k: int,
) -> bool {
    &&& indices[k] == s + k
    &&& rects[k] == [tab_x(w, start_x, s, s + k) as u32, TAB_TOP_PX, w[s + k], tab_h as u32]
    &&& closes[k] == if shows_close(n, s + k, a, hovered_tab, hovered_close_tab) {
        Some(tab_close_rect_spec(rects[k]))
    } else {
        None
    }
}

impl TabStripBuildResult {
    /// `self` is the tab strip of a `width` x `height` bar: empty when the
    /// bar or the space for tabs is too small (with the drag region that
    /// case calls for); otherwise a run of tabs around the active one as
    /// `visible_range_ok` describes, laid out left to right from the tab
    /// start with a gap after each tab (the run grown from the active tab as
    /// `grow_run` describes, left side first), then the new-tab button where it
    /// fits, then the drag region.
    pub open spec fn strip_spec(
        self,
        width: u32,
        height: u32,
        tab_text_widths: Seq<Option<u32>>,
        active_tab: usize,
        hovered_tab: Option<usize>,
        hovered_close_tab: Option<usize>,
        controls_cluster_end: u32,
        drag_end: u32,
    ) -> bool {
        let n = tab_text_widths.len() as int;
        let start_x = tab_start_x(width as int, controls_cluster_end as int);
        let limit = strip_limit_x(width as int, drag_end as int);
        let space = tab_space(width as int, controls_cluster_end as int, drag_end as int);
        let tabless = tabless_drag_start(width as int, controls_cluster_end as int, drag_end as int);
        if width == 0 || height == 0 {
            self.is_empty_with([0, 0, 0, 0])
        } else if limit <= sat_add(start_x, 48) {
            self.is_empty_with(
                drag_rect_spec(
                    width as int,
                    height as int,
                    if CHROME_CONTROLS_LEFT { controls_cluster_end as int } else { 0 },
                    drag_end as int,
                ),
            )
        } else if n == 0 || space == 0 {
            self.is_empty_with(drag_rect_spec(width as int, height as int, tabless, drag_end as int))
        } else {
            let w = tab_widths(tab_text_widths, space);
            let a = min(active_tab as int, n - 1);
            let len = self.tab_indices@.len() as int;
            let s = self.tab_indices@[0] as int;
            let last = self.tab_rects@[len - 1];
            let content_end = sat_add(last[0] as int, last[2] as int);
            let add_x = sat_add(content_end, TAB_GAP_PX as int);
            let add_fits = shows_add_button(width as int, controls_cluster_end as int, drag_end as int)
                && sat_add(add_x, ADD_TAB_SIZE_PX as int) <= limit;
            let add_rect = [
                add_x as u32,
                min(sat_sub(height as int, ADD_TAB_SIZE_PX as int) / 2, height as int) as u32,
                ADD_TAB_SIZE_PX,
                min(ADD_TAB_SIZE_PX as int, height as int) as u32,
            ];
            let drag_start0 = if add_fits {
                sat_add(sat_add(add_x, ADD_TAB_SIZE_PX as int), TAB_GAP_PX as int)
            } else {
                add_x
            };
            let drag_start = if CHROME_CONTROLS_LEFT {
                max(drag_start0, controls_cluster_end as int)
            } else {
                drag_start0
            };
            &&& len >= 1
            &&& self.tab_rects@.len() == len
            &&& self.tab_close_rects@.len() == len
            &&& visible_range_ok(w, a, space, s, s + len)
            &&& (s, s + len) == grow_run(w, space, a, a + 1, min(w[a] as int, space), true)
            &&& forall|k: int|
                0 <= k < len ==> #[trigger] tab_entry_ok(
                    self.tab_indices@,
                    self.tab_rects@,
                    self.tab_close_rects@,
                    w,
                    start_x,
                    s,
                    n,
                    a,
                    min(TAB_HEIGHT_PX as int, height as int),
                    hovered_tab,
                    hovered_close_tab,
                    k,
                )
            &&& self.add_tab_rect == if add_fits { Some(add_rect) } else { None }
            &&& self.drag_rect == drag_rect_spec(width as int, height as int, drag_start, drag_end as int)
        }
    }
}

/// The layout of the tab strip for the given bar, tabs and hover state.
///
/// `tab_text_widths[i]` is the measured (rounded up) width of the title of
/// tab `i`, or `None` where no font is available.
#[verifier::rlimit(40)]
pub fn build_tab_strip(
    width: u32,
    height: u32,
    tab_text_widths: &Vec<Option<u32>>,
    active_tab: usize,
    hovered_tab: Option<usize>,
    hovered_close_tab: Option<usize>,
    controls_cluster_end: u32,
    drag_end: u32,
) -> (r: TabStripBuildResult)
    ensures
        r.strip_spec(
            width,
            height,
            tab_text_widths@,
            active_tab,
            hovered_tab,
            hovered_close_tab,
            controls_cluster_end,
            drag_end,
        ),
{
    if width == 0 || height == 0 {
        return TabStripBuildResult::empty([0, 0, 0, 0]);
    }
    let burger_px = min_u32(
        BURGER_BTN_LEFT_PX.saturating_add(BURGER_BTN_SIZE_PX).saturating_add(12),
        width,
    );
    let start_px = if CHROME_CONTROLS_LEFT {
        max_u32(burger_px, controls_cluster_end.saturating_add(10))
    } else {
        burger_px
    };
    let limit_px = if CHROME_CONTROLS_LEFT {
        width.saturating_sub(MIN_DRAG_WIDTH_PX)
    } else {
        drag_end.saturating_sub(MIN_DRAG_WIDTH_PX)
    };
    if limit_px <= start_px.saturating_add(48) {
        let drag_start = if CHROME_CONTROLS_LEFT {
            controls_cluster_end
        } else {
            0
        };
        return TabStripBuildResult::empty(build_drag_rect(width, height, drag_start, drag_end));
    }
    let n = tab_text_widths.len();
    let available_px = limit_px.saturating_sub(start_px);
    let add_slot_width = ADD_TAB_SIZE_PX + TAB_GAP_PX;
    let show_add_button = available_px >= TAB_MIN_VISIBLE_WIDTH_PX.saturating_add(
        add_slot_width + 12,
    );
    let space_px = if show_add_button {
        available_px.saturating_sub(add_slot_width)
    } else {
        available_px
    };
    if n == 0 || space_px == 0 {
        let drag_start = if CHROME_CONTROLS_LEFT {
            max_u32(controls_cluster_end, start_px)
        } else {
            min_u32(start_px, drag_end)
        };
        return TabStripBuildResult::empty(build_drag_rect(width, height, drag_start, drag_end));
    }
    let ghost w = tab_widths(tab_text_widths@, space_px as int);
    let mut widths: Vec<u32> = Vec::new();
    let mut i: usize = 0;
    while i < n
        invariant
            i <= n,
            n == tab_text_widths@.len(),
            w == tab_widths(tab_text_widths@, space_px as int),
            widths@.len() == i,
            forall|j: int| 0 <= j < i ==> widths@[j] == w[j],
        decreases n - i,
    {
        let m = measure_tab_width(tab_text_widths[i], space_px);
        widths.push(m);
        i = i + 1;
    }
    assert(widths@ == w);
    let active_index = min_usize(active_tab, n - 1);
    let (visible_start, visible_end) = select_visible_tab_range(widths.as_slice(), active_index, space_px);
    let tab_h = min_u32(TAB_HEIGHT_PX, height);
    let mut tab_indices: Vec<usize> = Vec::new();
    let mut tab_rects: Vec<[u32; 4]> = Vec::new();
    let mut tab_close_rects: Vec<Option<[u32; 4]>> = Vec::new();
    let mut cursor_x = start_px;
    let mut idx = visible_start;
    while idx < visible_end
        invariant
            visible_start <= idx <= visible_end <= n,
            widths@ == w,
            n == tab_text_widths@.len(),
            w.len() == n,
            active_index == min(active_tab as int, n - 1),
            tab_h == min(TAB_HEIGHT_PX as int, height as int),
            tab_indices@.len() == idx - visible_start,
            tab_rects@.len() == idx - visible_start,
            tab_close_rects@.len() == idx - visible_start,
            cursor_x == tab_x(w, start_px as int, visible_start as int, idx as int),
            forall|k: int|
                0 <= k < idx - visible_start ==> #[trigger] tab_entry_ok(
                    tab_indices@,
                    tab_rects@,
                    tab_close_rects@,
                    w,
                    start_px as int,
                    visible_start as int,
                    n as int,
                    active_index as int,
                    tab_h as int,
                    hovered_tab,
                    hovered_close_tab,
                    k,
                ),
        decreases visible_end - idx,
    {
        let rect = [cursor_x, TAB_TOP_PX, widths[idx], tab_h];
        let show_close = n > 1 && (idx == active_index || hovered_tab == Some(idx)
            || hovered_close_tab == Some(idx));
        let close_rect = if show_close {
            Some(compute_tab_close_rect(rect))
        } else {
            None
        };
        let ghost k0 = idx - visible_start;
        let ghost old_rects = tab_rects@;
        let ghost old_closes = tab_close_rects@;
        let ghost old_indices = tab_indices@;
        tab_indices.push(idx);
        tab_rects.push(rect);
        tab_close_rects.push(close_rect);
        proof {
            assert(tab_rects@[k0] == rect);
            assert(rect[0] == tab_x(w, start_px as int, visible_start as int, visible_start + k0) as u32);
            assert forall|k: int| 0 <= k < k0 + 1 implies #[trigger] tab_entry_ok(
                tab_indices@,
                tab_rects@,
                tab_close_rects@,
                w,
                start_px as int,
                visible_start as int,
                n as int,
                active_index as int,
                tab_h as int,
                hovered_tab,
                hovered_close_tab,
                k,
            ) by {
                if k < k0 {
                    assert(tab_entry_ok(
                        old_indices,
                        old_rects,
                        old_closes,
                        w,
                        start_px as int,
                        visible_start as int,
                        n as int,
                        active_index as int,
                        tab_h as int,
                        hovered_tab,
                        hovered_close_tab,
                        k,
                    ));
                }
            }
        }
        let ghost prev = cursor_x as int;
        cursor_x = cursor_x.saturating_add(widths[idx]).saturating_add(TAB_GAP_PX);
        idx = idx + 1;
        proof {
            assert(tab_x(w, start_px as int, visible_start as int, idx as int) == sat_add(
                sat_add(prev, w[idx - 1] as int),
                TAB_GAP_PX as int,
            ));
        }
    }
    proof {
        assert(start_px == tab_start_x(width as int, controls_cluster_end as int));
        assert(limit_px == strip_limit_x(width as int, drag_end as int));
        assert(space_px == tab_space(width as int, controls_cluster_end as int, drag_end as int));
        assert(visible_end > visible_start);
        assert(tab_entry_ok(
            tab_indices@,
            tab_rects@,
            tab_close_rects@,
            w,
            start_px as int,
            visible_start as int,
            n as int,
            active_index as int,
            tab_h as int,
            hovered_tab,
            hovered_close_tab,
            0,
        ));
    }
    let last = tab_rects[tab_rects.len() - 1];
    let content_end = last[0].saturating_add(last[2]);
    let mut drag_start = content_end.saturating_add(TAB_GAP_PX);
    let add_tab_rect = if show_add_button {
        let add_x = content_end.saturating_add(TAB_GAP_PX);
        if add_x.saturating_add(ADD_TAB_SIZE_PX) <= limit_px {
            let add_y = min_u32(height.saturating_sub(ADD_TAB_SIZE_PX) / 2, height);
            let rect = [add_x, add_y, ADD_TAB_SIZE_PX, min_u32(ADD_TAB_SIZE_PX, height)];
            drag_start = rect[0].saturating_add(rect[2]).saturating_add(TAB_GAP_PX);
            Some(rect)
        } else {
            None
        }
    } else {
        None
    };
    if CHROME_CONTROLS_LEFT {
        drag_start = max_u32(drag_start, controls_cluster_end);
    }
    TabStripBuildResult {
        tab_indices,
        tab_rects,
        tab_close_rects,
        add_tab_rect,
        drag_rect: build_drag_rect(width, height, drag_start, drag_end),
    }
}

} // verus!
