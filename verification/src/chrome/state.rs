//! The interaction state of the title bar: tabs, hover and press tracking.
use vstd::prelude::*;

use crate::action::UiAction;
use crate::arith::min;
use crate::tokens::{CHROME_BTN_RADIUS_PX, CHROME_HEIGHT_PX, CHROME_SIDE_PADDING_PX};
use super::controls::WindowControlsLayout;
use super::tab_strip::{build_tab_strip, TabStripBuildResult};

verus! {

/// One tab as the title bar shows it.
#[derive(Clone)]
pub struct ChromeTabView {
    pub title: String,
}

impl View for ChromeTabView {
    type V = Seq<char>;

    open spec fn view(&self) -> Seq<char> {
        self.title@
    }
}

/// A title-bar button that acts on release, when the cursor is still on it.
#[derive(Clone, Copy, Debug, PartialEq, Eq, Structural)]
pub enum ChromePressTarget {
    CloseWindow,
    MinimizeWindow,
    ToggleWindowMaximize,
    NewTab,
    CloseTab(usize),
}

/// Which parts of the title bar a cursor position falls on (edges
/// included). Hit-testing itself happens in screen coordinates, outside this
/// crate; each entry is `false` for a part that is not laid out.
pub struct ChromeHits {
    /// `None` while the bar has not been laid out; else whether the cursor is on the bar.
    pub in_bar: Option<bool>,
    pub close: bool,
    pub minimize: bool,
    pub maximize: bool,
    pub add_tab: bool,
    /// Per laid-out tab, parallel to the tab indices of the last layout.
    pub tab_close: Vec<bool>,
    /// Per laid-out tab, parallel to the tab indices of the last layout.
    pub tab: Vec<bool>,
    pub drag: bool,
}

/// The interaction state of the window title bar.
pub struct WindowChromeUi {
    /// Tabs to show.
    pub tabs: Vec<ChromeTabView>,
    /// Index of the active tab (0 when there is none).
    pub active_tab: usize,
    /// Tab under the cursor.
    pub hovered_tab: Option<usize>,
    /// Tab whose close button is under the cursor.
    pub hovered_close_tab: Option<usize>,
    /// Whether the cursor is on the new-tab button.
    pub hovered_add_tab: bool,
    /// Button pressed and not yet released.
    pub pressed_target: Option<ChromePressTarget>,
    /// Index of each tab of the last layout, in strip order.
    pub tab_indices: Vec<usize>,
    /// Whether the bar texture must be redrawn.
    pub texture_dirty: bool,
    /// Surface width of the last layout.
    pub last_surface_width: u32,
    /// Maximised state of the last layout.
    pub last_maximized: bool,
}

/// `i` is the lowest position set in `v`.
pub open spec fn is_first_set(v: Seq<bool>, i: int) -> bool {
    0 <= i < v.len() && v[i] && forall|j: int| 0 <= j < i ==> !v[j]
}

/// The lowest position set in `v`.
pub fn position_of_first(v: &Vec<bool>) -> (r: Option<usize>)
    ensures
        match r {
            Some(i) => is_first_set(v@, i as int),
            None => forall|j: int| 0 <= j < v@.len() ==> !v@[j],
        },
{
    let mut i: usize = 0;
    while i < v.len()
        invariant
            i <= v@.len(),
            forall|j: int| 0 <= j < i ==> !v@[j],
        decreases v@.len() - i,
    {
        if v[i] {
            return Some(i);
        }
        i = i + 1;
    }
    None
}

/// The entry of `indices` at position `pos`, if there is one.
pub open spec fn index_at(indices: Seq<usize>, pos: Option<int>) -> Option<usize> {
    match pos {
        Some(p) => if 0 <= p < indices.len() { Some(indices[p]) } else { None },
        None => None,
    }
}

fn get_index(indices: &Vec<usize>, pos: Option<usize>) -> (r: Option<usize>)
    ensures
        r == index_at(
            indices@,
            match pos {
                Some(p) => Some(p as int),
                None => None,
            },
        ),
{
    match pos {
        Some(p) => if p < indices.len() { Some(indices[p]) } else { None },
        None => None,
    }
}

/// The position of the first set entry, or `None`.
pub open spec fn first_pos(v: Seq<bool>) -> Option<int> {
    if exists|i: int| is_first_set(v, i) {
        Some(choose|i: int| is_first_set(v, i))
    } else {
        None
    }
}

proof fn lemma_first_unique(v: Seq<bool>, i: int, j: int)
    requires
        is_first_set(v, i),
        is_first_set(v, j),
    ensures
        i == j,
{
}

proof fn lemma_first_pos(v: Seq<bool>, r: Option<usize>)
    requires
        match r {
            Some(i) => is_first_set(v, i as int),
            None => forall|j: int| 0 <= j < v.len() ==> !v[j],
        },
    ensures
        first_pos(v) == match r {
            Some(i) => Some(i as int),
            None => None::<int>,
        },
{
    match r {
        Some(i) => {
            let k = choose|k: int| is_first_set(v, k);
            lemma_first_unique(v, i as int, k);
        },
        None => {},
    }
}

/// The press target under the cursor: close, minimise, maximise, new tab,
/// then the close button of the first laid-out tab hit (none if that tab has
/// no index).
pub open spec fn press_target_spec(indices: Seq<usize>, hits: ChromeHits) -> Option<ChromePressTarget> {
    if hits.close {
        Some(ChromePressTarget::CloseWindow)
    } else if hits.minimize {
        Some(ChromePressTarget::MinimizeWindow)
    } else if hits.maximize {
        Some(ChromePressTarget::ToggleWindowMaximize)
    } else if hits.add_tab {
        Some(ChromePressTarget::NewTab)
    } else {
        match index_at(indices, first_pos(hits.tab_close@)) {
            Some(t) => Some(ChromePressTarget::CloseTab(t)),
            None => None,
        }
    }
}

/// The action a released button asks for.
pub open spec fn action_for_target_spec(target: ChromePressTarget) -> UiAction {
    match target {
        ChromePressTarget::CloseWindow => UiAction::CloseWindow,
        ChromePressTarget::MinimizeWindow => UiAction::MinimizeWindow,
        ChromePressTarget::ToggleWindowMaximize => UiAction::ToggleWindowMaximize,
        ChromePressTarget::NewTab => UiAction::NewTab,
        ChromePressTarget::CloseTab(i) => UiAction::CloseTab(i),
    }
}

/// The hover state a cursor position gives: the tab whose close button is
/// under it, else the tab under it; the close-button tab; the new-tab button.
pub open spec fn hover_spec(indices: Seq<usize>, hits: ChromeHits) -> (Option<usize>, Option<usize>, bool) {
    let close_tab = index_at(indices, first_pos(hits.tab_close@));
    let tab = match close_tab {
        Some(t) => Some(t),
        None => index_at(indices, first_pos(hits.tab@)),
    };
    (tab, close_tab, hits.add_tab)
}

/// Titles of a list of tabs.
pub open spec fn titles(tabs: Seq<ChromeTabView>) -> Seq<Seq<char>> {
    tabs.map_values(|t: ChromeTabView| t.title@)
}

/// The active tab kept for `n` tabs: clamped to the last one, 0 when empty.
pub open spec fn clamp_active(n: int, active: int) -> int {
    if n == 0 { 0 } else { min(active, n - 1) }
}

/// A hovered tab kept after the tab list shrank to `n` tabs.
pub open spec fn keep_hover(h: Option<usize>, n: int) -> Option<usize> {
    match h {
        Some(i) => if i >= n { None } else { Some(i) },
        None => None,
    }
}

/// What a press does: `(action, pressed target afterwards)`. Off the bar it
/// forgets any press; on a button it records the press and swallows the
/// click; on a tab it selects that tab; on the drag region it starts a
/// window drag; elsewhere on the bar it swallows the click. Before the bar
/// is laid out it does nothing.
pub open spec fn press_spec(
    indices: Seq<usize>,
    pressed: Option<ChromePressTarget>,
    hits: ChromeHits,
) -> (Option<UiAction>, Option<ChromePressTarget>) {
    match hits.in_bar {
        None => (None, pressed),
        Some(false) => (None, None),
        Some(true) => match press_target_spec(indices, hits) {
            Some(t) => (Some(UiAction::Consume), Some(t)),
            None => match first_pos(hits.tab@) {
                Some(p) => (
                    Some(
                        if p < indices.len() {
                            UiAction::SelectTab(indices[p])
                        } else {
                            UiAction::Consume
                        },
                    ),
                    None,
                ),
                None => (
                    Some(if hits.drag { UiAction::StartWindowDrag } else { UiAction::Consume }),
                    None,
                ),
            },
        },
    }
}

/// What a release does: nothing without a pressed button; else it forgets
/// the press and, when the cursor is still on the pressed button, asks for
/// that button's action (any other release on or off the laid-out bar is
/// swallowed).
pub open spec fn release_spec(
    indices: Seq<usize>,
    pressed: Option<ChromePressTarget>,
    hits: ChromeHits,
) -> Option<UiAction> {
    match pressed {
        None => None,
        Some(t) => match hits.in_bar {
            None => None,
            Some(false) => Some(UiAction::Consume),
            Some(true) => if press_target_spec(indices, hits) == Some(t) {
                Some(action_for_target_spec(t))
            } else {
                Some(UiAction::Consume)
            },
        },
    }
}

impl WindowChromeUi {
    /// A bar with no tabs, nothing hovered or pressed, waiting for its first layout.
    pub fn new() -> (r: Self)
        ensures
            r.tabs@.len() == 0,
            r.active_tab == 0,
            r.hovered_tab is None,
            r.hovered_close_tab is None,
            !r.hovered_add_tab,
            r.pressed_target is None,
            r.tab_indices@.len() == 0,
            r.texture_dirty,
            r.last_surface_width == 0,
            !r.last_maximized,
    {
        WindowChromeUi {
            tabs: Vec::new(),
            active_tab: 0,
            hovered_tab: None,
            hovered_close_tab: None,
            hovered_add_tab: false,
            pressed_target: None,
            tab_indices: Vec::new(),
            texture_dirty: true,
            last_surface_width: 0,
            last_maximized: false,
        }
    }

    /// Sets the hover state; reports whether it changed (and then marks the
    /// texture for redrawing).
    pub fn set_hover_state(
        &mut self,
        hovered_tab: Option<usize>,
        hovered_close_tab: Option<usize>,
        hovered_add_tab: bool,
    ) -> (changed: bool)
        ensures
            changed == !(old(self).hovered_tab == hovered_tab && old(self).hovered_close_tab
                == hovered_close_tab && old(self).hovered_add_tab == hovered_add_tab),
            final(self).hovered_tab == hovered_tab,
            final(self).hovered_close_tab == hovered_close_tab,
            final(self).hovered_add_tab == hovered_add_tab,
            final(self).texture_dirty == (old(self).texture_dirty || changed),
            final(self).tabs == old(self).tabs,
            final(self).active_tab == old(self).active_tab,
            final(self).pressed_target == old(self).pressed_target,
            final(self).tab_indices == old(self).tab_indices,
            final(self).last_surface_width == old(self).last_surface_width,
            final(self).last_maximized == old(self).last_maximized,
    {
        if self.hovered_tab == hovered_tab && self.hovered_close_tab == hovered_close_tab
            && self.hovered_add_tab == hovered_add_tab {
            return false;
        }
        self.hovered_tab = hovered_tab;
        self.hovered_close_tab = hovered_close_tab;
        self.hovered_add_tab = hovered_add_tab;
        self.texture_dirty = true;
        true
    }

    /// Clears the hover state; reports whether anything was hovered.
    pub fn clear_hover_state(&mut self) -> (changed: bool)
        ensures
            changed == !(old(self).hovered_tab is None && old(self).hovered_close_tab is None
                && !old(self).hovered_add_tab),
            final(self).hovered_tab is None,
            final(self).hovered_close_tab is None,
            !final(self).hovered_add_tab,
            final(self).texture_dirty == (old(self).texture_dirty || changed),
            final(self).tabs == old(self).tabs,
            final(self).active_tab == old(self).active_tab,
            final(self).pressed_target == old(self).pressed_target,
            final(self).tab_indices == old(self).tab_indices,
            final(self).last_surface_width == old(self).last_surface_width,
            final(self).last_maximized == old(self).last_maximized,
    {
        self.set_hover_state(None, None, false)
    }

    /// Sets the pressed button; reports whether it changed.
    pub fn set_pressed_target(&mut self, pressed_target: Option<ChromePressTarget>) -> (changed: bool)
        ensures
            changed == (old(self).pressed_target != pressed_target),
            final(self).pressed_target == pressed_target,
            final(self).tabs == old(self).tabs,
            final(self).active_tab == old(self).active_tab,
            final(self).hovered_tab == old(self).hovered_tab,
            final(self).hovered_close_tab == old(self).hovered_close_tab,
            final(self).hovered_add_tab == old(self).hovered_add_tab,
            final(self).texture_dirty == old(self).texture_dirty,
            final(self).tab_indices == old(self).tab_indices,
            final(self).last_surface_width == old(self).last_surface_width,
            final(self).last_maximized == old(self).last_maximized,
    {
        if self.pressed_target == pressed_target {
            return false;
        }
        self.pressed_target = pressed_target;
        true
    }

    /// Forgets the pressed button; reports whether one was pressed.
    pub fn clear_pressed_target(&mut self) -> (changed: bool)
        ensures
            changed == (old(self).pressed_target is Some),
            final(self).pressed_target is None,
            final(self).tabs == old(self).tabs,
            final(self).active_tab == old(self).active_tab,
            final(self).hovered_tab == old(self).hovered_tab,
            final(self).hovered_close_tab == old(self).hovered_close_tab,
            final(self).hovered_add_tab == old(self).hovered_add_tab,
            final(self).texture_dirty == old(self).texture_dirty,
            final(self).tab_indices == old(self).tab_indices,
            final(self).last_surface_width == old(self).last_surface_width,
            final(self).last_maximized == old(self).last_maximized,
    {
        self.set_pressed_target(None)
    }

    /// Forgets hover and press state; reports whether either changed.
    pub fn clear_interaction_state(&mut self) -> (changed: bool)
        ensures
            changed == (!(old(self).hovered_tab is None && old(self).hovered_close_tab is None
                && !old(self).hovered_add_tab) || old(self).pressed_target is Some),
            final(self).hovered_tab is None,
            final(self).hovered_close_tab is None,
            !final(self).hovered_add_tab,
            final(self).pressed_target is None,
            final(self).texture_dirty == (old(self).texture_dirty || !(old(self).hovered_tab is None
                && old(self).hovered_close_tab is None && !old(self).hovered_add_tab)),
            final(self).tabs == old(self).tabs,
            final(self).active_tab == old(self).active_tab,
            final(self).tab_indices == old(self).tab_indices,
            final(self).last_surface_width == old(self).last_surface_width,
            final(self).last_maximized == old(self).last_maximized,
    {
        let hover_changed = self.clear_hover_state();
        let pressed_changed = self.clear_pressed_target();
        hover_changed || pressed_changed
    }

    /// Whether the cursor is on the laid-out bar.
    pub fn contains_screen_point(&self, hits: &ChromeHits) -> (r: bool)
        ensures
            r == (hits.in_bar == Some(true)),
    {
        match hits.in_bar {
            Some(b) => b,
            None => false,
        }
    }

    /// The button under the cursor that acts on release, if any.
    pub fn press_target_at(&self, hits: &ChromeHits) -> (r: Option<ChromePressTarget>)
        ensures
            r == press_target_spec(self.tab_indices@, *hits),
    {
        if hits.close {
            return Some(ChromePressTarget::CloseWindow);
        }
        if hits.minimize {
            return Some(ChromePressTarget::MinimizeWindow);
        }
        if hits.maximize {
            return Some(ChromePressTarget::ToggleWindowMaximize);
        }
        if hits.add_tab {
            return Some(ChromePressTarget::NewTab);
        }
        let pos = position_of_first(&hits.tab_close);
        proof {
            lemma_first_pos(hits.tab_close@, pos);
        }
        match get_index(&self.tab_indices, pos) {
            Some(t) => Some(ChromePressTarget::CloseTab(t)),
            None => None,
        }
    }

    /// The action a released button asks for.
    pub fn action_for_press_target(target: ChromePressTarget) -> (r: UiAction)
        ensures
            r == action_for_target_spec(target),
    {
        match target {
            ChromePressTarget::CloseWindow => UiAction::CloseWindow,
            ChromePressTarget::MinimizeWindow => UiAction::MinimizeWindow,
            ChromePressTarget::ToggleWindowMaximize => UiAction::ToggleWindowMaximize,
            ChromePressTarget::NewTab => UiAction::NewTab,
            ChromePressTarget::CloseTab(i) => UiAction::CloseTab(i),
        }
    }

    /// Updates the hover state for a cursor move; reports whether it changed.
    pub fn handle_cursor_moved(&mut self, hits: &ChromeHits) -> (changed: bool)
        ensures
            final(self).tabs == old(self).tabs,
            final(self).active_tab == old(self).active_tab,
            final(self).pressed_target == old(self).pressed_target,
            final(self).tab_indices == old(self).tab_indices,
            ({
                let h = if hits.in_bar == Some(true) {
                    hover_spec(old(self).tab_indices@, *hits)
                } else {
                    (None, None, false)
                };
                if hits.in_bar is None {
                    !changed && *final(self) == *old(self)
                } else {
                    &&& changed == !(old(self).hovered_tab == h.0 && old(self).hovered_close_tab == h.1
                        && old(self).hovered_add_tab == h.2)
                    &&& final(self).hovered_tab == h.0
                    &&& final(self).hovered_close_tab == h.1
                    &&& final(self).hovered_add_tab == h.2
                    &&& final(self).texture_dirty == (old(self).texture_dirty || changed)
                }
            }),
    {
        let in_bar = match hits.in_bar {
            Some(b) => b,
            None => return false,
        };
        if !in_bar {
            return self.clear_hover_state();
        }
        let close_pos = position_of_first(&hits.tab_close);
        proof {
            lemma_first_pos(hits.tab_close@, close_pos);
        }
        let hovered_close_tab = get_index(&self.tab_indices, close_pos);
        let hovered_tab = match hovered_close_tab {
            Some(t) => Some(t),
            None => {
                let tab_pos = position_of_first(&hits.tab);
                proof {
                    lemma_first_pos(hits.tab@, tab_pos);
                }
                get_index(&self.tab_indices, tab_pos)
            },
        };
        self.set_hover_state(hovered_tab, hovered_close_tab, hits.add_tab)
    }

    /// Handles a mouse press on the title bar.
    pub fn handle_mouse_press(&mut self, hits: &ChromeHits) -> (r: Option<UiAction>)
        ensures
            (r, final(self).pressed_target) == press_spec(
                old(self).tab_indices@,
                old(self).pressed_target,
                *hits,
            ),
            final(self).tabs == old(self).tabs,
            final(self).active_tab == old(self).active_tab,
            final(self).hovered_tab == old(self).hovered_tab,
            final(self).hovered_close_tab == old(self).hovered_close_tab,
            final(self).hovered_add_tab == old(self).hovered_add_tab,
            final(self).texture_dirty == old(self).texture_dirty,
            final(self).tab_indices == old(self).tab_indices,
    {
        let in_bar = match hits.in_bar {
            Some(b) => b,
            None => return None,
        };
        if !in_bar {
            self.clear_pressed_target();
            return None;
        }
        if let Some(target) = self.press_target_at(hits) {
            self.set_pressed_target(Some(target));
            return Some(UiAction::Consume);
        }
        self.clear_pressed_target();
        let tab_pos = position_of_first(&hits.tab);
        proof {
            lemma_first_pos(hits.tab@, tab_pos);
        }
        if let Some(p) = tab_pos {
            if p < self.tab_indices.len() {
                return Some(UiAction::SelectTab(self.tab_indices[p]));
            }
            return Some(UiAction::Consume);
        }
        if hits.drag {
            return Some(UiAction::StartWindowDrag);
        }
        Some(UiAction::Consume)
    }

    /// Replaces the tab list and active tab (clamped to the list); reports
    /// whether anything changed. Hovered tabs that no longer exist are dropped.
    pub fn sync_tabs(&mut self, tabs: &Vec<ChromeTabView>, active_tab: usize) -> (changed: bool)
        ensures
            ({
                let n = tabs@.len() as int;
                let a = clamp_active(n, active_tab as int);
                let same = titles(old(self).tabs@) == titles(tabs@) && old(self).active_tab == a;
                &&& changed == !same
                &&& same ==> *final(self) == *old(self)
                &&& !same ==> {
                    &&& titles(final(self).tabs@) == titles(tabs@)
                    &&& final(self).active_tab == a
                    &&& final(self).hovered_tab == keep_hover(old(self).hovered_tab, n)
                    &&& final(self).hovered_close_tab == keep_hover(old(self).hovered_close_tab, n)
                    &&& final(self).texture_dirty
                    &&& final(self).hovered_add_tab == old(self).hovered_add_tab
                    &&& final(self).pressed_target == old(self).pressed_target
                    &&& final(self).tab_indices == old(self).tab_indices
                    &&& final(self).last_surface_width == old(self).last_surface_width
                    &&& final(self).last_maximized == old(self).last_maximized
                }
            }),
    {
        let n = tabs.len();
        let active_tab = if n == 0 {
            0
        } else if active_tab < n - 1 {
            active_tab
        } else {
            n - 1
        };
        if self.tabs.len() == n && self.active_tab == active_tab {
            let mut i: usize = 0;
            let mut all_same = true;
            while i < n
                invariant
                    i <= n,
                    n == tabs@.len(),
                    self.tabs@.len() == n,
                    all_same == forall|j: int| 0 <= j < i ==> self.tabs@[j].title@ == tabs@[j].title@,
                decreases n - i,
            {
                if self.tabs[i].title != tabs[i].title {
                    all_same = false;
                }
                i = i + 1;
            }
            if all_same {
                assert(titles(self.tabs@) =~= titles(tabs@));
                return false;
            }
            assert(titles(self.tabs@) != titles(tabs@)) by {
                let j = choose|j: int| 0 <= j < n && self.tabs@[j].title@ != tabs@[j].title@;
                assert(titles(self.tabs@)[j] != titles(tabs@)[j]);
            }
        }
        let mut copied: Vec<ChromeTabView> = Vec::new();
        let mut i: usize = 0;
        while i < n
            invariant
                i <= n,
                n == tabs@.len(),
                copied@.len() == i,
                forall|j: int| 0 <= j < i ==> copied@[j].title@ == tabs@[j].title@,
            decreases n - i,
        {
            copied.push(ChromeTabView { title: tabs[i].title.clone() });
            i = i + 1;
        }
        assert(titles(copied@) =~= titles(tabs@));
        self.tabs = copied;
        self.active_tab = active_tab;
        if let Some(h) = self.hovered_tab {
            if h >= n {
                self.hovered_tab = None;
            }
        }
        if let Some(h) = self.hovered_close_tab {
            if h >= n {
                self.hovered_close_tab = None;
            }
        }
        self.texture_dirty = true;
        true
    }

    /// Whether the bar texture must be rebuilt for this surface: the width,
    /// the maximised state or the texture height changed, or it is marked dirty.
    pub open spec fn needs_texture_update_spec(self, surface_width: u32, maximized: bool, tex_height: u32) -> bool {
        self.last_surface_width != surface_width || self.last_maximized != maximized || tex_height
            != CHROME_HEIGHT_PX || self.texture_dirty
    }

    /// Decides whether the bar must be redrawn for a surface of the given size
    /// and, when it must, lays it out and records the new layout.
    ///
    /// `tex_height` is the height of the texture currently on screen;
    /// `tab_text_widths[i]` the measured width of the title of tab `i`.
    /// Once it has drawn, the same surface and maximised state with a
    /// texture of the bar's height need no redraw: a second identical update
    /// draws nothing.
    pub fn update(
        &mut self,
        surface_width: u32,
        surface_height: u32,
        maximized: bool,
        tex_height: u32,
        tab_text_widths: &Vec<Option<u32>>,
    ) -> (r: Option<ChromeLayout>)
        requires
            surface_width as i32 - CHROME_SIDE_PADDING_PX - CHROME_BTN_RADIUS_PX >= i32::MIN,
        ensures
            (surface_width == 0 || surface_height == 0 || !old(self).needs_texture_update_spec(
                surface_width,
                maximized,
                tex_height,
            )) ==> r is None && *final(self) == *old(self),
            (surface_width != 0 && surface_height != 0 && old(self).needs_texture_update_spec(
                surface_width,
                maximized,
                tex_height,
            )) ==> {
                &&& r matches Some(layout)
                &&& layout.height == CHROME_HEIGHT_PX
                &&& layout.controls == WindowControlsLayout::new_spec(surface_width, CHROME_HEIGHT_PX)
                &&& layout.tab_strip.strip_spec(
                    surface_width,
                    CHROME_HEIGHT_PX,
                    tab_text_widths@,
                    old(self).active_tab,
                    old(self).hovered_tab,
                    old(self).hovered_close_tab,
                    layout.controls.controls_cluster_end,
                    layout.controls.drag_end,
                )
                &&& final(self).tab_indices@ == layout.tab_strip.tab_indices@
                &&& final(self).last_surface_width == surface_width
                &&& final(self).last_maximized == maximized
                &&& !final(self).texture_dirty
                &&& final(self).tabs == old(self).tabs
                &&& final(self).active_tab == old(self).active_tab
                &&& final(self).hovered_tab == old(self).hovered_tab
                &&& final(self).hovered_close_tab == old(self).hovered_close_tab
                &&& final(self).hovered_add_tab == old(self).hovered_add_tab
                &&& final(self).pressed_target == old(self).pressed_target
            },
            r is Some ==> !final(self).needs_texture_update_spec(surface_width, maximized, CHROME_HEIGHT_PX),
    {
        if surface_width == 0 || surface_height == 0 {
            return None;
        }
        let needs = self.last_surface_width != surface_width || self.last_maximized != maximized
            || tex_height != CHROME_HEIGHT_PX || self.texture_dirty;
        if !needs {
            return None;
        }
        let layout = build_chrome_layout(
            surface_width,
            tab_text_widths,
            self.active_tab,
            self.hovered_tab,
            self.hovered_close_tab,
        );
        self.tab_indices = copy_indices(&layout.tab_strip.tab_indices);
        self.last_surface_width = surface_width;
        self.last_maximized = maximized;
        self.texture_dirty = false;
        Some(layout)
    }

    /// Handles a mouse release: fires the pressed button's action when the
    /// cursor is still on it.
    pub fn handle_mouse_release(&mut self, hits: &ChromeHits) -> (r: Option<UiAction>)
        ensures
            r == release_spec(old(self).tab_indices@, old(self).pressed_target, *hits),
            final(self).pressed_target is None,
            final(self).tabs == old(self).tabs,
            final(self).active_tab == old(self).active_tab,
            final(self).hovered_tab == old(self).hovered_tab,
            final(self).hovered_close_tab == old(self).hovered_close_tab,
            final(self).hovered_add_tab == old(self).hovered_add_tab,
            final(self).texture_dirty == old(self).texture_dirty,
            final(self).tab_indices == old(self).tab_indices,
    {
        let pressed_target = match self.pressed_target {
            Some(t) => t,
            None => return None,
        };
        self.clear_pressed_target();
        let in_bar = match hits.in_bar {
            Some(b) => b,
            None => return None,
        };
        if !in_bar {
            return Some(UiAction::Consume);
        }
        if self.press_target_at(hits) == Some(pressed_target) {
            return Some(Self::action_for_press_target(pressed_target));
        }
        Some(UiAction::Consume)
    }
}

/// Where everything on a freshly drawn title bar goes.
pub struct ChromeLayout {
    /// Height of the bar texture.
    pub height: u32,
    /// The window buttons.
    pub controls: WindowControlsLayout,
    /// The tabs, the new-tab button and the drag region.
    pub tab_strip: TabStripBuildResult,
}

/// Lays out a `width`-wide title bar: the window buttons, then the tab strip
/// in the space they leave.
pub fn build_chrome_layout(
    width: u32,
    tab_text_widths: &Vec<Option<u32>>,
    active_tab: usize,
    hovered_tab: Option<usize>,
    hovered_close_tab: Option<usize>,
) -> (r: ChromeLayout)
    requires
        width as i32 - CHROME_SIDE_PADDING_PX - CHROME_BTN_RADIUS_PX >= i32::MIN,
    ensures
        r.height == CHROME_HEIGHT_PX,
        r.controls == WindowControlsLayout::new_spec(width, CHROME_HEIGHT_PX),
        r.tab_strip.strip_spec(
            width,
            CHROME_HEIGHT_PX,
            tab_text_widths@,
            active_tab,
            hovered_tab,
            hovered_close_tab,
            r.controls.controls_cluster_end,
            r.controls.drag_end,
        ),
{
    let height = CHROME_HEIGHT_PX;
    let controls = WindowControlsLayout::new(width, height);
    let tab_strip = build_tab_strip(
        width,
        height,
        tab_text_widths,
        active_tab,
        hovered_tab,
        hovered_close_tab,
        controls.controls_cluster_end,
        controls.drag_end,
    );
    ChromeLayout { height, controls, tab_strip }
}

fn copy_indices(v: &Vec<usize>) -> (r: Vec<usize>)
    ensures
        r@ == v@,
{
    let mut out: Vec<usize> = Vec::new();
    let mut i: usize = 0;
    while i < v.len()
        invariant
            i <= v@.len(),
            out@ == v@.subrange(0, i as int),
        decreases v@.len() - i,
    {
        out.push(v[i]);
        i = i + 1;
    }
    assert(out@ =~= v@);
    out
}

/// Pressing a title-bar button and releasing it without leaving it fires
/// that button's action (and only a press on a button is remembered).
pub proof fn press_then_release_fires_button(
    indices: Seq<usize>,
    pressed: Option<ChromePressTarget>,
    hits: ChromeHits,
)
    requires
        hits.in_bar == Some(true),
    ensures
        ({
            let (_, after) = press_spec(indices, pressed, hits);
            match press_target_spec(indices, hits) {
                Some(t) => after == Some(t) && release_spec(indices, after, hits) == Some(
                    action_for_target_spec(t),
                ),
                None => after is None && release_spec(indices, after, hits) is None,
            }
        }),
{
}

/// A press on the bar that hits no button but the laid-out tab at strip
/// position `p` (the first tab hit) selects the tab drawn there,
/// `indices[p]`, and leaves no button pressed.
pub proof fn press_on_tab_selects_the_tab_drawn_there(
    indices: Seq<usize>,
    pressed: Option<ChromePressTarget>,
    hits: ChromeHits,
    p: int,
)
    requires
        hits.in_bar == Some(true),
        !hits.close && !hits.minimize && !hits.maximize && !hits.add_tab,
        forall|j: int| 0 <= j < hits.tab_close@.len() ==> !hits.tab_close@[j],
        0 <= p < indices.len(),
        0 <= p < hits.tab@.len(),
        hits.tab@[p],
        forall|j: int| 0 <= j < p ==> !hits.tab@[j],
    ensures
        press_spec(indices, pressed, hits) == (Some(UiAction::SelectTab(indices[p])), None::<ChromePressTarget>),
{
    assert(first_pos(hits.tab_close@) is None);
    assert(is_first_set(hits.tab@, p));
    let k = choose|k: int| is_first_set(hits.tab@, k);
    lemma_first_unique(hits.tab@, p, k);
    assert(first_pos(hits.tab@) == Some(p));
}

/// A press on the close button of the laid-out tab at strip position `q`
/// (the first close button hit, no window or new-tab button hit) arms the
/// close of the tab drawn there, `indices[q]`; releasing on the same spot
/// asks to close that tab. The cursor there hovers that tab and its close
/// button.
pub proof fn tab_close_button_closes_the_tab_drawn_there(
    indices: Seq<usize>,
    pressed: Option<ChromePressTarget>,
    hits: ChromeHits,
    q: int,
)
    requires
        hits.in_bar == Some(true),
        !hits.close && !hits.minimize && !hits.maximize && !hits.add_tab,
        0 <= q < indices.len(),
        0 <= q < hits.tab_close@.len(),
        hits.tab_close@[q],
        forall|j: int| 0 <= j < q ==> !hits.tab_close@[j],
    ensures
        press_spec(indices, pressed, hits) == (
            Some(UiAction::Consume),
            Some(ChromePressTarget::CloseTab(indices[q])),
        ),
        release_spec(indices, Some(ChromePressTarget::CloseTab(indices[q])), hits) == Some(
            UiAction::CloseTab(indices[q]),
        ),
        hover_spec(indices, hits) == (Some(indices[q]), Some(indices[q]), false),
{
    assert(is_first_set(hits.tab_close@, q));
    let k = choose|k: int| is_first_set(hits.tab_close@, k);
    lemma_first_unique(hits.tab_close@, q, k);
    assert(first_pos(hits.tab_close@) == Some(q));
}

/// With the cursor on the laid-out tab at strip position `p` (the first tab
/// hit) and on no close button, the tab drawn there, `indices[p]`, is hovered.
pub proof fn hover_on_tab_marks_the_tab_drawn_there(indices: Seq<usize>, hits: ChromeHits, p: int)
    requires
        forall|j: int| 0 <= j < hits.tab_close@.len() ==> !hits.tab_close@[j],
        0 <= p < indices.len(),
        0 <= p < hits.tab@.len(),
        hits.tab@[p],
        forall|j: int| 0 <= j < p ==> !hits.tab@[j],
    ensures
        hover_spec(indices, hits) == (Some(indices[p]), None::<usize>, hits.add_tab),
{
    assert(first_pos(hits.tab_close@) is None);
    assert(is_first_set(hits.tab@, p));
    let k = choose|k: int| is_first_set(hits.tab@, k);
    lemma_first_unique(hits.tab@, p, k);
    assert(first_pos(hits.tab@) == Some(p));
}

} // verus!
