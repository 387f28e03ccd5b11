//! What the context menu shows and what a click on it does.
use vstd::prelude::*;

use super::layout::{MENU_HEIGHT_PX, MENU_WIDTH_PX};
use crate::action::UiAction;

verus! {

/// The state of the canvas context menu.
pub struct CanvasContextMenuUi {
    pub open: bool,
    /// An action on the target runs; the rows take no input meanwhile.
    pub busy: bool,
    /// The slot the menu was opened on.
    pub target_slot_id: Option<u64>,
    pub hovered_show_in_explorer: bool,
    pub hovered_delete: bool,
    /// The menu picture has to be drawn again.
    pub texture_dirty: bool,
    /// Size of the menu picture last drawn.
    pub tex_width: u32,
    pub tex_height: u32,
}

/// Where the cursor is relative to the menu (edges included). The rows'
/// hits are in screen coordinates, whether or not the panel is hit.
#[derive(Clone, Copy, Debug, PartialEq, Eq, Structural)]
pub struct MenuHits {
    pub in_panel: bool,
    pub in_show_in_explorer: bool,
    pub in_delete: bool,
}

/// The menu a click at `hits` answers with, for a menu in state `s`.
pub open spec fn click_action(s: CanvasContextMenuUi, hits: MenuHits) -> Option<UiAction> {
    if !s.open || s.busy {
        None
    } else {
        match s.target_slot_id {
            None => None,
            Some(id) => if hits.in_show_in_explorer {
                Some(UiAction::ShowInExplorer(id))
            } else if hits.in_delete {
                Some(UiAction::MoveSlotToTrash(id))
            } else {
                None
            },
        }
    }
}

impl CanvasContextMenuUi {
    /// The menu has a target exactly while it is open, and rows are only
    /// hovered on the open menu.
    pub open spec fn wf(self) -> bool {
        &&& (self.open <==> self.target_slot_id is Some)
        &&& (self.hovered_show_in_explorer || self.hovered_delete) ==> self.open
    }
}

/// The closed menu.
pub open spec fn is_closed(s: CanvasContextMenuUi) -> bool {
    &&& !s.open
    &&& !s.busy
    &&& s.target_slot_id is None
    &&& !s.hovered_show_in_explorer
    &&& !s.hovered_delete
}

impl CanvasContextMenuUi {
    /// A closed menu whose picture has not been drawn yet.
    pub fn new() -> (r: Self)
        ensures
            is_closed(r),
            r.texture_dirty,
            r.wf(),
    {
        CanvasContextMenuUi {
            open: false,
            busy: false,
            target_slot_id: None,
            hovered_show_in_explorer: false,
            hovered_delete: false,
            texture_dirty: true,
            tex_width: 0,
            tex_height: 0,
        }
    }

    /// Whether the menu is open.
    pub fn is_open(&self) -> (r: bool)
        ensures
            r == self.open,
    {
        self.open
    }

    /// Whether an action on the target runs.
    pub fn is_busy(&self) -> (r: bool)
        ensures
            r == self.busy,
    {
        self.busy
    }

    /// The slot the menu was opened on.
    pub fn target_slot_id(&self) -> (r: Option<u64>)
        ensures
            r == self.target_slot_id,
    {
        self.target_slot_id
    }

    /// Marks an action as running or done; a change redraws the menu.
    pub fn set_busy(&mut self, busy: bool)
        requires
            old(self).wf(),
        ensures
            final(self).wf(),
            final(self).busy == busy,
            final(self).texture_dirty == (old(self).texture_dirty || old(self).busy != busy),
            final(self).open == old(self).open,
            final(self).target_slot_id == old(self).target_slot_id,
            final(self).hovered_show_in_explorer == old(self).hovered_show_in_explorer,
            final(self).hovered_delete == old(self).hovered_delete,
            final(self).tex_width == old(self).tex_width,
            final(self).tex_height == old(self).tex_height,
    {
        if self.busy == busy {
            return;
        }
        self.busy = busy;
        self.texture_dirty = true;
    }

    /// Opens the menu on a slot, with nothing hovered and nothing running.
    /// Where the panel goes is the caller's: at the cursor, kept on the
    /// surface (see `panel_max_origin`).
    pub fn open_at(&mut self, target_slot_id: u64)
        requires
            old(self).wf(),
        ensures
            final(self).wf(),
            final(self).open,
            !final(self).busy,
            final(self).target_slot_id == Some(target_slot_id),
            !final(self).hovered_show_in_explorer,
            !final(self).hovered_delete,
            final(self).texture_dirty,
            final(self).tex_width == old(self).tex_width,
            final(self).tex_height == old(self).tex_height,
    {
        self.open = true;
        self.busy = false;
        self.target_slot_id = Some(target_slot_id);
        self.hovered_show_in_explorer = false;
        self.hovered_delete = false;
        self.texture_dirty = true;
    }

    /// Closes the menu and forgets its target.
    pub fn close(&mut self)
        requires
            old(self).wf(),
        ensures
            final(self).wf(),
            is_closed(*final(self)),
            final(self).texture_dirty,
            final(self).tex_width == old(self).tex_width,
            final(self).tex_height == old(self).tex_height,
    {
        self.open = false;
        self.busy = false;
        self.target_slot_id = None;
        self.hovered_show_in_explorer = false;
        self.hovered_delete = false;
        self.texture_dirty = true;
    }

    /// Closes the menu if it targets `slot_id` (the slot went away).
    pub fn clear_target_if_matches(&mut self, slot_id: u64)
        requires
            old(self).wf(),
        ensures
            final(self).wf(),
            final(self).target_slot_id != Some(slot_id),
            old(self).target_slot_id == Some(slot_id) ==> is_closed(*final(self)) && final(self).texture_dirty,
            old(self).target_slot_id != Some(slot_id) ==> *final(self) == *old(self),
            final(self).tex_width == old(self).tex_width,
            final(self).tex_height == old(self).tex_height,
    {
        if self.target_slot_id == Some(slot_id) {
            self.close();
        }
    }

    /// Whether a screen point belongs to the open menu.
    pub fn contains_screen_point(&self, in_panel: bool) -> (r: bool)
        ensures
            r == (self.open && in_panel),
    {
        self.open && in_panel
    }

    /// Updates the hovered rows for a cursor at `hits`; returns whether the
    /// hover changed. Nothing is hovered while busy or outside the panel.
    pub fn handle_cursor_moved(&mut self, hits: MenuHits) -> (changed: bool)
        requires
            old(self).wf(),
        ensures
            final(self).wf(),
            !old(self).open ==> !changed && *final(self) == *old(self),
            old(self).open ==> {
                let show = !old(self).busy && hits.in_panel && hits.in_show_in_explorer;
                let delete = !old(self).busy && hits.in_panel && hits.in_delete;
                &&& changed == (show != old(self).hovered_show_in_explorer || delete != old(self).hovered_delete)
                &&& final(self).hovered_show_in_explorer == show
                &&& final(self).hovered_delete == delete
                &&& final(self).texture_dirty == (old(self).texture_dirty || changed)
                &&& final(self).open == old(self).open
                &&& final(self).busy == old(self).busy
                &&& final(self).target_slot_id == old(self).target_slot_id
                &&& final(self).tex_width == old(self).tex_width
                &&& final(self).tex_height == old(self).tex_height
            },
    {
        if !self.open {
            return false;
        }
        let hovered_show_in_explorer = !self.busy && hits.in_panel && hits.in_show_in_explorer;
        let hovered_delete = !self.busy && hits.in_panel && hits.in_delete;
        if hovered_show_in_explorer == self.hovered_show_in_explorer && hovered_delete
            == self.hovered_delete {
            return false;
        }
        self.hovered_show_in_explorer = hovered_show_in_explorer;
        self.hovered_delete = hovered_delete;
        self.texture_dirty = true;
        true
    }

    /// The action a left click at `hits` asks for: the row under the cursor
    /// applied to the target slot; nothing while closed or busy.
    pub fn handle_left_click(&self, hits: MenuHits) -> (r: Option<UiAction>)
        ensures
            r == click_action(*self, hits),
    {
        if !self.open || self.busy {
            return None;
        }
        let target_slot_id = match self.target_slot_id {
            Some(id) => id,
            None => {
                return None;
            },
        };
        if hits.in_show_in_explorer {
            return Some(UiAction::ShowInExplorer(target_slot_id));
        }
        if hits.in_delete {
            return Some(UiAction::MoveSlotToTrash(target_slot_id));
        }
        None
    }

    /// Whether the menu picture has to be drawn (again) before showing it.
    pub fn needs_texture_rebuild(&self) -> (r: bool)
        ensures
            r == (self.texture_dirty || self.tex_width != MENU_WIDTH_PX || self.tex_height
                != MENU_HEIGHT_PX),
    {
        self.texture_dirty || self.tex_width != MENU_WIDTH_PX || self.tex_height != MENU_HEIGHT_PX
    }

    /// Records that the menu picture was drawn for the current state.
    pub fn mark_texture_built(&mut self)
        requires
            old(self).wf(),
        ensures
            final(self).wf(),
            !final(self).texture_dirty,
            final(self).tex_width == MENU_WIDTH_PX,
            final(self).tex_height == MENU_HEIGHT_PX,
            final(self).open == old(self).open,
            final(self).busy == old(self).busy,
            final(self).target_slot_id == old(self).target_slot_id,
            final(self).hovered_show_in_explorer == old(self).hovered_show_in_explorer,
            final(self).hovered_delete == old(self).hovered_delete,
    {
        self.texture_dirty = false;
        self.tex_width = MENU_WIDTH_PX;
        self.tex_height = MENU_HEIGHT_PX;
    }
}

/// A click only ever acts on the slot the menu was opened on, and only while
/// the menu is open and idle.
pub proof fn click_acts_on_target(s: CanvasContextMenuUi, hits: MenuHits)
    ensures
        click_action(s, hits) matches Some(a) ==> s.open && !s.busy && (a == UiAction::ShowInExplorer(
            s.target_slot_id->0,
        ) || a == UiAction::MoveSlotToTrash(s.target_slot_id->0)) && s.target_slot_id is Some,
{
}

/// Closing the menu, or removing its target, leaves nothing a click could act
/// on.
pub proof fn closed_menu_ignores_clicks(s: CanvasContextMenuUi, hits: MenuHits)
    requires
        is_closed(s),
    ensures
        click_action(s, hits) is None,
{
}

} // verus!
