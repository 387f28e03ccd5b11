//! The sidebar's navigation items and what each one does.
use vstd::prelude::*;

use crate::action::UiAction;

verus! {

/// Number of navigation items the sidebar holds.
pub const MAX_NAV_ITEMS: usize = 3;

/// A sidebar navigation item.
#[derive(Clone, Copy, Debug, Eq, PartialEq, Structural)]
pub enum SidebarNavItem {
    AddFolder,
    OpenCacheFolder,
    ClearCanvas,
}

/// The navigation items in display order.
pub const NAV_ITEMS: [SidebarNavItem; MAX_NAV_ITEMS] = [
    SidebarNavItem::AddFolder,
    SidebarNavItem::OpenCacheFolder,
    SidebarNavItem::ClearCanvas,
];

/// The navigation items in display order.
pub open spec fn nav_items_spec() -> Seq<SidebarNavItem> {
    seq![SidebarNavItem::AddFolder, SidebarNavItem::OpenCacheFolder, SidebarNavItem::ClearCanvas]
}

/// What an item does when clicked.
pub open spec fn item_action_spec(item: SidebarNavItem) -> UiAction {
    match item {
        SidebarNavItem::AddFolder => UiAction::OpenCanvasImportDialog,
        SidebarNavItem::OpenCacheFolder => UiAction::OpenCacheFolder,
        SidebarNavItem::ClearCanvas => UiAction::ClearCurrentCanvas,
    }
}

/// The action of the navigation item at `idx`, if there is one.
pub open spec fn nav_action_spec(idx: int) -> Option<UiAction> {
    if 0 <= idx < nav_items_spec().len() {
        Some(item_action_spec(nav_items_spec()[idx]))
    } else {
        None
    }
}

impl SidebarNavItem {
    /// The text shown for the item.
    pub fn label(self) -> (r: &'static str)
        ensures
            r@ == match self {
                SidebarNavItem::AddFolder => "Add Folder"@,
                SidebarNavItem::OpenCacheFolder => "Open Cache Folder"@,
                SidebarNavItem::ClearCanvas => "Clear Canvas"@,
            },
    {
        match self {
            SidebarNavItem::AddFolder => "Add Folder",
            SidebarNavItem::OpenCacheFolder => "Open Cache Folder",
            SidebarNavItem::ClearCanvas => "Clear Canvas",
        }
    }

    /// What the item does when clicked.
    pub fn action(self) -> (r: UiAction)
        ensures
            r == item_action_spec(self),
    {
        match self {
            SidebarNavItem::AddFolder => UiAction::OpenCanvasImportDialog,
            SidebarNavItem::OpenCacheFolder => UiAction::OpenCacheFolder,
            SidebarNavItem::ClearCanvas => UiAction::ClearCurrentCanvas,
        }
    }
}

/// The navigation items the sidebar shows, in order.
pub fn visible_nav_items() -> (r: &'static [SidebarNavItem])
    ensures
        r@ == nav_items_spec(),
{
    let r: &'static [SidebarNavItem] = &NAV_ITEMS;
    assert(r@ =~= nav_items_spec());
    r
}

/// The action of the navigation item at `idx`; `None` past the last item.
pub fn sidebar_nav_item_action(idx: usize) -> (r: Option<UiAction>)
    ensures
        r == nav_action_spec(idx as int),
{
    let items = visible_nav_items();
    if idx < items.len() {
        Some(items[idx].action())
    } else {
        None
    }
}

} // verus!
