//! What a widget asks the application to do after an input event.
use vstd::prelude::*;

verus! {

/// An action produced by a widget in answer to a click.
#[derive(Clone, Debug, PartialEq, Eq, Structural)]
pub enum UiAction {
    Consume,
    NewTab,
    SelectTab(usize),
    CloseTab(usize),
    StartWindowDrag,
    ToggleWindowMaximize,
    ToggleWindowFullscreen,
    MinimizeWindow,
    CloseWindow,
    ToggleVsync,
    ToggleGraphicsBackend,
    ToggleDebugSlotBackdrop,
    OpenCanvasImportDialog,
    OpenCacheFolder,
    ClearCurrentCanvas,
    OpenEmptySlotFillDialog(u64),
    MoveSlotToTrash(u64),
    ShowInExplorer(u64),
    OpenWallpaperDialog,
    OpenSavedWallpaper(u64),
    WallpaperPreviewToggleBlur,
    WallpaperPreviewApply,
    WallpaperPreviewCancel,
}

} // verus!
