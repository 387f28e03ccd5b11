//! When the full-window wallpaper has to be laid out again.
use vstd::prelude::*;

use crate::surface::SurfaceSize;

verus! {

/// Whether the wallpaper's cover-mode quad must be recomputed: the wallpaper
/// is shown, the surface and the image are non-empty, and the surface size
/// differs from the one last laid out for.
pub fn wallpaper_layout_due(
    enabled: bool,
    surface_size: SurfaceSize,
    image_width: u32,
    image_height: u32,
    last_surface_width: u32,
    last_surface_height: u32,
) -> (r: bool)
    ensures
        r == (enabled && surface_size.width != 0 && surface_size.height != 0 && image_width != 0
            && image_height != 0 && !(last_surface_width == surface_size.width
            && last_surface_height == surface_size.height)),
{
    if !enabled {
        return false;
    }
    if surface_size.width == 0 || surface_size.height == 0 {
        return false;
    }
    if image_width == 0 || image_height == 0 {
        return false;
    }
    !(last_surface_width == surface_size.width && last_surface_height == surface_size.height)
}

} // verus!
