# nenarwia interface logic

The interface of the nenarwia image-wall viewer (title bar with tabs,
sliding sidebar, slot context menu, missing-codec notice, wallpaper preview
dialog), with its layout, interaction state machines, text building and
integer pixel operations written in Verus and proved against their
contracts.

- `src/` — the verified library (crate `nenarwia`):
  - `chrome/` title bar: window-button layout, visible-tab selection, tab
    strip layout, press/release/hover state;
  - `sidebar/` navigation items, panel and recent-wallpaper grid layout,
    click/hover state, the memory figures of the "Clear Canvas" item;
  - `context_menu/`, `notice/`, `wallpaper_preview/` the other widgets'
    layout and state;
  - `pixels.rs` rectangle fills and copies on RGBA buffers, `text.rs`
    decimal digits, `font.rs` font choice per character and font paths.
- `tests/` — tests of the library.
- `app/` — the GPU side (wgpu quads, glyph rasterising with ab_glyph,
  anti-aliased painting, animations, font loading), which works in floating
  point or does I/O, around the library.
