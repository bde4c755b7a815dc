# ciart_studio

The workspace of Ciart Studio, a pixel-art editor: a main window whose dock
area holds a canvas in the centre and tool panels in side docks, with tabs
that can be dragged between groups, torn off into windows of their own and
merged back.

`src/` is the verified core. It decides; it never touches a window:

- `dock::zone` — panel zones, area kinds, regions and the drop rule.
- `dock::layout` — a plain-value picture of a dock area's layout, and the
  queries the rules make of it (which region holds a node, how many tabs a
  group has, which panels sit in the centre).
- `dock::dropping` — where a dropped tab goes, and the transfer that carries
  it out (a drag lands once).
- `dock::target` — hit testing of a dragged window against the registered
  areas, the choice among several candidates, and the merge at drag end.
- `dock::drag` — the shared drag state machine: tear-off, masking of the
  carried window over a target, hand-off of the move to the platform, spare
  windows, and the end of a drag.
- `dock::skin`, `dock::windows`, `dock::chip` — decisions behind drawing a
  dock area, detached windows and the drag chip.
- `fullscreen`, `caption`, `toolbar`, `panels`, `workspace`, `assets`,
  `color`, `text`, `resource`, `theme`, `platform` — the titlebar
  bookkeeping, caption buttons, macOS dock buttons, panel kinds and the canvas
  state, the starting layout, bundled files, colour flattening for GDI,
  decimal/escaping helpers, and the Windows resource script.

`app/` is the windowing shell around it (GPUI, Win32 and AppKit calls,
floating-point geometry, rendering). It asks the library what to do and does
it.
