//! The workspace palette. Opaque colours are `0xRRGGBB`; translucent ones
//! (text, hairlines, highlights) are `0xRRGGBBAA`.

use vstd::prelude::*;

verus! {

/// Behind everything: window background and the gaps between groups.
pub const BACKDROP: u32 = 0x000000;
/// The canvas panel and centre tab groups.
pub const CANVAS: u32 = 0x1e1e1e;
/// Side-dock panels and their headers.
pub const PANEL: u32 = 0x262626;
/// The timeline's track area.
pub const TRACK: u32 = 0x1b1b1b;
/// The drag chip's body.
pub const SURFACE: u32 = 0x2e2e2e;
/// Highlights: the current frame, the play head, the chip outline.
pub const ACCENT: u32 = 0x3d8bfd;
/// Frame chips of the timeline that are not current.
pub const CHIP: u32 = 0x4a4a4a;
/// Where a drop would land.
pub const DROP_TARGET: u32 = 0x3d8bfd40;
pub const TEXT: u32 = 0xffffffe6;
pub const MUTED: u32 = 0xffffff80;
pub const HAIRLINE: u32 = 0xffffff1a;
pub const OUTLINE: u32 = 0xffffff33;

} // verus!
