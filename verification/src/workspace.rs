//! The main window's starting layout: which panels there are and where they
//! sit.

use vstd::prelude::*;
use crate::dock::zone::PanelZone;
use crate::panels::{PanelKind, spec_panel_name};
use crate::platform::Platform;

verus! {

/// The window title.
pub const WINDOW_TITLE: &'static str = "Ciart Studio";

/// Height of the titlebar the application draws, in logical pixels.
pub const TITLEBAR_HEIGHT: u32 = 38;
/// Height of the status bar.
pub const STATUS_BAR_HEIGHT: u32 = 30;
/// The status bar's text.
pub const STATUS_TEXT: &'static str = "Size: 128, 128 - Cursor: 13, 29";

/// Whether the main window draws its own titlebar: everywhere but on macOS,
/// whose native titlebar (with the dock buttons in it) is kept.
pub fn draws_titlebar(platform: Platform) -> (r: bool)
    ensures
        r == (platform != Platform::MacOs),
{
    platform != Platform::MacOs
}

/// A dockable panel: what it shows, its tab title and its zone.
#[derive(Clone, Copy, Debug)]
pub struct DockPanel {
    pub kind: PanelKind,
    pub title: &'static str,
    pub zone: PanelZone,
}

impl DockPanel {
    pub fn new(kind: PanelKind, title: &'static str, zone: PanelZone) -> (r: Self)
        ensures
            r.kind == kind,
            r.title == title,
            r.zone == zone,
    {
        DockPanel { kind, title, zone }
    }

    /// The name that identifies the panel in a layout: its kind's name.
    pub fn panel_name(&self) -> (r: &'static str)
        ensures
            r == spec_panel_name(self.kind),
    {
        self.kind.name()
    }
}

/// The starting layout: one tab group in the centre and in each side dock,
/// the right dock split top and bottom; sizes in logical pixels (the top of
/// the right dock sized, its bottom taking the rest).
#[derive(Clone, Copy, Debug)]
pub struct WorkspaceLayout {
    pub center: DockPanel,
    pub left: DockPanel,
    pub left_size: u32,
    pub right_top: DockPanel,
    pub right_top_size: u32,
    pub right_bottom: DockPanel,
    pub right_size: u32,
    pub bottom: DockPanel,
    pub bottom_size: u32,
}

/// The canvas in the centre; the project on the left; the colour picker over
/// the palette on the right; the timeline at the bottom.
pub fn initial_layout() -> (r: WorkspaceLayout)
    ensures
        r.center.kind == PanelKind::Canvas && r.center.title == "Hello" && r.center.zone == PanelZone::Canvas,
        r.left.kind == PanelKind::Project && r.left.title == "Project" && r.left.zone == PanelZone::Dock,
        r.left_size == 300,
        r.right_top.kind == PanelKind::ColorPicker && r.right_top.title == "Color Picker" && r.right_top.zone == PanelZone::Dock,
        r.right_top_size == 320,
        r.right_bottom.kind == PanelKind::Palette && r.right_bottom.title == "Palette" && r.right_bottom.zone == PanelZone::Dock,
        r.right_size == 300,
        r.bottom.kind == PanelKind::Timeline && r.bottom.title == "Timeline" && r.bottom.zone == PanelZone::Dock,
        r.bottom_size == 245,
{
    WorkspaceLayout {
        center: DockPanel::new(PanelKind::Canvas, "Hello", PanelZone::Canvas),
        left: DockPanel::new(PanelKind::Project, "Project", PanelZone::Dock),
        left_size: 300,
        right_top: DockPanel::new(PanelKind::ColorPicker, "Color Picker", PanelZone::Dock),
        right_top_size: 320,
        right_bottom: DockPanel::new(PanelKind::Palette, "Palette", PanelZone::Dock),
        right_size: 300,
        bottom: DockPanel::new(PanelKind::Timeline, "Timeline", PanelZone::Dock),
        bottom_size: 245,
    }
}

} // verus!
