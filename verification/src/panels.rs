//! The workspace's panels: their kinds, names and backgrounds, and the state
//! of the canvas panel.

use vstd::prelude::*;
use crate::theme::{CANVAS, PANEL, TRACK};
use crate::text::{push_decimal, spec_decimal};

verus! {

pub const PROJECT: &'static str = "Project";
pub const CANVAS_PANEL: &'static str = "Canvas";
pub const TIMELINE: &'static str = "Timeline";
pub const COLOR_PICKER: &'static str = "ColorPicker";
pub const PALETTE: &'static str = "Palette";

#[derive(Clone, Copy, PartialEq, Eq, Structural, Debug)]
pub enum PanelKind {
    Project,
    Canvas,
    Timeline,
    ColorPicker,
    Palette,
}

pub open spec fn spec_panel_name(kind: PanelKind) -> &'static str {
    match kind {
        PanelKind::Project => PROJECT,
        PanelKind::Canvas => CANVAS_PANEL,
        PanelKind::Timeline => TIMELINE,
        PanelKind::ColorPicker => COLOR_PICKER,
        PanelKind::Palette => PALETTE,
    }
}

impl PanelKind {
    /// The panel's background: the canvas colour for the canvas, the track
    /// colour for the timeline, the panel colour for the rest.
    pub fn background(self) -> (r: u32)
        ensures
            r == (match self {
                PanelKind::Canvas => CANVAS,
                PanelKind::Timeline => TRACK,
                _ => PANEL,
            }),
    {
        match self {
            PanelKind::Canvas => CANVAS,
            PanelKind::Timeline => TRACK,
            _ => PANEL,
        }
    }

    /// The panel's name, which identifies it in a layout.
    pub fn name(self) -> (r: &'static str)
        ensures
            r == spec_panel_name(self),
    {
        match self {
            PanelKind::Project => PROJECT,
            PanelKind::Canvas => CANVAS_PANEL,
            PanelKind::Timeline => TIMELINE,
            PanelKind::ColorPicker => COLOR_PICKER,
            PanelKind::Palette => PALETTE,
        }
    }
}

/// No two kinds of panel share a name.
pub proof fn lemma_panel_names_distinct(a: PanelKind, b: PanelKind)
    requires
        a != b,
    ensures
        spec_panel_name(a)@ != spec_panel_name(b)@,
{
    reveal_strlit("Project");
    reveal_strlit("Canvas");
    reveal_strlit("Timeline");
    reveal_strlit("ColorPicker");
    reveal_strlit("Palette");
    let x = spec_panel_name(a)@;
    let y = spec_panel_name(b)@;
    if x == y {
        assert(x.len() == y.len());
        assert(x[1] == y[1]);
    }
}

/// The zoom steps of the canvas, in percent.
pub open spec fn zoom_steps() -> Seq<u32> {
    seq![50, 100, 200, 400, 800]
}

/// The zoom after `zoom`: the first step above it, or back to the first step.
pub open spec fn spec_next_zoom(zoom: u32) -> u32 {
    if zoom < 50 { 50 } else if zoom < 100 { 100 } else if zoom < 200 { 200 } else if zoom < 400 { 400 }
    else if zoom < 800 { 800 } else { 50 }
}

/// The canvas panel's state: its zoom (in percent) and whether playback runs.
#[derive(Clone, Copy, PartialEq, Eq, Structural, Debug)]
pub struct CanvasPanel {
    pub zoom: u32,
    pub playing: bool,
}

/// Side of the sprite at 100 %, in logical pixels.
pub const SPRITE_SIZE: u32 = 256;

impl CanvasPanel {
    /// At 100 %, paused.
    pub fn new() -> (r: Self)
        ensures
            r == (CanvasPanel { zoom: 100, playing: false }),
    {
        CanvasPanel { zoom: 100, playing: false }
    }

    pub fn toggle_play(&mut self)
        ensures
            *final(self) == (CanvasPanel { playing: !old(self).playing, ..*old(self) }),
    {
        self.playing = !self.playing;
    }

    /// Moves to the next zoom step, wrapping round after the last.
    pub fn cycle_zoom(&mut self)
        ensures
            *final(self) == (CanvasPanel { zoom: spec_next_zoom(old(self).zoom), ..*old(self) }),
    {
        let steps: [u32; 5] = [50, 100, 200, 400, 800];
        let mut i: usize = 0;
        while i < 5 && steps[i] <= self.zoom
            invariant
                0 <= i <= 5,
                steps@ == zoom_steps(),
                forall|j: int| 0 <= j < i ==> steps@[j] <= self.zoom,
            decreases 5 - i,
        {
            i = i + 1;
        }
        let next = if i < 5 { steps[i] } else { steps[0] };
        assert(next == spec_next_zoom(self.zoom)) by {
            if i < 5 {
                assert(steps@[i as int] > self.zoom);
            }
            if i > 0 {
                assert(steps@[i - 1] <= self.zoom);
            }
        }
        self.zoom = next;
    }

    /// The side of the sprite on screen at the current zoom.
    pub fn sprite_size(&self) -> (r: u64)
        ensures
            r as int == SPRITE_SIZE as int * self.zoom as int / 100,
    {
        SPRITE_SIZE as u64 * self.zoom as u64 / 100
    }

    /// The zoom as shown on the zoom button, such as `100%`.
    pub fn zoom_label(&self) -> (r: String)
        ensures
            r@ == spec_decimal(self.zoom as nat).push('%'),
    {
        proof { reveal_strlit("%"); }
        let mut s = String::new();
        push_decimal(&mut s, self.zoom as u64);
        s.append("%");
        assert(s@ =~= spec_decimal(self.zoom as nat).push('%'));
        s
    }
}

/// Cycling the zoom visits every step once and comes back: five steps from
/// any step lead to it again.
pub proof fn lemma_zoom_cycles(zoom: u32)
    requires
        zoom_steps().contains(zoom),
    ensures
        spec_next_zoom(spec_next_zoom(spec_next_zoom(spec_next_zoom(spec_next_zoom(zoom))))) == zoom,
        spec_next_zoom(zoom) != zoom,
{
}

} // verus!
