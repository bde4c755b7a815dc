//! Torn-off windows: how one is opened, what happens when its dock area
//! changes or it is asked to close, and how the main window reacts to its
//! dock area's events.

use vstd::prelude::*;
use crate::dock::zone::{AreaKind, DockPlacement, PanelZone};
use crate::dock::drag::DragModel;

verus! {

/// Width of a newly opened detached window, in logical pixels.
pub const DETACHED_WIDTH: u32 = 420;
/// Height of a newly opened detached window.
pub const DETACHED_HEIGHT: u32 = 320;

/// How to open a detached window for a panel of some zone.
#[derive(Clone, Copy, PartialEq, Eq, Structural, Debug)]
pub struct DetachedPlan {
    /// The kind of the window's dock area.
    pub kind: AreaKind,
    /// Where the window's panels go back to when it is closed.
    pub home: DockPlacement,
    /// The number that names the window's dock area (`detached-<id>`).
    pub id: usize,
    /// Open it under the pointer (otherwise centred).
    pub at_cursor: bool,
    /// The panel is inserted right away; the window is shown, focused and
    /// counts as adopted. A window opened without the panel is a hidden spare.
    pub insert: bool,
}

/// Where the panels of a closing detached window go.
pub struct Rehome {
    pub window: u64,
    pub area: u64,
    pub placement: DockPlacement,
    pub panels: Vec<u64>,
}

/// An event of a dock area.
#[derive(Clone, Copy, PartialEq, Eq, Structural, Debug)]
pub enum AreaEvent {
    LayoutChanged,
    DragDrop,
}

/// What a detached window does on an event of its dock area.
#[derive(Clone, Copy, PartialEq, Eq, Structural, Debug)]
pub enum DetachedAction {
    /// Close the window (after the current update).
    Close,
    /// Carry the drop out.
    Drop,
    Ignore,
}

/// What the main window does on an event of its dock area.
#[derive(Clone, Copy, PartialEq, Eq, Structural, Debug)]
pub enum MainAction {
    /// Bring the empty-region bookkeeping up to date.
    SyncEmptyRegions,
    /// Carry the drop out.
    Drop,
    Ignore,
}

/// The region a panel of `zone` returns to in the main window.
pub open spec fn spec_home(zone: PanelZone) -> DockPlacement {
    match zone {
        PanelZone::Canvas => DockPlacement::Center,
        PanelZone::Dock => DockPlacement::Left,
    }
}

pub fn home_placement(zone: PanelZone) -> (r: DockPlacement)
    ensures
        r == spec_home(zone),
{
    match zone {
        PanelZone::Canvas => DockPlacement::Center,
        PanelZone::Dock => DockPlacement::Left,
    }
}

impl DragModel {
    /// Plans a detached window for a panel of `zone`, taking the next window
    /// number. `has_origin` says whether a pointer position was given;
    /// `insert` whether the panel goes in right away.
    pub fn open_detached(&mut self, zone: PanelZone, has_origin: bool, insert: bool) -> (r: DetachedPlan)
        requires
            old(self).next_window_id < usize::MAX,
        ensures
            r == (DetachedPlan {
                kind: AreaKind::Detached(zone),
                home: spec_home(zone),
                id: old(self).next_window_id,
                at_cursor: has_origin && insert,
                insert,
            }),
            *final(self) == (DragModel { next_window_id: (old(self).next_window_id + 1) as usize, ..*old(self) }),
            old(self).wf() ==> final(self).wf(),
    {
        let id = self.next_window_id;
        self.next_window_id = id + 1;
        DetachedPlan {
            kind: AreaKind::Detached(zone),
            home: home_placement(zone),
            id,
            at_cursor: has_origin && insert,
            insert,
        }
    }

    /// A detached window of `zone` is asked to close, holding `panels` in its
    /// centre; `main_alive` says whether the main dock area still exists. The
    /// window always closes; its panels go back to the main window where there
    /// is one.
    pub fn close_detached(&self, zone: PanelZone, main_alive: bool, panels: Vec<u64>) -> (r: Option<Rehome>)
        ensures
            match (self.main_area, self.main_window) {
                (Some(area), Some(window)) => if main_alive && panels@.len() > 0 {
                    r matches Some(h) && h.window == window && h.area == area
                        && h.placement == spec_home(zone) && h.panels@ == panels@
                } else {
                    r is None
                },
                _ => r is None,
            },
    {
        let area = match self.main_area {
            Some(area) => area,
            None => return None,
        };
        if !main_alive {
            return None;
        }
        let window = match self.main_window {
            Some(window) => window,
            None => return None,
        };
        if panels.len() == 0 {
            return None;
        }
        Some(Rehome { window, area, placement: home_placement(zone), panels })
    }
}

/// A detached window's reaction to `event` of its dock area: once adopted, it
/// closes when its centre has emptied; it carries drops out unless a window
/// is being carried (that drop is a merge, handled when the drag ends).
pub fn detached_area_event(event: AreaEvent, adopted: bool, center_empty: bool, window_drag_active: bool) -> (r: DetachedAction)
    ensures
        r == (match event {
            AreaEvent::LayoutChanged => if adopted && center_empty { DetachedAction::Close } else { DetachedAction::Ignore },
            AreaEvent::DragDrop => if window_drag_active { DetachedAction::Ignore } else { DetachedAction::Drop },
        }),
{
    match event {
        AreaEvent::LayoutChanged => if adopted && center_empty { DetachedAction::Close } else { DetachedAction::Ignore },
        AreaEvent::DragDrop => if window_drag_active { DetachedAction::Ignore } else { DetachedAction::Drop },
    }
}

/// The main window's reaction to `event` of its dock area.
pub fn main_area_event(event: AreaEvent, window_drag_active: bool) -> (r: MainAction)
    ensures
        r == (match event {
            AreaEvent::LayoutChanged => MainAction::SyncEmptyRegions,
            AreaEvent::DragDrop => if window_drag_active { MainAction::Ignore } else { MainAction::Drop },
        }),
{
    match event {
        AreaEvent::LayoutChanged => MainAction::SyncEmptyRegions,
        AreaEvent::DragDrop => if window_drag_active { MainAction::Ignore } else { MainAction::Drop },
    }
}

} // verus!
