//! Where a dropped panel goes: the planning half of a drop. The shell performs
//! the plan on the real dock areas.

use vstd::prelude::*;
use crate::dock::zone::{AreaKind, DockPlacement, PanelZone, Placement, drop_allowed, spec_drop_allowed};
use crate::dock::layout::AreaSnapshot;

verus! {

/// The torn-off window that holds a dragged panel, and its dock area.
#[derive(Clone, Copy, PartialEq, Eq, Structural, Debug)]
pub struct Host {
    pub window: u64,
    pub area: u64,
}

/// What a tab drag carries: the panel, the group and area it was taken from,
/// the window it started in, its zone, the torn-off window that now holds it
/// (if any), and whether it has already landed somewhere.
#[derive(Clone, Copy, PartialEq, Eq, Structural, Debug)]
pub struct PanelDrag {
    pub panel: u64,
    pub source: Option<u64>,
    pub source_area: u64,
    pub source_window: u64,
    pub zone: Option<PanelZone>,
    /// The detached window the panel was torn into.
    pub detached: Option<Host>,
    pub landed: bool,
}

/// Where inside an area a panel is put: beside a group (a split on the given
/// side, default size) or into a group's tabs (appended and activated).
#[derive(Clone, Copy, PartialEq, Eq, Structural, Debug)]
pub enum InsertTarget {
    Split { node: u64, placement: Placement },
    Tabs { node: u64 },
}

/// What to do with the dock areas to carry a drop out.
#[derive(Clone, Copy, PartialEq, Eq, Structural, Debug)]
pub enum Transfer {
    /// Leave everything as it is.
    Nothing,
    /// The panel stays in its area and is moved to the target.
    Rearrange(InsertTarget),
    /// The panel leaves `from_area` (shown in `from_window`, which is the
    /// current window when `here`), is added to `region` of the target area,
    /// and is then moved to `then` where given.
    Relocate { from_area: u64, from_window: u64, here: bool, region: DockPlacement, then: Option<InsertTarget> },
}

/// The area that currently holds the dragged panel: the detached window's
/// area once it was torn off, its source area before.
pub open spec fn spec_living_source(drag: PanelDrag) -> u64 {
    match drag.detached {
        Some(host) => host.area,
        None => drag.source_area,
    }
}

/// The window that currently shows the dragged panel.
pub open spec fn spec_living_window(drag: PanelDrag) -> u64 {
    match drag.detached {
        Some(host) => host.window,
        None => drag.source_window,
    }
}

pub fn living_source(drag: &PanelDrag) -> (r: u64)
    ensures
        r == spec_living_source(*drag),
{
    match drag.detached {
        Some(host) => host.area,
        None => drag.source_area,
    }
}

/// The transfer that a drop of `drag` into `target_area` leads to. A drag
/// lands once: a drag that has landed transfers nothing more.
pub open spec fn spec_transfer(
    drag: PanelDrag,
    target_area: u64,
    region: DockPlacement,
    target: Option<InsertTarget>,
    current_window: u64,
) -> Transfer {
    if drag.landed {
        Transfer::Nothing
    } else if spec_living_source(drag) == target_area {
        match target {
            Some(t) => Transfer::Rearrange(t),
            None => Transfer::Nothing,
        }
    } else {
        Transfer::Relocate {
            from_area: spec_living_source(drag),
            from_window: spec_living_window(drag),
            here: spec_living_window(drag) == current_window,
            region,
            then: target,
        }
    }
}

/// Plans moving the dragged panel into `region` of `target_area` (and on to
/// `target`), and marks the drag as landed.
pub fn transfer_panel(
    drag: &mut PanelDrag,
    target_area: u64,
    region: DockPlacement,
    target: Option<InsertTarget>,
    current_window: u64,
) -> (r: Transfer)
    ensures
        r == spec_transfer(*old(drag), target_area, region, target, current_window),
        *final(drag) == (PanelDrag { landed: true, ..*old(drag) }),
{
    if drag.landed {
        return Transfer::Nothing;
    }
    drag.landed = true;
    let source_area = living_source(drag);
    let source_window = match drag.detached {
        Some(host) => host.window,
        None => drag.source_window,
    };
    if source_area == target_area {
        return match target {
            Some(t) => Transfer::Rearrange(t),
            None => Transfer::Nothing,
        };
    }
    Transfer::Relocate {
        from_area: source_area,
        from_window: source_window,
        here: source_window == current_window,
        region,
        then: target,
    }
}

/// The insert target for a drop on group `node`: a split on the given side,
/// or the group's tabs.
pub open spec fn spec_insert_target(node: u64, placement: Option<Placement>) -> InsertTarget {
    match placement {
        Some(p) => InsertTarget::Split { node, placement: p },
        None => InsertTarget::Tabs { node },
    }
}

/// Whether a drop on group `node` would put the panel back where it is: the
/// group it came from, in the area that holds it, onto its tabs or into a
/// group of at most one panel.
pub open spec fn spec_drop_is_noop(area: AreaSnapshot, drag: PanelDrag, node: u64, placement: Option<Placement>) -> bool {
    &&& drag.source == Some(node)
    &&& spec_living_source(drag) == area.id
    &&& (placement is None || (match area.spec_group_len(node) {
        Some(len) => len <= 1,
        None => true,
    }))
}

/// Where a drop on group `node` (on its tabs, or at a side when `placement`
/// is given) puts the panel: the region holding the group and the insert
/// target, or `None` when the drop is refused or changes nothing.
pub open spec fn spec_drop_destination(
    kind: AreaKind,
    area: AreaSnapshot,
    drag: PanelDrag,
    node: u64,
    placement: Option<Placement>,
) -> Option<(DockPlacement, InsertTarget)> {
    if spec_drop_is_noop(area, drag, node, placement) {
        None
    } else {
        match area.spec_placement_of(node) {
            Some(region) => if spec_drop_allowed(kind, drag.zone, region) {
                Some((region, spec_insert_target(node, placement)))
            } else {
                None
            },
            None => None,
        }
    }
}

/// Decides a drop of `drag` on group `node` of `area` (of the given kind),
/// and plans the transfer it leads to.
pub fn apply_drop_in(
    kind: AreaKind,
    area: &AreaSnapshot,
    drag: &mut PanelDrag,
    node: u64,
    placement: Option<Placement>,
    current_window: u64,
) -> (r: Transfer)
    ensures
        match spec_drop_destination(kind, *area, *old(drag), node, placement) {
            Some((region, target)) => {
                &&& r == spec_transfer(*old(drag), area.id, region, Some(target), current_window)
                &&& *final(drag) == (PanelDrag { landed: true, ..*old(drag) })
            },
            None => r == Transfer::Nothing && *final(drag) == *old(drag),
        },
{
    let same_group = match drag.source {
        Some(source) => source == node,
        None => false,
    };
    if same_group && living_source(drag) == area.id {
        let len = match area.group_len(node) {
            Some(len) => len,
            None => 0,
        };
        if placement.is_none() || len <= 1 {
            return Transfer::Nothing;
        }
    }
    let region = match area.placement_of(node) {
        Some(region) => region,
        None => return Transfer::Nothing,
    };
    if !drop_allowed(kind, drag.zone, region) {
        return Transfer::Nothing;
    }
    let target = match placement {
        Some(p) => InsertTarget::Split { node, placement: p },
        None => InsertTarget::Tabs { node },
    };
    transfer_panel(drag, area.id, region, Some(target), current_window)
}

/// A drop on a group of the main window's dock area.
pub fn apply_drop(
    area: &AreaSnapshot,
    drag: &mut PanelDrag,
    node: u64,
    placement: Option<Placement>,
    current_window: u64,
) -> (r: Transfer)
    ensures
        match spec_drop_destination(AreaKind::Main, *area, *old(drag), node, placement) {
            Some((region, target)) => {
                &&& r == spec_transfer(*old(drag), area.id, region, Some(target), current_window)
                &&& *final(drag) == (PanelDrag { landed: true, ..*old(drag) })
            },
            None => r == Transfer::Nothing && *final(drag) == *old(drag),
        },
{
    apply_drop_in(AreaKind::Main, area, drag, node, placement, current_window)
}

/// Every drop that goes ahead puts the panel into the region that holds the
/// target group, and only into a region that the drop rule allows for the
/// panel's zone.
pub proof fn lemma_drop_respects_zones(
    kind: AreaKind,
    area: AreaSnapshot,
    drag: PanelDrag,
    node: u64,
    placement: Option<Placement>,
)
    ensures
        spec_drop_destination(kind, area, drag, node, placement) matches Some((region, _)) ==> {
            &&& area.spec_placement_of(node) == Some(region)
            &&& spec_drop_allowed(kind, drag.zone, region)
        },
{
}

/// In the main window a canvas panel only ever lands in the centre and a dock
/// panel never does.
pub proof fn lemma_main_area_zones(area: AreaSnapshot, drag: PanelDrag, node: u64, placement: Option<Placement>)
    ensures
        spec_drop_destination(AreaKind::Main, area, drag, node, placement) matches Some((region, _)) ==> {
            &&& drag.zone == Some(PanelZone::Canvas) ==> region == DockPlacement::Center
            &&& drag.zone == Some(PanelZone::Dock) ==> region != DockPlacement::Center
            &&& drag.zone is Some
        },
{
}

/// Dropping a tab back onto the tabs of the group it came from, in the area
/// that holds it, changes nothing.
pub proof fn lemma_drop_on_own_tabs_is_noop(kind: AreaKind, area: AreaSnapshot, drag: PanelDrag, node: u64)
    requires
        drag.source == Some(node),
        spec_living_source(drag) == area.id,
    ensures
        spec_drop_destination(kind, area, drag, node, None) is None,
{
}

/// A drag lands once: after a transfer has been planned for it, every further
/// transfer plan for it is empty.
pub proof fn lemma_lands_once(
    drag: PanelDrag,
    area: u64,
    region: DockPlacement,
    target: Option<InsertTarget>,
    window: u64,
)
    ensures
        spec_transfer(PanelDrag { landed: true, ..drag }, area, region, target, window) == Transfer::Nothing,
{
}

/// A drop that goes ahead puts the panel exactly where it was aimed: beside
/// the group on the side it was dropped at, or into the group's tabs when no
/// side was given. In a region that takes the panel, a drop always goes ahead
/// on a group other than the one the panel came from, on a group of another
/// area, and at a side of a group of several panels.
pub proof fn lemma_drop_goes_where_aimed(
    kind: AreaKind,
    area: AreaSnapshot,
    drag: PanelDrag,
    node: u64,
    placement: Option<Placement>,
)
    ensures
        spec_drop_destination(kind, area, drag, node, placement) matches Some((_, t)) ==> {
            &&& placement matches Some(p) ==> t == (InsertTarget::Split { node, placement: p })
            &&& placement is None ==> t == (InsertTarget::Tabs { node })
        },
        (area.spec_placement_of(node) matches Some(region)
            && spec_drop_allowed(kind, drag.zone, region) && drag.source != Some(node))
            ==> spec_drop_destination(kind, area, drag, node, placement) is Some,
        (area.spec_placement_of(node) matches Some(region)
            && spec_drop_allowed(kind, drag.zone, region) && spec_living_source(drag) != area.id)
            ==> spec_drop_destination(kind, area, drag, node, placement) is Some,
        (area.spec_placement_of(node) matches Some(region)
            && spec_drop_allowed(kind, drag.zone, region) && placement is Some
            && area.spec_group_len(node) is Some && area.spec_group_len(node)->0 > 1)
            ==> spec_drop_destination(kind, area, drag, node, placement) is Some,
{
}

} // verus!
