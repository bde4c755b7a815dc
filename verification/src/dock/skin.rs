//! The decisions behind how a dock area is drawn and which drops its parts
//! take: empty-region bookkeeping, the zone of a tab group, the tab bar's
//! shape, the drag payload of a tab, and drops on empty regions.

use vstd::prelude::*;
use crate::dock::zone::{AreaKind, DockPlacement, PanelZone, Placement, drop_allowed, spec_drop_allowed};
use crate::dock::layout::{AreaSnapshot, DockRegion};
use crate::dock::dropping::{Host, InsertTarget, PanelDrag, Transfer, living_source, spec_living_source, spec_transfer, transfer_panel};
use crate::dock::target::{MergeSpot, MergeTarget, spot_eq};
use crate::dock::drag::DragModel;
use crate::panels::PanelKind;
use crate::theme::{BACKDROP, CANVAS, PANEL};

verus! {

/// Height of a tab bar, in logical pixels.
pub const TAB_HEIGHT: u32 = 28;
/// Height of a tab bar that is also a window's titlebar.
pub const TITLEBAR_HEIGHT: u32 = 34;
/// Room left at the start of a titlebar for the window buttons.
pub const TRAFFIC_LIGHT_PAD: u32 = 80;
/// Start padding of a tab bar in a side dock.
pub const DOCK_TAB_PAD: u32 = 12;

/// What a dock area's renderer keeps between frames.
pub struct DockSkin {
    pub kind: AreaKind,
    pub window: u64,
    pub area: u64,
    /// The side docks that are open and hold no panel.
    pub empty_docks: Vec<DockPlacement>,
    /// The root of the centre's layout while the centre holds no panel.
    pub empty_center_root: Option<u64>,
}

/// How a side dock is drawn.
#[derive(Clone, Copy, PartialEq, Eq, Structural, Debug)]
pub enum DockView {
    /// Closed: nothing is drawn.
    Hidden,
    /// Open and empty: a drop hint is drawn.
    Empty,
    /// Open with panels.
    Content,
}

/// The shape of a tab bar.
#[derive(Clone, Copy, PartialEq, Eq, Structural, Debug)]
pub struct TabBarPlan {
    /// The group is in a side dock (drawn as a panel header).
    pub in_dock: bool,
    /// The bar is the window's titlebar (the area is detached).
    pub in_titlebar: bool,
    /// The window holds this one panel only: dragging its tab drags the window.
    pub single_window_panel: bool,
    /// A dragged window would merge into these tabs.
    pub merging: bool,
    pub height: u32,
    pub left_pad: u32,
}

pub open spec fn dock_empty(region: DockRegion) -> bool {
    region.open && region.empty
}

/// The side docks that are open and empty, in the order left, right, bottom.
pub open spec fn spec_empty_docks(area: AreaSnapshot) -> Seq<DockPlacement> {
    (if dock_empty(area.left) { seq![DockPlacement::Left] } else { Seq::empty() })
    + (if dock_empty(area.right) { seq![DockPlacement::Right] } else { Seq::empty() })
    + (if dock_empty(area.bottom) { seq![DockPlacement::Bottom] } else { Seq::empty() })
}

/// The centre's root while the centre is empty.
pub open spec fn spec_empty_center_root(area: AreaSnapshot) -> Option<u64> {
    if area.center.empty {
        match area.center.layout {
            Some(layout) => Some(layout.root),
            None => None,
        }
    } else {
        None
    }
}

/// Whether cached bounds of `placement` still belong to an empty region.
pub open spec fn still_empty(placement: DockPlacement, docks: Seq<DockPlacement>, center_root: Option<u64>) -> bool {
    match placement {
        DockPlacement::Center => center_root is Some,
        p => docks.contains(p),
    }
}

/// The cached bounds kept: those of regions still empty, in order.
pub open spec fn keep_empty<B>(cache: Seq<(DockPlacement, B)>, docks: Seq<DockPlacement>, center_root: Option<u64>) -> Seq<(DockPlacement, B)>
    decreases cache.len(),
{
    if cache.len() == 0 {
        Seq::empty()
    } else {
        let rest = keep_empty(cache.drop_last(), docks, center_root);
        if still_empty(cache.last().0, docks, center_root) {
            rest.push(cache.last())
        } else {
            rest
        }
    }
}

/// The cached bounds that are not of `placement`, in order.
pub open spec fn drop_placement<B>(cache: Seq<(DockPlacement, B)>, placement: DockPlacement) -> Seq<(DockPlacement, B)>
    decreases cache.len(),
{
    if cache.len() == 0 {
        Seq::empty()
    } else {
        let rest = drop_placement(cache.drop_last(), placement);
        if cache.last().0 != placement {
            rest.push(cache.last())
        } else {
            rest
        }
    }
}

/// The zone a tab group of area `node` belongs to: a detached area's own
/// zone; in the main area the canvas for the centre and for a node found in
/// no region (or an area gone), the docks for the side regions.
pub open spec fn spec_group_zone(kind: AreaKind, area: Option<AreaSnapshot>, node: u64) -> PanelZone {
    match kind {
        AreaKind::Detached(zone) => zone,
        AreaKind::Main => match area {
            Some(a) => match a.spec_placement_of(node) {
                Some(DockPlacement::Center) => PanelZone::Canvas,
                Some(_) => PanelZone::Dock,
                None => PanelZone::Canvas,
            },
            None => PanelZone::Canvas,
        },
    }
}

pub fn contains_placement(docks: &Vec<DockPlacement>, p: DockPlacement) -> (r: bool)
    ensures
        r == docks@.contains(p),
{
    let mut i: usize = 0;
    while i < docks.len()
        invariant
            0 <= i <= docks@.len(),
            forall|j: int| 0 <= j < i ==> docks@[j] != p,
        decreases docks@.len() - i,
    {
        if docks[i] == p {
            assert(docks@[i as int] == p);
            return true;
        }
        i = i + 1;
    }
    false
}

/// Records the bounds `b` of the empty region `placement` for hit testing:
/// earlier bounds of that placement are dropped and the new ones appended.
pub fn record_empty_dock_bounds<B>(cache: &mut Vec<(DockPlacement, B)>, placement: DockPlacement, b: B)
    ensures
        final(cache)@ == drop_placement(old(cache)@, placement).push((placement, b)),
{
    let mut rest: Vec<(DockPlacement, B)> = Vec::new();
    std::mem::swap(&mut rest, cache);
    let ghost all = rest@;
    let total: usize = rest.len();
    assert(all.len() == total);
    let mut kept: Vec<(DockPlacement, B)> = Vec::new();
    let mut k: usize = 0;
    assert(all.take(0) =~= Seq::<(DockPlacement, B)>::empty());
    assert(all.skip(0) =~= all);
    while rest.len() > 0
        invariant
            0 <= k <= all.len(),
            all.len() <= usize::MAX,
            rest@ == all.skip(k as int),
            kept@ == drop_placement(all.take(k as int), placement),
        decreases rest@.len(),
    {
        let e = rest.remove(0);
        assert(all.take(k + 1).drop_last() =~= all.take(k as int));
        assert(all.take(k + 1).last() == e);
        assert(all.skip(k + 1) =~= all.skip(k as int).drop_first());
        if e.0 != placement {
            kept.push(e);
        }
        k = k + 1;
    }
    assert(all.take(k as int) =~= all);
    kept.push((placement, b));
    *cache = kept;
}

/// Keeps the cached bounds of the regions that are still empty.
fn retain_empty<B>(cache: &mut Vec<(DockPlacement, B)>, docks: &Vec<DockPlacement>, center_root: Option<u64>)
    ensures
        final(cache)@ == keep_empty(old(cache)@, docks@, center_root),
{
    let mut rest: Vec<(DockPlacement, B)> = Vec::new();
    std::mem::swap(&mut rest, cache);
    let ghost all = rest@;
    let total: usize = rest.len();
    assert(all.len() == total);
    let mut kept: Vec<(DockPlacement, B)> = Vec::new();
    let mut k: usize = 0;
    assert(all.take(0) =~= Seq::<(DockPlacement, B)>::empty());
    assert(all.skip(0) =~= all);
    while rest.len() > 0
        invariant
            0 <= k <= all.len(),
            all.len() <= usize::MAX,
            rest@ == all.skip(k as int),
            kept@ == keep_empty(all.take(k as int), docks@, center_root),
        decreases rest@.len(),
    {
        let e = rest.remove(0);
        assert(all.take(k + 1).drop_last() =~= all.take(k as int));
        assert(all.take(k + 1).last() == e);
        assert(all.skip(k + 1) =~= all.skip(k as int).drop_first());
        let keep = match e.0 {
            DockPlacement::Center => center_root.is_some(),
            p => contains_placement(docks, p),
        };
        if keep {
            kept.push(e);
        }
        k = k + 1;
    }
    assert(all.take(k as int) =~= all);
    *cache = kept;
}

impl DockSkin {
    pub fn new(kind: AreaKind, window: u64, area: u64) -> (r: Self)
        ensures
            r.kind == kind,
            r.window == window,
            r.area == area,
            r.empty_docks@.len() == 0,
            r.empty_center_root is None,
    {
        DockSkin { kind, window, area, empty_docks: Vec::new(), empty_center_root: None }
    }
}

impl DockSkin {
    /// Whether a torn-off window is following the pointer (drops on this area
    /// are then left to the merge at the end of the drag).
    pub fn window_drag_active(&self, drag: &DragModel) -> (r: bool)
        ensures
            r == (drag.attached_window is Some),
    {
        drag.window_drag_active()
    }

    /// Brings the empty-region bookkeeping up to date with `area`, and drops
    /// the cached bounds of regions no longer empty.
    pub fn sync_empty_regions<B>(&mut self, area: &AreaSnapshot, cache: &mut Vec<(DockPlacement, B)>)
        ensures
            final(self).empty_docks@ == spec_empty_docks(*area),
            final(self).empty_center_root == spec_empty_center_root(*area),
            final(self).kind == old(self).kind,
            final(self).window == old(self).window,
            final(self).area == old(self).area,
            final(cache)@ == keep_empty(old(cache)@, spec_empty_docks(*area), spec_empty_center_root(*area)),
    {
        let mut docks: Vec<DockPlacement> = Vec::new();
        if area.left.open && area.left.empty {
            docks.push(DockPlacement::Left);
        }
        if area.right.open && area.right.empty {
            docks.push(DockPlacement::Right);
        }
        if area.bottom.open && area.bottom.empty {
            docks.push(DockPlacement::Bottom);
        }
        proof {
            let l: Seq<DockPlacement> = if dock_empty(area.left) { seq![DockPlacement::Left] } else { Seq::empty() };
            let r: Seq<DockPlacement> = if dock_empty(area.right) { seq![DockPlacement::Right] } else { Seq::empty() };
            let b: Seq<DockPlacement> = if dock_empty(area.bottom) { seq![DockPlacement::Bottom] } else { Seq::empty() };
            assert(docks@ =~= l + r + b);
        }
        let root = if area.center.empty {
            match &area.center.layout {
                Some(layout) => Some(layout.root),
                None => None,
            }
        } else {
            None
        };
        retain_empty(cache, &docks, root);
        self.empty_docks = docks;
        self.empty_center_root = root;
    }

    /// The spot of the merge target in this area, if the target is here.
    pub fn merge_spot(&self, target: &Option<MergeTarget>) -> (r: Option<MergeSpot>)
        ensures
            r == (match *target {
                Some(t) => if t.area == self.area { Some(t.spot) } else { None },
                None => None,
            }),
    {
        match target {
            Some(t) => if t.area == self.area { Some(t.spot) } else { None },
            None => None,
        }
    }

    /// The zone of the tab group `node` (`area` is this skin's area, `None`
    /// once it is gone).
    pub fn group_zone(&self, area: Option<&AreaSnapshot>, node: u64) -> (r: PanelZone)
        ensures
            r == spec_group_zone(self.kind, match area { Some(a) => Some(*a), None => None }, node),
    {
        match self.kind {
            AreaKind::Detached(zone) => zone,
            AreaKind::Main => match area {
                Some(a) => match a.placement_of(node) {
                    Some(DockPlacement::Center) => PanelZone::Canvas,
                    Some(_) => PanelZone::Dock,
                    None => PanelZone::Canvas,
                },
                None => PanelZone::Canvas,
            },
        }
    }

    /// How the dock `placement` is drawn, given whether it is open.
    pub fn dock_view(&self, placement: DockPlacement, open: bool) -> (r: DockView)
        ensures
            r == (if !open { DockView::Hidden } else if self.empty_docks@.contains(placement) { DockView::Empty } else { DockView::Content }),
    {
        if !open {
            return DockView::Hidden;
        }
        if contains_placement(&self.empty_docks, placement) {
            DockView::Empty
        } else {
            DockView::Content
        }
    }

    /// Whether the split `node` carries the centre's drop hint (the centre is
    /// empty and `node` is its root).
    pub fn shows_center_hint(&self, node: u64) -> (r: bool)
        ensures
            r == (self.empty_center_root == Some(node)),
    {
        match self.empty_center_root {
            Some(root) => root == node,
            None => false,
        }
    }

    /// The shape of the tab bar of group `node` in zone `zone`, where the
    /// centre of this area holds `center_panels` panels (`None` once the area
    /// is gone) and `target` is the drag's merge target.
    pub fn tab_bar_plan(&self, zone: PanelZone, center_panels: Option<usize>, target: &Option<MergeTarget>, node: u64) -> (r: TabBarPlan)
        ensures
            r.in_dock == (zone == PanelZone::Dock),
            r.in_titlebar == (self.kind is Detached),
            r.single_window_panel == (self.kind is Detached && center_panels == Some(1usize)),
            r.merging == (match *target {
                Some(t) => t.area == self.area && t.spot == (MergeSpot::Group { node, placement: None }),
                None => false,
            }),
            r.height == (if self.kind is Detached { TITLEBAR_HEIGHT } else { TAB_HEIGHT }),
            r.left_pad == (if self.kind is Detached { TRAFFIC_LIGHT_PAD } else if zone == PanelZone::Dock { DOCK_TAB_PAD } else { 0 }),
    {
        let in_dock = zone == PanelZone::Dock;
        let in_titlebar = self.kind.is_detached();
        let single_window_panel = in_titlebar && match center_panels {
            Some(n) => n == 1,
            None => false,
        };
        let merging = match self.merge_spot(target) {
            Some(spot) => spot_eq(spot, MergeSpot::Group { node, placement: None }),
            None => false,
        };
        TabBarPlan {
            in_dock,
            in_titlebar,
            single_window_panel,
            merging,
            height: if in_titlebar { TITLEBAR_HEIGHT } else { TAB_HEIGHT },
            left_pad: if in_titlebar { TRAFFIC_LIGHT_PAD } else if in_dock { DOCK_TAB_PAD } else { 0 },
        }
    }

    /// The payload of a drag of `panel` (of `zone`) from the tab bar of
    /// group `node`, drawn in `window`: when the window holds this panel
    /// only, the panel counts as already torn off into this window.
    pub fn tab_drag(&self, panel: u64, zone: Option<PanelZone>, node: u64, window: u64, single_window_panel: bool) -> (r: PanelDrag)
        ensures
            r == (PanelDrag {
                panel,
                source: Some(node),
                source_area: self.area,
                source_window: window,
                zone,
                detached: if single_window_panel { Some(Host { window, area: self.area }) } else { None },
                landed: false,
            }),
    {
        PanelDrag {
            panel,
            source: Some(node),
            source_area: self.area,
            source_window: window,
            zone,
            detached: if single_window_panel { Some(Host { window, area: self.area }) } else { None },
            landed: false,
        }
    }

    /// Where the merge overlay of the active panel of group `node` goes: the
    /// side of the split, or the whole panel (`Some(None)`); `None` where the
    /// drag would not merge into this group.
    pub fn merge_overlay(&self, target: &Option<MergeTarget>, node: u64) -> (r: Option<Option<Placement>>)
        ensures
            r == (match *target {
                Some(t) => if t.area == self.area {
                    match t.spot {
                        MergeSpot::Group { node: n, placement } => if n == node { Some(placement) } else { None },
                        MergeSpot::EmptyDock(_) => None,
                    }
                } else { None },
                None => None,
            }),
    {
        match self.merge_spot(target) {
            Some(MergeSpot::Group { node: n, placement }) => if n == node { Some(placement) } else { None },
            _ => None,
        }
    }

    /// Whether the empty region `placement` is highlighted as a merge spot.
    pub fn empty_dock_merging(&self, target: &Option<MergeTarget>, placement: DockPlacement) -> (r: bool)
        ensures
            r == (match *target {
                Some(t) => t.area == self.area && t.spot == MergeSpot::EmptyDock(placement),
                None => false,
            }),
    {
        match self.merge_spot(target) {
            Some(spot) => spot_eq(spot, MergeSpot::EmptyDock(placement)),
            None => false,
        }
    }

    /// Whether the empty region `placement` lights up under a tab drag.
    pub fn empty_dock_accepts(&self, drag: &DragModel, placement: DockPlacement) -> (r: bool)
        ensures
            r == (drag.attached_window is None && spec_drop_allowed(self.kind, drag.dragging_zone, placement)),
    {
        !drag.window_drag_active() && drop_allowed(self.kind, drag.dragging_zone, placement)
    }

    /// A tab dropped on the empty region `placement` of this skin's `area`
    /// (in `current_window`). Nothing happens while a window is carried or
    /// where the region refuses the panel. A panel from this very area is
    /// moved beside the region's root (once, if it has not landed yet); a
    /// panel from elsewhere is transferred into the region.
    pub fn empty_dock_drop(
        &self,
        drag_state: &DragModel,
        drag: &mut PanelDrag,
        area: &AreaSnapshot,
        placement: DockPlacement,
        current_window: u64,
    ) -> (r: Transfer)
        ensures
            drag_state.attached_window is Some || !spec_drop_allowed(self.kind, old(drag).zone, placement) ==>
                r == Transfer::Nothing && *final(drag) == *old(drag),
            drag_state.attached_window is None && spec_drop_allowed(self.kind, old(drag).zone, placement) ==> {
                if spec_living_source(*old(drag)) == area.id {
                    match area.region_of(placement).layout {
                        Some(layout) => if old(drag).landed {
                            r == Transfer::Nothing && *final(drag) == *old(drag)
                        } else {
                            &&& r == Transfer::Rearrange(InsertTarget::Split { node: layout.root, placement: Placement::Right })
                            &&& *final(drag) == (PanelDrag { landed: true, ..*old(drag) })
                        },
                        None => r == Transfer::Nothing && *final(drag) == *old(drag),
                    }
                } else {
                    &&& r == spec_transfer(*old(drag), area.id, placement, None, current_window)
                    &&& *final(drag) == (PanelDrag { landed: true, ..*old(drag) })
                }
            },
    {
        if drag_state.window_drag_active() {
            return Transfer::Nothing;
        }
        if !drop_allowed(self.kind, drag.zone, placement) {
            return Transfer::Nothing;
        }
        if living_source(drag) == area.id {
            let root = match &area.region(placement).layout {
                Some(layout) => layout.root,
                None => return Transfer::Nothing,
            };
            if drag.landed {
                return Transfer::Nothing;
            }
            drag.landed = true;
            Transfer::Rearrange(InsertTarget::Split { node: root, placement: Placement::Right })
        } else {
            transfer_panel(drag, area.id, placement, None, current_window)
        }
    }
}

/// The background of a tab group of `zone`: the panel colour in the docks,
/// the backdrop in the centre.
pub fn group_background(zone: PanelZone) -> (r: u32)
    ensures
        r == (if zone == PanelZone::Dock { PANEL } else { BACKDROP }),
{
    if zone == PanelZone::Dock { PANEL } else { BACKDROP }
}

/// The background behind a group's active panel: the panel's own background
/// where it is one of the workspace's panels (`active`), otherwise the panel
/// colour in the docks and the canvas colour in the centre.
pub fn content_background(zone: PanelZone, active: Option<PanelKind>) -> (r: u32)
    ensures
        r == (match active {
            Some(kind) => match kind {
                PanelKind::Canvas => CANVAS,
                PanelKind::Timeline => crate::theme::TRACK,
                _ => PANEL,
            },
            None => if zone == PanelZone::Dock { PANEL } else { CANVAS },
        }),
{
    match active {
        Some(kind) => kind.background(),
        None => if zone == PanelZone::Dock { PANEL } else { CANVAS },
    }
}

/// Whether the tab bar of a group of `zone` lights up under a tab drag.
pub fn tab_bar_accepts(drag: &DragModel, zone: PanelZone) -> (r: bool)
    ensures
        r == (drag.attached_window is None && drag.dragging_zone == Some(zone)),
{
    !drag.window_drag_active() && drag.drag_accepted(zone)
}

/// Renders a tab group of `zone`: records whether the hovered group takes the
/// current drag (no drag active, or a drag of this zone with no window
/// carried), which decides whether its drop indicator is shown.
pub fn tab_group_frame(drag: &mut DragModel, zone: PanelZone, has_active_drag: bool)
    ensures
        *final(drag) == (DragModel {
            hovered_group_accepts: !has_active_drag || (old(drag).dragging_zone == Some(zone) && old(drag).attached_window is None),
            ..*old(drag)
        }),
{
    let accepts = !has_active_drag || (drag.drag_accepted(zone) && !drag.window_drag_active());
    drag.hovered_group_accepts = accepts;
}

/// The order in which side docks are listed: left, right, bottom.
pub open spec fn side_rank(p: DockPlacement) -> int {
    match p {
        DockPlacement::Left => 0,
        DockPlacement::Right => 1,
        DockPlacement::Bottom => 2,
        DockPlacement::Center => 3,
    }
}

/// The empty docks are exactly the side docks that are open and hold no
/// panel, each listed once in the order left, right, bottom, and never the
/// centre.
pub proof fn lemma_empty_docks_are_the_open_empty_sides(area: AreaSnapshot)
    ensures
        forall|p: DockPlacement| p != DockPlacement::Center ==>
            (#[trigger] spec_empty_docks(area).contains(p) <==> (area.region_of(p).open && area.region_of(p).empty)),
        !spec_empty_docks(area).contains(DockPlacement::Center),
        forall|i: int, j: int| 0 <= i < j < spec_empty_docks(area).len()
            ==> side_rank(#[trigger] spec_empty_docks(area)[i]) < side_rank(#[trigger] spec_empty_docks(area)[j]),
{
    let l: Seq<DockPlacement> = if dock_empty(area.left) { seq![DockPlacement::Left] } else { Seq::empty() };
    let r: Seq<DockPlacement> = if dock_empty(area.right) { seq![DockPlacement::Right] } else { Seq::empty() };
    let b: Seq<DockPlacement> = if dock_empty(area.bottom) { seq![DockPlacement::Bottom] } else { Seq::empty() };
    let docks = spec_empty_docks(area);
    assert(docks =~= l + r + b);
    assert forall|p: DockPlacement| p != DockPlacement::Center implies
        (#[trigger] docks.contains(p) <==> (area.region_of(p).open && area.region_of(p).empty)) by {
        if area.region_of(p).open && area.region_of(p).empty {
            match p {
                DockPlacement::Left => assert(docks[0] == p),
                DockPlacement::Right => assert(docks[l.len() as int] == p),
                DockPlacement::Bottom => assert(docks[(l.len() + r.len()) as int] == p),
                DockPlacement::Center => {},
            }
        }
        if docks.contains(p) {
            let k = choose|k: int| 0 <= k < docks.len() && docks[k] == p;
            assert(docks[k] == p);
        }
    }
    if docks.contains(DockPlacement::Center) {
        let k = choose|k: int| 0 <= k < docks.len() && docks[k] == DockPlacement::Center;
        assert(docks[k] == DockPlacement::Center);
    }
}

/// The zone of a group in the main area follows the region that holds it: a
/// group of the centre takes canvas panels and a group of a side dock takes
/// dock panels, so a drop of a panel of the group's zone onto the group is
/// allowed by the drop rule. A detached area's groups are of its own zone.
pub proof fn lemma_group_zone_follows_region(kind: AreaKind, area: AreaSnapshot, node: u64)
    ensures
        kind matches AreaKind::Detached(zone) ==> spec_group_zone(kind, Some(area), node) == zone,
        kind is Main && area.spec_placement_of(node) == Some(DockPlacement::Center)
            ==> spec_group_zone(kind, Some(area), node) == PanelZone::Canvas,
        (area.spec_placement_of(node) matches Some(p) && p != DockPlacement::Center && kind is Main)
            ==> spec_group_zone(kind, Some(area), node) == PanelZone::Dock,
        area.spec_placement_of(node) matches Some(region)
            ==> spec_drop_allowed(kind, Some(spec_group_zone(kind, Some(area), node)), region),
{
}

/// After the bookkeeping is brought up to date, every cached bound belongs to
/// a region that is empty now.
pub proof fn lemma_kept_bounds_are_empty<B>(cache: Seq<(DockPlacement, B)>, docks: Seq<DockPlacement>, center_root: Option<u64>)
    ensures
        forall|i: int| 0 <= i < keep_empty(cache, docks, center_root).len() ==>
            still_empty(#[trigger] keep_empty(cache, docks, center_root)[i].0, docks, center_root),
    decreases cache.len(),
{
    if cache.len() > 0 {
        lemma_kept_bounds_are_empty(cache.drop_last(), docks, center_root);
        let rest = keep_empty(cache.drop_last(), docks, center_root);
        let all = keep_empty(cache, docks, center_root);
        assert forall|i: int| 0 <= i < all.len() implies still_empty(#[trigger] all[i].0, docks, center_root) by {
            if i < rest.len() {
                assert(all[i] == rest[i]);
            }
        }
    }
}

/// Recording bounds for a region leaves exactly one entry for it: the new one,
/// last.
pub proof fn lemma_record_replaces<B>(cache: Seq<(DockPlacement, B)>, placement: DockPlacement, b: B)
    ensures ({
        let after = drop_placement(cache, placement).push((placement, b));
        &&& after.last() == (placement, b)
        &&& forall|i: int| 0 <= i < after.len() - 1 ==> (#[trigger] after[i]).0 != placement
    }),
{
    lemma_drop_placement(cache, placement);
}

proof fn lemma_drop_placement<B>(cache: Seq<(DockPlacement, B)>, placement: DockPlacement)
    ensures
        forall|i: int| 0 <= i < drop_placement(cache, placement).len() ==> (#[trigger] drop_placement(cache, placement)[i]).0 != placement,
    decreases cache.len(),
{
    if cache.len() > 0 {
        lemma_drop_placement(cache.drop_last(), placement);
    }
}

} // verus!
