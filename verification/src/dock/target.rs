//! Hit testing during a window drag: which spot of which registered dock area
//! the pointer is over, and which of several candidate areas wins.
//!
//! Geometry stays with the caller: it says, for each cached bound, whether it
//! holds the pointer (and, for a group's content, which side of it), and the
//! decisions are made here.

use vstd::prelude::*;
use crate::dock::zone::{AreaKind, DockPlacement, PanelZone, Placement, drop_allowed, spec_drop_allowed};
use crate::dock::layout::AreaSnapshot;
use crate::dock::dropping::{PanelDrag, Transfer, apply_drop_in, spec_drop_destination, spec_transfer, transfer_panel};

verus! {

/// A spot a dragged window can merge into: a group (its tabs, or one side of
/// its content) or an empty dock region.
#[derive(Clone, Copy, PartialEq, Eq, Structural, Debug)]
pub enum MergeSpot {
    Group { node: u64, placement: Option<Placement> },
    EmptyDock(DockPlacement),
}

/// A merge spot together with the area and window it belongs to.
#[derive(Clone, Copy, PartialEq, Eq, Structural, Debug)]
pub struct MergeTarget {
    pub kind: AreaKind,
    pub window: u64,
    pub area: u64,
    pub spot: MergeSpot,
}

/// A dock area registered with the drag state: its kind, window and entity.
#[derive(Clone, Copy, PartialEq, Eq, Structural, Debug)]
pub struct AreaEntry {
    pub kind: AreaKind,
    pub window: u64,
    pub area: u64,
}

/// An empty dock region's cached bounds, tested against the pointer.
#[derive(Clone, Copy, PartialEq, Eq, Structural, Debug)]
pub struct EmptyDockProbe {
    pub placement: DockPlacement,
    pub contains: bool,
}

/// A group's cached bounds, tested against the pointer: `content` is
/// `Some(side)` when the content bounds hold the pointer (`side` being the
/// split side the pointer is nearest to, if any), and `tab_bar` says whether
/// the tab bar bounds hold it.
#[derive(Clone, Copy, PartialEq, Eq, Structural, Debug)]
pub struct GroupProbe {
    pub node: u64,
    pub content: Option<Option<Placement>>,
    pub tab_bar: bool,
}

pub fn spot_eq(a: MergeSpot, b: MergeSpot) -> (r: bool)
    ensures
        r == (a == b),
{
    match (a, b) {
        (MergeSpot::Group { node: n1, placement: p1 }, MergeSpot::Group { node: n2, placement: p2 }) => {
            n1 == n2 && match (p1, p2) {
                (Some(x), Some(y)) => x == y,
                (None, None) => true,
                _ => false,
            }
        },
        (MergeSpot::EmptyDock(x), MergeSpot::EmptyDock(y)) => x == y,
        _ => false,
    }
}

impl MergeTarget {
    /// Two targets name the same spot when they are in the same area and
    /// their spots agree.
    pub open spec fn spec_same_spot(self, other: MergeTarget) -> bool {
        self.area == other.area && self.spot == other.spot
    }

    pub fn same_spot(&self, other: &MergeTarget) -> (r: bool)
        ensures
            r == self.spec_same_spot(*other),
    {
        self.area == other.area && spot_eq(self.spot, other.spot)
    }
}

/// The first empty dock region that holds the pointer and accepts the panel.
pub open spec fn first_empty_dock(kind: AreaKind, zone: Option<PanelZone>, docks: Seq<EmptyDockProbe>) -> Option<MergeSpot>
    decreases docks.len(),
{
    if docks.len() == 0 {
        None
    } else if docks[0].contains && spec_drop_allowed(kind, zone, docks[0].placement) {
        Some(MergeSpot::EmptyDock(docks[0].placement))
    } else {
        first_empty_dock(kind, zone, docks.drop_first())
    }
}

/// What one group probe yields: nothing where the group is in no region, the
/// region refuses the panel, or neither bound holds the pointer; otherwise
/// the group with the content side, or the group's tabs.
pub open spec fn group_hit(kind: AreaKind, zone: Option<PanelZone>, area: AreaSnapshot, probe: GroupProbe) -> Option<MergeSpot> {
    match area.spec_placement_of(probe.node) {
        None => None,
        Some(region) => if !spec_drop_allowed(kind, zone, region) {
            None
        } else {
            match probe.content {
                Some(side) => Some(MergeSpot::Group { node: probe.node, placement: side }),
                None => if probe.tab_bar {
                    Some(MergeSpot::Group { node: probe.node, placement: None })
                } else {
                    None
                },
            }
        },
    }
}

/// The first group probe that yields a spot.
pub open spec fn first_group(kind: AreaKind, zone: Option<PanelZone>, area: AreaSnapshot, groups: Seq<GroupProbe>) -> Option<MergeSpot>
    decreases groups.len(),
{
    if groups.len() == 0 {
        None
    } else if group_hit(kind, zone, area, groups[0]) is Some {
        group_hit(kind, zone, area, groups[0])
    } else {
        first_group(kind, zone, area, groups.drop_first())
    }
}

/// The spot under the pointer: empty dock regions are tried first, then groups.
pub open spec fn spec_hit_spot(
    kind: AreaKind,
    zone: Option<PanelZone>,
    area: AreaSnapshot,
    docks: Seq<EmptyDockProbe>,
    groups: Seq<GroupProbe>,
) -> Option<MergeSpot> {
    match first_empty_dock(kind, zone, docks) {
        Some(spot) => Some(spot),
        None => first_group(kind, zone, area, groups),
    }
}

/// Finds the spot of `area` (of the given kind) under the pointer for a panel
/// of `zone`, from the probes of its empty docks and groups.
pub fn hit_spot(
    kind: AreaKind,
    area: &AreaSnapshot,
    zone: Option<PanelZone>,
    docks: &Vec<EmptyDockProbe>,
    groups: &Vec<GroupProbe>,
) -> (r: Option<MergeSpot>)
    ensures
        r == spec_hit_spot(kind, zone, *area, docks@, groups@),
{
    assert(docks@.skip(0) =~= docks@);
    let mut i: usize = 0;
    while i < docks.len()
        invariant
            0 <= i <= docks@.len(),
            first_empty_dock(kind, zone, docks@) == first_empty_dock(kind, zone, docks@.skip(i as int)),
        decreases docks@.len() - i,
    {
        let probe = docks[i];
        assert(docks@.skip(i as int)[0] == probe);
        if probe.contains && drop_allowed(kind, zone, probe.placement) {
            return Some(MergeSpot::EmptyDock(probe.placement));
        }
        assert(docks@.skip(i as int).drop_first() =~= docks@.skip(i + 1));
        i = i + 1;
    }
    assert(docks@.skip(i as int).len() == 0);

    assert(groups@.skip(0) =~= groups@);
    let mut j: usize = 0;
    while j < groups.len()
        invariant
            0 <= j <= groups@.len(),
            first_empty_dock(kind, zone, docks@) is None,
            first_group(kind, zone, *area, groups@) == first_group(kind, zone, *area, groups@.skip(j as int)),
        decreases groups@.len() - j,
    {
        let probe = groups[j];
        assert(groups@.skip(j as int)[0] == probe);
        assert(groups@.skip(j as int).drop_first() =~= groups@.skip(j + 1));
        j = j + 1;
        let region = match area.placement_of(probe.node) {
            Some(region) => region,
            None => continue,
        };
        if !drop_allowed(kind, zone, region) {
            continue;
        }
        match probe.content {
            Some(side) => return Some(MergeSpot::Group { node: probe.node, placement: side }),
            None => {},
        }
        if probe.tab_bar {
            return Some(MergeSpot::Group { node: probe.node, placement: None });
        }
    }
    assert(groups@.skip(j as int).len() == 0);
    None
}

/// A probe of an empty dock that holds the pointer and takes the panel.
pub open spec fn dock_probe_takes(kind: AreaKind, zone: Option<PanelZone>, probe: EmptyDockProbe) -> bool {
    probe.contains && spec_drop_allowed(kind, zone, probe.placement)
}

proof fn lemma_first_empty_dock_found(kind: AreaKind, zone: Option<PanelZone>, docks: Seq<EmptyDockProbe>)
    ensures
        first_empty_dock(kind, zone, docks) matches Some(spot) ==> exists|i: int|
            0 <= i < docks.len() && #[trigger] dock_probe_takes(kind, zone, docks[i])
                && spot == MergeSpot::EmptyDock(docks[i].placement)
                && forall|k: int| 0 <= k < i ==> !dock_probe_takes(kind, zone, #[trigger] docks[k]),
        first_empty_dock(kind, zone, docks) is None ==>
            forall|i: int| 0 <= i < docks.len() ==> !#[trigger] dock_probe_takes(kind, zone, docks[i]),
    decreases docks.len(),
{
    if docks.len() > 0 {
        let rest = docks.drop_first();
        lemma_first_empty_dock_found(kind, zone, rest);
        if !dock_probe_takes(kind, zone, docks[0]) {
            match first_empty_dock(kind, zone, rest) {
                Some(spot) => {
                    let k = choose|k: int| 0 <= k < rest.len() && #[trigger] dock_probe_takes(kind, zone, rest[k])
                        && spot == MergeSpot::EmptyDock(rest[k].placement)
                        && forall|m: int| 0 <= m < k ==> !dock_probe_takes(kind, zone, #[trigger] rest[m]);
                    assert(docks[k + 1] == rest[k]);
                    assert forall|m: int| 0 <= m < k + 1 implies !dock_probe_takes(kind, zone, #[trigger] docks[m]) by {
                        if m > 0 {
                            assert(docks[m] == rest[m - 1]);
                        }
                    }
                },
                None => {
                    assert forall|i: int| 0 <= i < docks.len() implies !#[trigger] dock_probe_takes(kind, zone, docks[i]) by {
                        if i > 0 {
                            assert(docks[i] == rest[i - 1]);
                        }
                    }
                },
            }
        } else {
            assert(dock_probe_takes(kind, zone, docks[0]));
        }
    }
}

proof fn lemma_first_group_found(kind: AreaKind, zone: Option<PanelZone>, area: AreaSnapshot, groups: Seq<GroupProbe>)
    ensures
        first_group(kind, zone, area, groups) matches Some(spot) ==> exists|j: int|
            0 <= j < groups.len() && #[trigger] group_hit(kind, zone, area, groups[j]) == Some(spot)
                && forall|k: int| 0 <= k < j ==> (#[trigger] group_hit(kind, zone, area, groups[k])) is None,
        first_group(kind, zone, area, groups) is None ==>
            forall|j: int| 0 <= j < groups.len() ==> (#[trigger] group_hit(kind, zone, area, groups[j])) is None,
    decreases groups.len(),
{
    if groups.len() > 0 {
        let rest = groups.drop_first();
        lemma_first_group_found(kind, zone, area, rest);
        if group_hit(kind, zone, area, groups[0]) is Some {
            assert(group_hit(kind, zone, area, groups[0]) == first_group(kind, zone, area, groups));
        } else {
            match first_group(kind, zone, area, rest) {
                Some(spot) => {
                    let k = choose|k: int| 0 <= k < rest.len() && #[trigger] group_hit(kind, zone, area, rest[k]) == Some(spot)
                        && forall|m: int| 0 <= m < k ==> (#[trigger] group_hit(kind, zone, area, rest[m])) is None;
                    assert(groups[k + 1] == rest[k]);
                    assert forall|m: int| 0 <= m < k + 1 implies (#[trigger] group_hit(kind, zone, area, groups[m])) is None by {
                        if m > 0 {
                            assert(groups[m] == rest[m - 1]);
                        }
                    }
                },
                None => {
                    assert forall|m: int| 0 <= m < groups.len() implies (#[trigger] group_hit(kind, zone, area, groups[m])) is None by {
                        if m > 0 {
                            assert(groups[m] == rest[m - 1]);
                        }
                    }
                },
            }
        }
    }
}

/// A probe of a group whose content or tab bar holds the pointer, in a
/// region that takes the panel.
pub open spec fn group_probe_takes(kind: AreaKind, zone: Option<PanelZone>, area: AreaSnapshot, probe: GroupProbe) -> bool {
    &&& probe.content is Some || probe.tab_bar
    &&& area.spec_placement_of(probe.node) matches Some(region) && spec_drop_allowed(kind, zone, region)
}

/// The hit test only finds what lies under the pointer and takes the panel:
/// an empty dock whose bounds hold the pointer and whose region the drop rule
/// allows, or a group whose content (on the side found) or tab bar holds the
/// pointer, in a region that takes the panel. Empty docks come first: where
/// one holds the pointer and takes the panel, the spot is an empty dock.
pub proof fn lemma_hit_spot_under_pointer(
    kind: AreaKind,
    zone: Option<PanelZone>,
    area: AreaSnapshot,
    docks: Seq<EmptyDockProbe>,
    groups: Seq<GroupProbe>,
)
    ensures
        spec_hit_spot(kind, zone, area, docks, groups) matches Some(MergeSpot::EmptyDock(p)) ==> exists|i: int|
            0 <= i < docks.len() && (#[trigger] docks[i]).placement == p && docks[i].contains
                && spec_drop_allowed(kind, zone, p)
                && forall|k: int| 0 <= k < i ==> !dock_probe_takes(kind, zone, #[trigger] docks[k]),
        spec_hit_spot(kind, zone, area, docks, groups) matches Some(MergeSpot::Group { node, placement }) ==> {
            &&& forall|i: int| 0 <= i < docks.len() ==> !dock_probe_takes(kind, zone, #[trigger] docks[i])
            &&& exists|j: int| 0 <= j < groups.len() && (#[trigger] groups[j]).node == node && {
                ||| groups[j].content == Some(placement)
                ||| groups[j].content is None && groups[j].tab_bar && placement is None
            } && forall|k: int| 0 <= k < j ==> !group_probe_takes(kind, zone, area, #[trigger] groups[k])
            &&& area.spec_placement_of(node) matches Some(region) && spec_drop_allowed(kind, zone, region)
        },
        spec_hit_spot(kind, zone, area, docks, groups) is None ==> {
            &&& forall|i: int| 0 <= i < docks.len() ==> !dock_probe_takes(kind, zone, #[trigger] docks[i])
            &&& forall|j: int| 0 <= j < groups.len() ==> !group_probe_takes(kind, zone, area, #[trigger] groups[j])
        },
        (exists|i: int| 0 <= i < docks.len() && (#[trigger] docks[i]).contains && spec_drop_allowed(kind, zone, docks[i].placement))
            ==> spec_hit_spot(kind, zone, area, docks, groups) matches Some(MergeSpot::EmptyDock(_)),
{
    lemma_first_empty_dock_found(kind, zone, docks);
    lemma_first_group_found(kind, zone, area, groups);
    if exists|i: int| 0 <= i < docks.len() && (#[trigger] docks[i]).contains && spec_drop_allowed(kind, zone, docks[i].placement) {
        let i = choose|i: int| 0 <= i < docks.len() && (#[trigger] docks[i]).contains && spec_drop_allowed(kind, zone, docks[i].placement);
        assert(dock_probe_takes(kind, zone, docks[i]));
    }
    assert forall|k: int|
        #![trigger group_hit(kind, zone, area, groups[k])]
        #![trigger group_probe_takes(kind, zone, area, groups[k])]
        0 <= k < groups.len() implies
        (group_hit(kind, zone, area, groups[k]) is None <==> !group_probe_takes(kind, zone, area, groups[k])) by {
        assert(group_hit(kind, zone, area, groups[k]) is None <==> !group_probe_takes(kind, zone, area, groups[k]));
    }
    if first_empty_dock(kind, zone, docks) is None {
        match first_group(kind, zone, area, groups) {
            Some(spot) => {
                let j = choose|j: int| 0 <= j < groups.len() && #[trigger] group_hit(kind, zone, area, groups[j]) == Some(spot)
                    && forall|k: int| 0 <= k < j ==> (#[trigger] group_hit(kind, zone, area, groups[k])) is None;
                assert(groups[j].node == groups[j].node);
            },
            None => {},
        }
    }
}

/// Whether a registered area can take the drop: it is not in the dragged
/// window and its probe found a spot.
pub open spec fn eligible(entry: AreaEntry, spot: Option<MergeSpot>, dragged: Option<u64>) -> bool {
    &&& spot is Some
    &&& match dragged {
        Some(w) => entry.window != w,
        None => true,
    }
}

/// The merge target among the registered areas, visited in order: a detached
/// area that can take the drop replaces what was found before, a main area
/// only fills an empty slot.
pub open spec fn pick_target(entries: Seq<AreaEntry>, spots: Seq<Option<MergeSpot>>, dragged: Option<u64>) -> Option<MergeTarget>
    decreases entries.len(),
{
    if entries.len() == 0 {
        None
    } else {
        let before = pick_target(entries.drop_last(), spots, dragged);
        let i = entries.len() - 1;
        let entry = entries[i];
        if eligible(entry, spots[i], dragged) && (entry.kind is Detached || before is None) {
            Some(MergeTarget { kind: entry.kind, window: entry.window, area: entry.area, spot: spots[i]->0 })
        } else {
            before
        }
    }
}

/// Chooses the merge target among the registered `entries`, given the spot
/// each one's probe found (`spots[i]` for `entries[i]`), skipping the window
/// that is being dragged.
pub fn resolve_merge_target(
    entries: &Vec<AreaEntry>,
    spots: &Vec<Option<MergeSpot>>,
    dragged: Option<u64>,
) -> (r: Option<MergeTarget>)
    requires
        spots@.len() == entries@.len(),
    ensures
        r == pick_target(entries@, spots@, dragged),
{
    let mut found: Option<MergeTarget> = None;
    let mut i: usize = 0;
    assert(entries@.take(0) =~= Seq::<AreaEntry>::empty());
    while i < entries.len()
        invariant
            0 <= i <= entries@.len(),
            spots@.len() == entries@.len(),
            found == pick_target(entries@.take(i as int), spots@, dragged),
        decreases entries@.len() - i,
    {
        let entry = entries[i];
        let spot = spots[i];
        assert(entries@.take(i + 1).drop_last() =~= entries@.take(i as int));
        assert(entries@.take(i + 1)[i as int] == entry);
        let not_dragged = match dragged {
            Some(w) => entry.window != w,
            None => true,
        };
        if not_dragged {
            if let Some(s) = spot {
                if entry.kind.is_detached() || found.is_none() {
                    found = Some(MergeTarget { kind: entry.kind, window: entry.window, area: entry.area, spot: s });
                }
            }
        }
        i = i + 1;
    }
    assert(entries@.take(i as int) =~= entries@);
    found
}

pub open spec fn target_of(entry: AreaEntry, spot: Option<MergeSpot>) -> MergeTarget {
    MergeTarget { kind: entry.kind, window: entry.window, area: entry.area, spot: spot->0 }
}

/// Entry `i` is registered and can take the drop.
pub open spec fn eligible_at(entries: Seq<AreaEntry>, spots: Seq<Option<MergeSpot>>, dragged: Option<u64>, i: int) -> bool {
    0 <= i < entries.len() && eligible(entries[i], spots[i], dragged)
}

/// Which area wins a window drag: some area is chosen exactly when some area
/// outside the dragged window found a spot; the chosen one is never the
/// dragged window; when a detached area found a spot, the last such one in
/// registration order wins; otherwise the first area that found a spot wins.
pub proof fn lemma_pick_target(entries: Seq<AreaEntry>, spots: Seq<Option<MergeSpot>>, dragged: Option<u64>)
    requires
        spots.len() == entries.len(),
    ensures ({
        let r = pick_target(entries, spots, dragged);
        &&& (r is Some <==> exists|i: int| #[trigger] eligible_at(entries, spots, dragged, i))
        &&& (r matches Some(t) ==> exists|i: int| #[trigger] eligible_at(entries, spots, dragged, i) && t == target_of(entries[i], spots[i]))
        &&& (r matches Some(t) ==> (dragged matches Some(w) ==> t.window != w))
        &&& ((exists|i: int| #[trigger] eligible_at(entries, spots, dragged, i) && entries[i].kind is Detached) ==> exists|i: int| {
            &&& #[trigger] eligible_at(entries, spots, dragged, i)
            &&& entries[i].kind is Detached
            &&& r == Some(target_of(entries[i], spots[i]))
            &&& forall|j: int| i < j && #[trigger] eligible_at(entries, spots, dragged, j) ==> entries[j].kind is Main
        })
        &&& (!(exists|i: int| #[trigger] eligible_at(entries, spots, dragged, i) && entries[i].kind is Detached)
            && (exists|i: int| #[trigger] eligible_at(entries, spots, dragged, i)) ==> exists|i: int| {
            &&& #[trigger] eligible_at(entries, spots, dragged, i)
            &&& r == Some(target_of(entries[i], spots[i]))
            &&& forall|j: int| j < i ==> !#[trigger] eligible_at(entries, spots, dragged, j)
        })
    }),
    decreases entries.len(),
{
    if entries.len() > 0 {
        let pre = entries.drop_last();
        let n = entries.len() - 1;
        let spots_pre = spots.drop_last();
        lemma_pick_target(pre, spots_pre, dragged);
        lemma_pick_target_spots(pre, spots, spots_pre, dragged);
        assert(pick_target(pre, spots, dragged) == pick_target(pre, spots_pre, dragged));
        assert forall|i: int| i < n implies #[trigger] eligible_at(entries, spots, dragged, i) == eligible_at(pre, spots_pre, dragged, i) by {}
        assert forall|i: int| 0 <= i < n implies #[trigger] entries[i] == pre[i] && spots[i] == spots_pre[i] by {}
        let last = eligible_at(entries, spots, dragged, n);
        let b = pick_target(pre, spots_pre, dragged);
        if last && entries[n].kind is Detached {
            assert(pick_target(entries, spots, dragged) == Some(target_of(entries[n], spots[n])));
        } else if last && b is None {
            assert(pick_target(entries, spots, dragged) == Some(target_of(entries[n], spots[n])));
            assert forall|j: int| j < n implies !#[trigger] eligible_at(entries, spots, dragged, j) by {
                assert(!eligible_at(pre, spots_pre, dragged, j));
            }
        } else {
            assert(pick_target(entries, spots, dragged) == b);
            if exists|i: int| #[trigger] eligible_at(entries, spots, dragged, i) {
                let k = choose|i: int| #[trigger] eligible_at(entries, spots, dragged, i);
                if k < n {
                    assert(eligible_at(pre, spots_pre, dragged, k));
                } else {
                    assert(b is Some);
                }
            }
            if b is Some {
                let t = b->0;
                let k = choose|i: int| #[trigger] eligible_at(pre, spots_pre, dragged, i) && t == target_of(pre[i], spots_pre[i]);
                assert(eligible_at(entries, spots, dragged, k));
            }
            if exists|i: int| #[trigger] eligible_at(entries, spots, dragged, i) && entries[i].kind is Detached {
                let k = choose|i: int| #[trigger] eligible_at(entries, spots, dragged, i) && entries[i].kind is Detached;
                assert(k < n);
                assert(eligible_at(pre, spots_pre, dragged, k) && pre[k].kind is Detached);
                let m = choose|i: int| {
                    &&& #[trigger] eligible_at(pre, spots_pre, dragged, i)
                    &&& pre[i].kind is Detached
                    &&& b == Some(target_of(pre[i], spots_pre[i]))
                    &&& forall|j: int| i < j && #[trigger] eligible_at(pre, spots_pre, dragged, j) ==> pre[j].kind is Main
                };
                assert(eligible_at(entries, spots, dragged, m));
                assert forall|j: int| m < j && #[trigger] eligible_at(entries, spots, dragged, j) implies entries[j].kind is Main by {
                    if j < n {
                        assert(eligible_at(pre, spots_pre, dragged, j));
                    }
                }
            } else if exists|i: int| #[trigger] eligible_at(entries, spots, dragged, i) {
                let k = choose|i: int| #[trigger] eligible_at(entries, spots, dragged, i);
                if k == n {
                    assert(b is Some);
                }
                assert(!exists|i: int| #[trigger] eligible_at(pre, spots_pre, dragged, i) && pre[i].kind is Detached) by {
                    if exists|i: int| #[trigger] eligible_at(pre, spots_pre, dragged, i) && pre[i].kind is Detached {
                        let q = choose|i: int| #[trigger] eligible_at(pre, spots_pre, dragged, i) && pre[i].kind is Detached;
                        assert(eligible_at(entries, spots, dragged, q));
                    }
                }
                let e = choose|i: int| #[trigger] eligible_at(pre, spots_pre, dragged, i);
                assert(eligible_at(pre, spots_pre, dragged, e));
                let m = choose|i: int| {
                    &&& #[trigger] eligible_at(pre, spots_pre, dragged, i)
                    &&& b == Some(target_of(pre[i], spots_pre[i]))
                    &&& forall|j: int| j < i ==> !#[trigger] eligible_at(pre, spots_pre, dragged, j)
                };
                assert(eligible_at(entries, spots, dragged, m));
                assert forall|j: int| j < m implies !#[trigger] eligible_at(entries, spots, dragged, j) by {
                    assert(!eligible_at(pre, spots_pre, dragged, j));
                }
            }
        }
    }
}

proof fn lemma_pick_target_spots(entries: Seq<AreaEntry>, spots1: Seq<Option<MergeSpot>>, spots2: Seq<Option<MergeSpot>>, dragged: Option<u64>)
    requires
        entries.len() <= spots1.len(),
        entries.len() <= spots2.len(),
        forall|i: int| 0 <= i < entries.len() ==> spots1[i] == spots2[i],
    ensures
        pick_target(entries, spots1, dragged) == pick_target(entries, spots2, dragged),
    decreases entries.len(),
{
    if entries.len() > 0 {
        lemma_pick_target_spots(entries.drop_last(), spots1, spots2, dragged);
    }
}

/// Carries out, in the target's window, the merge of a dragged window into
/// `target` (`area` being the target's dock area) once the drag ends. A panel
/// that already landed is left alone; a group spot is a drop on that group, an
/// empty region takes the panel as it is.
pub fn apply_merge(drag: &mut PanelDrag, target: &MergeTarget, area: &AreaSnapshot) -> (r: Transfer)
    requires
        area.id == target.area,
    ensures
        old(drag).landed ==> r == Transfer::Nothing && *final(drag) == *old(drag),
        !old(drag).landed ==> match target.spot {
            MergeSpot::Group { node, placement } => match spec_drop_destination(target.kind, *area, *old(drag), node, placement) {
                Some((region, t)) => {
                    &&& r == spec_transfer(*old(drag), area.id, region, Some(t), target.window)
                    &&& *final(drag) == (PanelDrag { landed: true, ..*old(drag) })
                },
                None => r == Transfer::Nothing && *final(drag) == *old(drag),
            },
            MergeSpot::EmptyDock(placement) => {
                &&& r == spec_transfer(*old(drag), area.id, placement, None, target.window)
                &&& *final(drag) == (PanelDrag { landed: true, ..*old(drag) })
            },
        },
{
    if drag.landed {
        return Transfer::Nothing;
    }
    match target.spot {
        MergeSpot::Group { node, placement } => apply_drop_in(target.kind, area, drag, node, placement, target.window),
        MergeSpot::EmptyDock(placement) => transfer_panel(drag, area.id, placement, None, target.window),
    }
}

} // verus!
