//! A plain-value picture of a dock area's layout, as far as the docking rules
//! read it: which nodes each region's tree holds, how many panels a tab group
//! shows, which panels sit in the region, and whether the region is open and
//! empty.

use vstd::prelude::*;
use crate::dock::zone::DockPlacement;

verus! {

/// One node of a region's layout tree. `tabs` is `Some(n)` for a tab group
/// holding `n` panels and `None` for any other node (a split).
#[derive(Clone, Copy, PartialEq, Eq, Structural, Debug)]
pub struct LayoutNode {
    pub node: u64,
    pub tabs: Option<usize>,
}

/// The layout tree of one region, flattened: its root, every node in it, and
/// the panels it holds in order.
#[derive(Debug)]
pub struct RegionLayout {
    pub root: u64,
    pub nodes: Vec<LayoutNode>,
    pub panels: Vec<u64>,
}

/// One region of a dock area.
#[derive(Debug)]
pub struct DockRegion {
    pub layout: Option<RegionLayout>,
    pub open: bool,
    pub empty: bool,
}

/// A dock area: its entity id and its four regions.
#[derive(Debug)]
pub struct AreaSnapshot {
    pub id: u64,
    pub center: DockRegion,
    pub left: DockRegion,
    pub right: DockRegion,
    pub bottom: DockRegion,
}

/// Whether `node` occurs in the layout.
pub open spec fn layout_has(layout: RegionLayout, node: u64) -> bool {
    exists|i: int| 0 <= i < layout.nodes@.len() && (#[trigger] layout.nodes@[i]).node == node
}

/// The first entry of the layout that is `node`, if any.
pub open spec fn find_node(nodes: Seq<LayoutNode>, node: u64) -> Option<LayoutNode>
    decreases nodes.len(),
{
    if nodes.len() == 0 {
        None
    } else if nodes[0].node == node {
        Some(nodes[0])
    } else {
        find_node(nodes.drop_first(), node)
    }
}

pub open spec fn region_has(region: DockRegion, node: u64) -> bool {
    match region.layout {
        Some(layout) => layout_has(layout, node),
        None => false,
    }
}

impl AreaSnapshot {
    pub open spec fn region_of(self, placement: DockPlacement) -> DockRegion {
        match placement {
            DockPlacement::Center => self.center,
            DockPlacement::Left => self.left,
            DockPlacement::Right => self.right,
            DockPlacement::Bottom => self.bottom,
        }
    }

    pub fn region(&self, placement: DockPlacement) -> (r: &DockRegion)
        ensures
            *r == self.region_of(placement),
    {
        match placement {
            DockPlacement::Center => &self.center,
            DockPlacement::Left => &self.left,
            DockPlacement::Right => &self.right,
            DockPlacement::Bottom => &self.bottom,
        }
    }

    /// The region whose layout holds `node`, searched in the order centre,
    /// left, right, bottom.
    pub open spec fn spec_placement_of(self, node: u64) -> Option<DockPlacement> {
        if region_has(self.center, node) {
            Some(DockPlacement::Center)
        } else if region_has(self.left, node) {
            Some(DockPlacement::Left)
        } else if region_has(self.right, node) {
            Some(DockPlacement::Right)
        } else if region_has(self.bottom, node) {
            Some(DockPlacement::Bottom)
        } else {
            None
        }
    }

    /// The number of panels in the tab group `node`: `None` where the node is
    /// in no region or is not a tab group.
    pub open spec fn spec_group_len(self, node: u64) -> Option<usize> {
        match self.spec_placement_of(node) {
            Some(p) => match self.region_of(p).layout {
                Some(layout) => match find_node(layout.nodes@, node) {
                    Some(n) => n.tabs,
                    None => None,
                },
                None => None,
            },
            None => None,
        }
    }

    /// The panels of the centre region, in order; none where it has no layout.
    pub open spec fn spec_center_panels(self) -> Seq<u64> {
        match self.center.layout {
            Some(layout) => layout.panels@,
            None => Seq::empty(),
        }
    }
}

proof fn lemma_find_node_some(nodes: Seq<LayoutNode>, node: u64)
    ensures
        find_node(nodes, node) is Some <==> exists|i: int| 0 <= i < nodes.len() && (#[trigger] nodes[i]).node == node,
        find_node(nodes, node) matches Some(n) ==> n.node == node,
    decreases nodes.len(),
{
    if nodes.len() > 0 {
        lemma_find_node_some(nodes.drop_first(), node);
        if nodes[0].node != node {
            assert forall|i: int| 0 <= i < nodes.len() && (#[trigger] nodes[i]).node == node implies
                (0 <= i - 1 < nodes.drop_first().len() && nodes.drop_first()[i - 1].node == node) by {}
            assert forall|i: int| 0 <= i < nodes.drop_first().len() && (#[trigger] nodes.drop_first()[i]).node == node implies
                (0 <= i + 1 < nodes.len() && nodes[i + 1].node == node) by {}
        }
    }
}

/// Looks `node` up in a layout's node list: the first entry with that id.
pub fn find_layout_node(nodes: &Vec<LayoutNode>, node: u64) -> (r: Option<LayoutNode>)
    ensures
        r == find_node(nodes@, node),
        r is Some <==> exists|i: int| 0 <= i < nodes@.len() && (#[trigger] nodes@[i]).node == node,
{
    proof { lemma_find_node_some(nodes@, node); }
    assert(nodes@.skip(0) =~= nodes@);
    let mut i: usize = 0;
    while i < nodes.len()
        invariant
            0 <= i <= nodes@.len(),
            find_node(nodes@, node) == find_node(nodes@.skip(i as int), node),
        decreases nodes@.len() - i,
    {
        let n = nodes[i];
        assert(nodes@.skip(i as int)[0] == n);
        if n.node == node {
            return Some(n);
        }
        assert(nodes@.skip(i as int).drop_first() =~= nodes@.skip(i + 1));
        i = i + 1;
    }
    assert(nodes@.skip(i as int).len() == 0);
    None
}

pub fn region_contains(region: &DockRegion, node: u64) -> (r: bool)
    ensures
        r == region_has(*region, node),
{
    match &region.layout {
        Some(layout) => find_layout_node(&layout.nodes, node).is_some(),
        None => false,
    }
}

impl AreaSnapshot {
    /// The region whose layout holds `node`.
    pub fn placement_of(&self, node: u64) -> (r: Option<DockPlacement>)
        ensures
            r == self.spec_placement_of(node),
    {
        if region_contains(&self.center, node) {
            Some(DockPlacement::Center)
        } else if region_contains(&self.left, node) {
            Some(DockPlacement::Left)
        } else if region_contains(&self.right, node) {
            Some(DockPlacement::Right)
        } else if region_contains(&self.bottom, node) {
            Some(DockPlacement::Bottom)
        } else {
            None
        }
    }

    /// How many panels the tab group `node` holds.
    pub fn group_len(&self, node: u64) -> (r: Option<usize>)
        ensures
            r == self.spec_group_len(node),
    {
        let placement = match self.placement_of(node) {
            Some(p) => p,
            None => return None,
        };
        match &self.region(placement).layout {
            Some(layout) => match find_layout_node(&layout.nodes, node) {
                Some(n) => n.tabs,
                None => None,
            },
            None => None,
        }
    }

    /// The ids of the panels in the centre region.
    pub fn center_panels(&self) -> (r: Vec<u64>)
        ensures
            r@ == self.spec_center_panels(),
    {
        match &self.center.layout {
            Some(layout) => layout.panels.clone(),
            None => Vec::new(),
        }
    }
}

} // verus!
