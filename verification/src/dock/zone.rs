use vstd::prelude::*;

verus! {

/// Which part of the workspace a panel belongs to: the central canvas or the
/// side docks.
#[derive(Clone, Copy, PartialEq, Eq, Structural, Debug)]
pub enum PanelZone {
    Canvas,
    Dock,
}

/// The kind of dock area: the main window's, or a torn-off window that hosts
/// panels of one zone only.
#[derive(Clone, Copy, PartialEq, Eq, Structural, Debug)]
pub enum AreaKind {
    Main,
    Detached(PanelZone),
}

/// The four regions of a dock area.
#[derive(Clone, Copy, PartialEq, Eq, Structural, Debug)]
pub enum DockPlacement {
    Center,
    Left,
    Right,
    Bottom,
}

/// The side of a group at which a split is made.
#[derive(Clone, Copy, PartialEq, Eq, Structural, Debug)]
pub enum Placement {
    Left,
    Right,
    Top,
    Bottom,
}

impl AreaKind {
    pub fn is_detached(self) -> (r: bool)
        ensures
            r == (self is Detached),
    {
        match self {
            AreaKind::Detached(_) => true,
            AreaKind::Main => false,
        }
    }
}

/// The drop rule: in the main area a canvas panel may only go to the centre and
/// a dock panel only to a side dock; a panel of no known zone goes nowhere. A
/// detached area takes panels of its own zone only.
pub open spec fn spec_drop_allowed(kind: AreaKind, zone: Option<PanelZone>, region: DockPlacement) -> bool {
    match kind {
        AreaKind::Main => match zone {
            Some(PanelZone::Canvas) => region == DockPlacement::Center,
            Some(PanelZone::Dock) => region != DockPlacement::Center,
            None => false,
        },
        AreaKind::Detached(host) => zone == Some(host),
    }
}

pub fn drop_allowed(kind: AreaKind, zone: Option<PanelZone>, region: DockPlacement) -> (r: bool)
    ensures
        r == spec_drop_allowed(kind, zone, region),
{
    match kind {
        AreaKind::Main => match zone {
            Some(PanelZone::Canvas) => region == DockPlacement::Center,
            Some(PanelZone::Dock) => region != DockPlacement::Center,
            None => false,
        },
        AreaKind::Detached(host) => match zone {
            Some(z) => z == host,
            None => false,
        },
    }
}

} // verus!
