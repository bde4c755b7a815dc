use ciart_studio::dock::dropping::{Host, InsertTarget, PanelDrag, Transfer};
use ciart_studio::dock::layout::{AreaSnapshot, DockRegion, LayoutNode, RegionLayout};
use ciart_studio::dock::target::{
    apply_merge, hit_spot, resolve_merge_target, AreaEntry, EmptyDockProbe, GroupProbe, MergeSpot, MergeTarget,
};
use ciart_studio::dock::zone::{AreaKind, DockPlacement, PanelZone, Placement};

fn region(nodes: Vec<LayoutNode>, panels: Vec<u64>) -> DockRegion {
    let root = nodes[0].node;
    let empty = panels.is_empty();
    DockRegion { layout: Some(RegionLayout { root, nodes, panels }), open: true, empty }
}

fn closed() -> DockRegion {
    DockRegion { layout: None, open: false, empty: true }
}

fn area(id: u64) -> AreaSnapshot {
    AreaSnapshot {
        id,
        center: region(vec![LayoutNode { node: 1, tabs: Some(1) }], vec![11]),
        left: region(vec![LayoutNode { node: 2, tabs: Some(2) }], vec![12, 13]),
        right: region(vec![LayoutNode { node: 3, tabs: Some(0) }], vec![]),
        bottom: closed(),
    }
}

#[test]
fn empty_docks_come_first() {
    let a = area(100);
    let docks = vec![EmptyDockProbe { placement: DockPlacement::Right, contains: true }];
    let groups = vec![GroupProbe { node: 2, content: Some(None), tab_bar: false }];
    assert_eq!(
        hit_spot(AreaKind::Main, &a, Some(PanelZone::Dock), &docks, &groups),
        Some(MergeSpot::EmptyDock(DockPlacement::Right))
    );
}

#[test]
fn refused_empty_dock_is_skipped() {
    let a = area(100);
    let docks = vec![EmptyDockProbe { placement: DockPlacement::Right, contains: true }];
    let groups = vec![GroupProbe { node: 1, content: None, tab_bar: true }];
    assert_eq!(
        hit_spot(AreaKind::Main, &a, Some(PanelZone::Canvas), &docks, &groups),
        Some(MergeSpot::Group { node: 1, placement: None })
    );
}

#[test]
fn content_side_beats_tab_bar_and_order_counts() {
    let a = area(100);
    let groups = vec![
        GroupProbe { node: 9, content: Some(Some(Placement::Left)), tab_bar: true },
        GroupProbe { node: 1, content: Some(Some(Placement::Bottom)), tab_bar: true },
        GroupProbe { node: 1, content: None, tab_bar: true },
    ];
    assert_eq!(
        hit_spot(AreaKind::Main, &a, Some(PanelZone::Canvas), &vec![], &groups),
        Some(MergeSpot::Group { node: 1, placement: Some(Placement::Bottom) })
    );
    assert_eq!(hit_spot(AreaKind::Main, &a, None, &vec![], &groups), None);
    let misses = vec![GroupProbe { node: 2, content: None, tab_bar: false }];
    assert_eq!(hit_spot(AreaKind::Main, &a, Some(PanelZone::Dock), &vec![], &misses), None);
}

fn entry(kind: AreaKind, window: u64, area: u64) -> AreaEntry {
    AreaEntry { kind, window, area }
}

#[test]
fn detached_area_wins_over_main_and_last_detached_wins() {
    let spot = Some(MergeSpot::Group { node: 1, placement: None });
    let entries = vec![
        entry(AreaKind::Main, 1, 10),
        entry(AreaKind::Detached(PanelZone::Dock), 2, 20),
        entry(AreaKind::Detached(PanelZone::Dock), 3, 30),
        entry(AreaKind::Main, 4, 40),
    ];
    let spots = vec![spot, spot, spot, spot];
    let t = resolve_merge_target(&entries, &spots, None).unwrap();
    assert_eq!((t.window, t.area), (3, 30));
    let t = resolve_merge_target(&entries, &spots, Some(3)).unwrap();
    assert_eq!((t.window, t.area), (2, 20));
    let mains = vec![entry(AreaKind::Main, 1, 10), entry(AreaKind::Main, 4, 40)];
    let t = resolve_merge_target(&mains, &vec![spot, spot], None).unwrap();
    assert_eq!(t.area, 10);
    assert!(resolve_merge_target(&mains, &vec![None, None], None).is_none());
    assert!(resolve_merge_target(&mains, &vec![spot, spot], Some(1)).map(|t| t.area) == Some(40));
}

#[test]
fn same_spot_compares_area_and_spot() {
    let a = MergeTarget { kind: AreaKind::Main, window: 1, area: 10, spot: MergeSpot::EmptyDock(DockPlacement::Left) };
    let b = MergeTarget { window: 2, ..a };
    let c = MergeTarget { area: 11, ..a };
    let d = MergeTarget { spot: MergeSpot::EmptyDock(DockPlacement::Right), ..a };
    assert!(a.same_spot(&b));
    assert!(!a.same_spot(&c));
    assert!(!a.same_spot(&d));
}

#[test]
fn merge_into_empty_dock_and_group() {
    let a = area(100);
    let mut drag = PanelDrag {
        panel: 5,
        source: Some(77),
        source_area: 300,
        source_window: 30,
        zone: Some(PanelZone::Dock),
        detached: Some(Host { window: 31, area: 301 }),
        landed: false,
    };
    let target = MergeTarget { kind: AreaKind::Main, window: 9, area: 100, spot: MergeSpot::EmptyDock(DockPlacement::Right) };
    let t = apply_merge(&mut drag, &target, &a);
    assert_eq!(
        t,
        Transfer::Relocate { from_area: 301, from_window: 31, here: false, region: DockPlacement::Right, then: None }
    );
    assert_eq!(apply_merge(&mut drag, &target, &a), Transfer::Nothing);

    let mut drag2 = PanelDrag { landed: false, ..drag };
    let group = MergeTarget { spot: MergeSpot::Group { node: 2, placement: Some(Placement::Right) }, ..target };
    let t = apply_merge(&mut drag2, &group, &a);
    assert_eq!(
        t,
        Transfer::Relocate {
            from_area: 301,
            from_window: 31,
            here: false,
            region: DockPlacement::Left,
            then: Some(InsertTarget::Split { node: 2, placement: Placement::Right }),
        }
    );
}
