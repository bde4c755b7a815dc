use ciart_studio::panels::PanelKind;
use ciart_studio::theme::{BACKDROP, CANVAS, PANEL, TRACK};
use ciart_studio::dock::drag::DragModel;
use ciart_studio::dock::dropping::{Host, InsertTarget, PanelDrag, Transfer};
use ciart_studio::dock::layout::{AreaSnapshot, DockRegion, LayoutNode, RegionLayout};
use ciart_studio::dock::skin::{
    content_background, group_background,
    record_empty_dock_bounds, tab_bar_accepts, tab_group_frame, DockSkin, DockView, DOCK_TAB_PAD, TAB_HEIGHT,
    TITLEBAR_HEIGHT, TRAFFIC_LIGHT_PAD,
};
use ciart_studio::dock::target::{MergeSpot, MergeTarget};
use ciart_studio::dock::zone::{AreaKind, DockPlacement, PanelZone, Placement};

fn region(root: u64, panels: Vec<u64>, open: bool) -> DockRegion {
    let empty = panels.is_empty();
    DockRegion {
        layout: Some(RegionLayout { root, nodes: vec![LayoutNode { node: root, tabs: Some(panels.len()) }], panels }),
        open,
        empty,
    }
}

fn area() -> AreaSnapshot {
    AreaSnapshot {
        id: 100,
        center: region(1, vec![], true),
        left: region(2, vec![], true),
        right: region(3, vec![7], true),
        bottom: region(4, vec![], false),
    }
}

#[test]
fn sync_empty_regions_and_cache() {
    let mut skin = DockSkin::new(AreaKind::Main, 9, 100);
    let mut cache = vec![
        (DockPlacement::Right, "r"),
        (DockPlacement::Center, "c"),
        (DockPlacement::Left, "l"),
        (DockPlacement::Bottom, "b"),
    ];
    skin.sync_empty_regions(&area(), &mut cache);
    assert_eq!(skin.empty_docks, vec![DockPlacement::Left]);
    assert_eq!(skin.empty_center_root, Some(1));
    assert_eq!(cache, vec![(DockPlacement::Center, "c"), (DockPlacement::Left, "l")]);
    assert!(skin.shows_center_hint(1));
    assert!(!skin.shows_center_hint(2));
    assert_eq!(skin.dock_view(DockPlacement::Left, true), DockView::Empty);
    assert_eq!(skin.dock_view(DockPlacement::Right, true), DockView::Content);
    assert_eq!(skin.dock_view(DockPlacement::Left, false), DockView::Hidden);

    let mut full = area();
    full.center = region(1, vec![5], true);
    skin.sync_empty_regions(&full, &mut cache);
    assert_eq!(skin.empty_center_root, None);
    assert_eq!(cache, vec![(DockPlacement::Left, "l")]);
}

#[test]
fn recording_bounds_replaces_older_ones() {
    let mut cache = vec![(DockPlacement::Left, 1), (DockPlacement::Right, 2), (DockPlacement::Left, 3)];
    record_empty_dock_bounds(&mut cache, DockPlacement::Left, 4);
    assert_eq!(cache, vec![(DockPlacement::Right, 2), (DockPlacement::Left, 4)]);
}

#[test]
fn group_zone_by_kind_and_region() {
    let a = area();
    let main = DockSkin::new(AreaKind::Main, 9, 100);
    assert_eq!(main.group_zone(Some(&a), 1), PanelZone::Canvas);
    assert_eq!(main.group_zone(Some(&a), 3), PanelZone::Dock);
    assert_eq!(main.group_zone(Some(&a), 42), PanelZone::Canvas);
    assert_eq!(main.group_zone(None, 3), PanelZone::Canvas);
    let detached = DockSkin::new(AreaKind::Detached(PanelZone::Dock), 9, 100);
    assert_eq!(detached.group_zone(Some(&a), 1), PanelZone::Dock);
}

#[test]
fn tab_bar_shapes() {
    let main = DockSkin::new(AreaKind::Main, 9, 100);
    let p = main.tab_bar_plan(PanelZone::Dock, Some(1), &None, 3);
    assert!(p.in_dock && !p.in_titlebar && !p.single_window_panel && !p.merging);
    assert_eq!((p.height, p.left_pad), (TAB_HEIGHT, DOCK_TAB_PAD));
    let p = main.tab_bar_plan(PanelZone::Canvas, Some(1), &None, 1);
    assert_eq!((p.height, p.left_pad), (TAB_HEIGHT, 0));

    let detached = DockSkin::new(AreaKind::Detached(PanelZone::Canvas), 9, 100);
    let target = Some(MergeTarget { kind: AreaKind::Main, window: 9, area: 100, spot: MergeSpot::Group { node: 1, placement: None } });
    let p = detached.tab_bar_plan(PanelZone::Canvas, Some(1), &target, 1);
    assert!(p.in_titlebar && p.single_window_panel && p.merging);
    assert_eq!((p.height, p.left_pad), (TITLEBAR_HEIGHT, TRAFFIC_LIGHT_PAD));
    let p = detached.tab_bar_plan(PanelZone::Canvas, Some(2), &target, 2);
    assert!(!p.single_window_panel && !p.merging);
}

#[test]
fn tab_drag_payload() {
    let skin = DockSkin::new(AreaKind::Detached(PanelZone::Dock), 9, 100);
    let d = skin.tab_drag(5, Some(PanelZone::Dock), 3, 9, true);
    assert_eq!(d.detached, Some(Host { window: 9, area: 100 }));
    assert_eq!((d.source, d.source_area, d.source_window, d.landed), (Some(3), 100, 9, false));
    let d = skin.tab_drag(5, Some(PanelZone::Dock), 3, 9, false);
    assert_eq!(d.detached, None);
}

#[test]
fn merge_highlights() {
    let skin = DockSkin::new(AreaKind::Main, 9, 100);
    let t = Some(MergeTarget { kind: AreaKind::Main, window: 9, area: 100, spot: MergeSpot::Group { node: 1, placement: Some(Placement::Top) } });
    assert_eq!(skin.merge_overlay(&t, 1), Some(Some(Placement::Top)));
    assert_eq!(skin.merge_overlay(&t, 2), None);
    let elsewhere = Some(MergeTarget { area: 101, ..t.unwrap() });
    assert_eq!(skin.merge_overlay(&elsewhere, 1), None);
    let e = Some(MergeTarget { spot: MergeSpot::EmptyDock(DockPlacement::Left), ..t.unwrap() });
    assert!(skin.empty_dock_merging(&e, DockPlacement::Left));
    assert!(!skin.empty_dock_merging(&e, DockPlacement::Right));
}

#[test]
fn drops_on_empty_regions() {
    let skin = DockSkin::new(AreaKind::Main, 9, 100);
    let mut state = DragModel::new();
    let a = area();
    let mut d = PanelDrag {
        panel: 5,
        source: Some(3),
        source_area: 100,
        source_window: 9,
        zone: Some(PanelZone::Dock),
        detached: None,
        landed: false,
    };
    assert_eq!(skin.empty_dock_drop(&state, &mut d, &a, DockPlacement::Center, 9), Transfer::Nothing);
    assert_eq!(
        skin.empty_dock_drop(&state, &mut d, &a, DockPlacement::Left, 9),
        Transfer::Rearrange(InsertTarget::Split { node: 2, placement: Placement::Right })
    );
    assert_eq!(skin.empty_dock_drop(&state, &mut d, &a, DockPlacement::Left, 9), Transfer::Nothing);
    let mut other = PanelDrag { source_area: 200, source_window: 8, landed: false, ..d };
    assert!(matches!(
        skin.empty_dock_drop(&state, &mut other, &a, DockPlacement::Left, 9),
        Transfer::Relocate { from_area: 200, from_window: 8, here: false, region: DockPlacement::Left, then: None }
    ));
    state.attached_window = Some(1);
    let mut fresh = PanelDrag { landed: false, ..other };
    assert_eq!(skin.empty_dock_drop(&state, &mut fresh, &a, DockPlacement::Left, 9), Transfer::Nothing);
    assert!(!skin.empty_dock_accepts(&state, DockPlacement::Left));
}

#[test]
fn hover_acceptance() {
    let mut state = DragModel::new();
    tab_group_frame(&mut state, PanelZone::Dock, false);
    assert!(state.hovered_group_accepts);
    tab_group_frame(&mut state, PanelZone::Dock, true);
    assert!(!state.hovered_group_accepts);
    state.dragging_zone = Some(PanelZone::Dock);
    tab_group_frame(&mut state, PanelZone::Dock, true);
    assert!(state.hovered_group_accepts);
    assert!(tab_bar_accepts(&state, PanelZone::Dock));
    assert!(!tab_bar_accepts(&state, PanelZone::Canvas));
    let skin = DockSkin::new(AreaKind::Main, 9, 100);
    assert!(skin.empty_dock_accepts(&state, DockPlacement::Left));
    assert!(!skin.empty_dock_accepts(&state, DockPlacement::Center));
    state.attached_window = Some(3);
    tab_group_frame(&mut state, PanelZone::Dock, true);
    assert!(!state.hovered_group_accepts);
}

#[test]
fn group_backgrounds() {
    assert_eq!(group_background(PanelZone::Dock), PANEL);
    assert_eq!(group_background(PanelZone::Canvas), BACKDROP);
    assert_eq!(content_background(PanelZone::Dock, Some(PanelKind::Timeline)), TRACK);
    assert_eq!(content_background(PanelZone::Canvas, Some(PanelKind::Canvas)), CANVAS);
    assert_eq!(content_background(PanelZone::Dock, None), PANEL);
    assert_eq!(content_background(PanelZone::Canvas, None), CANVAS);
}
