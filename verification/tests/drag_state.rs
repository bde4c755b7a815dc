use ciart_studio::dock::drag::{settle_landing, ChipMove, DragModel, MoveEnd, PreviewStart, Spare, TrackAction};
use ciart_studio::dock::dropping::{Host, PanelDrag};
use ciart_studio::dock::target::{AreaEntry, MergeSpot};
use ciart_studio::dock::windows::{
    detached_area_event, main_area_event, AreaEvent, DetachedAction, MainAction,
};
use ciart_studio::dock::zone::{AreaKind, DockPlacement, PanelZone};
use ciart_studio::platform::Platform;

fn model_with_areas() -> DragModel {
    let mut m = DragModel::new();
    m.register_area(AreaEntry { kind: AreaKind::Main, window: 1, area: 10 }, &vec![]);
    m.register_area(AreaEntry { kind: AreaKind::Detached(PanelZone::Dock), window: 2, area: 20 }, &vec![true]);
    m
}

fn drag(detached: Option<Host>) -> PanelDrag {
    PanelDrag {
        panel: 5,
        source: Some(3),
        source_area: 10,
        source_window: 1,
        zone: Some(PanelZone::Dock),
        detached,
        landed: false,
    }
}

#[test]
fn register_drops_dead_areas() {
    let mut m = model_with_areas();
    m.register_area(AreaEntry { kind: AreaKind::Main, window: 3, area: 30 }, &vec![false, true]);
    assert_eq!(m.areas.iter().map(|e| e.area).collect::<Vec<_>>(), vec![20, 30]);
}

#[test]
fn window_drag_masks_over_target_and_unmasks_off_it() {
    let mut m = model_with_areas();
    let d = drag(Some(Host { window: 2, area: 20 }));
    assert_eq!(m.start_drag_preview(Some(PanelZone::Dock), &d), PreviewStart::Window { window: 2 });
    assert!(m.window_drag_active());
    assert!(m.is_dragged_window(2));
    let over = vec![Some(MergeSpot::EmptyDock(DockPlacement::Left)), Some(MergeSpot::EmptyDock(DockPlacement::Left))];
    let f = m.window_dragged_at(Platform::MacOs, 2, &over);
    assert_eq!(f.refresh, vec![1]);
    assert_eq!(f.chip, ChipMove::Follow);
    assert_eq!(f.mask, Some(true));
    assert!(m.hidden);
    let f = m.window_dragged_at(Platform::MacOs, 2, &over);
    assert!(f.refresh.is_empty());
    assert_eq!(f.mask, None);
    let off = vec![None, None];
    let f = m.window_dragged_at(Platform::MacOs, 2, &off);
    assert_eq!(f.refresh, vec![1]);
    assert_eq!(f.chip, ChipMove::Hide);
    assert_eq!(f.mask, Some(false));
    assert!(!m.hidden);
    let f = m.window_dragged_at(Platform::MacOs, 2, &off);
    assert_eq!(f.chip, ChipMove::Keep);
    assert_eq!(f.mask, None);
    assert!(f.follow);
    assert!(!m.window_dragged_at(Platform::Windows, 2, &off).follow);
    assert!(!m.window_dragged_at(Platform::Linux, 2, &off).follow);
    m.handed_off = true;
    assert!(!m.window_dragged_at(Platform::MacOs, 2, &off).follow);
}

#[test]
fn window_moves_are_followed_by_poll_on_macos() {
    let mut m = model_with_areas();
    m.attached_window = Some(2);
    let spots = vec![None, None];
    assert!(m.window_dragged(Platform::MacOs, 2, &spots).is_none());
    assert!(m.window_dragged(Platform::Windows, 3, &spots).is_none());
    let f = m.window_dragged(Platform::Windows, 2, &spots).expect("the carried window moved");
    assert!(!f.follow);
}

#[test]
fn handoff_after_twelve_still_samples() {
    let mut m = DragModel::new();
    for _ in 0..11 {
        assert!(!m.consider_handoff(true));
    }
    assert!(m.consider_handoff(true));
    assert!(m.handed_off);
    let mut m = DragModel::new();
    for _ in 0..5 {
        m.consider_handoff(true);
    }
    assert!(!m.consider_handoff(false));
    assert_eq!(m.still_ticks, 0);
    m.hidden = true;
    assert!(!m.consider_handoff(true));
    assert_eq!(m.still_ticks, 0);
}

#[test]
fn poll_starts_once_on_macos_only() {
    let mut m = DragModel::new();
    assert!(!m.start_drag_poll(Platform::Windows));
    assert!(m.start_drag_poll(Platform::MacOs));
    assert!(!m.start_drag_poll(Platform::MacOs));
    m.poll_stopped();
    assert!(m.start_drag_poll(Platform::MacOs));
}

#[test]
fn move_end_of_dragged_window() {
    let mut m = DragModel::new();
    assert_eq!(m.window_move_ended(4), MoveEnd::Ignore);
    m.attached_window = Some(4);
    m.hidden = true;
    assert_eq!(m.window_move_ended(4), MoveEnd::Stop { unmask: true });
    assert!(!m.hidden);
    assert_eq!(m.window_move_ended(4), MoveEnd::Stop { unmask: false });
}

#[test]
fn track_chip_then_tear_off() {
    let mut m = model_with_areas();
    let mut d = drag(None);
    assert_eq!(m.start_drag_preview(Some(PanelZone::Dock), &d), PreviewStart::Chip);
    let spots = vec![None, None];
    match m.track(Platform::Windows, &d, &spots, true, true) {
        TrackAction::Chip { refresh, prepare_spare } => {
            assert!(refresh.is_empty());
            assert!(!prepare_spare);
        }
        _ => panic!("expected the chip to follow"),
    }
    match m.track(Platform::Windows, &d, &spots, false, false) {
        TrackAction::TearOff { prepare_spare, .. } => assert!(prepare_spare),
        _ => panic!("expected a tear-off"),
    }
    // a spare is being prepared: no second request
    match m.track(Platform::Windows, &d, &spots, false, false) {
        TrackAction::TearOff { prepare_spare, .. } => assert!(!prepare_spare),
        _ => panic!("expected a tear-off"),
    }
    assert!(m.torn_off(&mut d, Host { window: 8, area: 80 }, Platform::Windows) == false);
    assert_eq!(d.detached, Some(Host { window: 8, area: 80 }));
    assert_eq!(m.attached_window, Some(8));
    assert!(matches!(m.track(Platform::Windows, &d, &spots, false, false), TrackAction::Window(_)));
}

#[test]
fn panel_of_no_zone_is_never_torn_off() {
    let mut m = DragModel::new();
    let d = PanelDrag { zone: None, ..drag(None) };
    assert!(matches!(m.track(Platform::Windows, &d, &vec![], false, true), TrackAction::Chip { .. }));
}

#[test]
fn spares_pool() {
    let mut m = DragModel::new();
    assert!(m.has_spare_for(None));
    assert!(!m.has_spare_for(Some(PanelZone::Dock)));
    assert!(m.wants_spare(Platform::Windows, Some(PanelZone::Dock)));
    assert!(!m.wants_spare(Platform::Linux, Some(PanelZone::Dock)));
    assert!(!m.wants_spare(Platform::Windows, None));
    m.add_spare(Spare { window: 1, area: 11, zone: PanelZone::Canvas });
    m.add_spare(Spare { window: 2, area: 12, zone: PanelZone::Dock });
    assert!(!m.wants_spare(Platform::Windows, Some(PanelZone::Dock)));
    assert_eq!(m.take_spare(PanelZone::Dock).map(|s| s.window), Some(2));
    assert_eq!(m.spares.len(), 1);
    assert!(!m.has_spare_for(Some(PanelZone::Dock)));
    assert!(m.wants_spare(Platform::Windows, Some(PanelZone::Dock)));
    m.add_spare(Spare { window: 3, area: 13, zone: PanelZone::Dock });
    assert!(m.has_spare_for(Some(PanelZone::Dock)));
    assert_eq!(m.spares.len(), 2);
    assert_eq!(m.close_spare_if_last(&vec![1, 3, 9]).len(), 0);
    assert_eq!(m.close_spare_if_last(&vec![1, 3]).len(), 2);
    assert!(m.spares.is_empty());
    assert!(m.take_spare(PanelZone::Canvas).is_none());
    assert_eq!(m.close_spare_if_last(&vec![]).len(), 0);
}

#[test]
fn prepare_spare_off_path_once_per_frame() {
    let mut m = DragModel::new();
    assert!(m.prepare_spare_off_path(Some(PanelZone::Canvas)));
    assert!(!m.prepare_spare_off_path(Some(PanelZone::Canvas)));
    m.spare_frame();
    m.add_spare(Spare { window: 1, area: 2, zone: PanelZone::Canvas });
    assert!(!m.prepare_spare_off_path(Some(PanelZone::Canvas)));
}

#[test]
fn idle_generations() {
    let mut m = DragModel::new();
    let first = m.release_idle_spares();
    assert!(m.idle_expired(first));
    let second = m.release_idle_spares();
    assert!(!m.idle_expired(first));
    assert!(m.idle_expired(second));
}

#[test]
fn finishing_a_drag() {
    let mut m = model_with_areas();
    m.main_window = Some(1);
    let d = drag(Some(Host { window: 2, area: 20 }));
    m.start_drag_preview(Some(PanelZone::Dock), &d);
    let over = vec![Some(MergeSpot::EmptyDock(DockPlacement::Left)), None];
    m.window_dragged_at(Platform::MacOs, 2, &over);
    let f = m.finish_drag_preview();
    assert_eq!(f.refresh, vec![1, 2]);
    assert!(f.refill);
    let landing = f.landing.expect("a drag was in progress");
    assert_eq!(landing.target.map(|t| t.area), Some(10));
    assert_eq!(landing.restore, Some(2));
    assert_eq!(landing.attached, Some(2));
    assert!(!m.dragging && !m.hidden && m.merge_target.is_none() && m.attached_window.is_none());
    let s = settle_landing(&landing, true, false);
    assert_eq!((s.unmask, s.activate), (Some(2), None));
    let s = settle_landing(&landing, false, true);
    assert_eq!((s.unmask, s.activate), (None, Some(2)));
    let again = m.finish_drag_preview();
    assert!(again.landing.is_none());
    assert!(!again.refill);
    assert!(!m.idle_expired(f.idle_generation));
}

#[test]
fn detached_windows() {
    let mut m = DragModel::new();
    let p = m.open_detached(PanelZone::Canvas, true, true);
    assert_eq!((p.id, p.home, p.at_cursor, p.insert), (0, DockPlacement::Center, true, true));
    assert_eq!(p.kind, AreaKind::Detached(PanelZone::Canvas));
    let p = m.open_detached(PanelZone::Dock, true, false);
    assert_eq!((p.id, p.home, p.at_cursor, p.insert), (1, DockPlacement::Left, false, false));
    assert!(m.close_detached(PanelZone::Dock, true, vec![4]).is_none());
    m.main_area = Some(10);
    m.main_window = Some(1);
    let h = m.close_detached(PanelZone::Dock, true, vec![4, 5]).unwrap();
    assert_eq!((h.window, h.area, h.placement, h.panels), (1, 10, DockPlacement::Left, vec![4, 5]));
    assert!(m.close_detached(PanelZone::Dock, false, vec![4]).is_none());
    assert!(m.close_detached(PanelZone::Dock, true, vec![]).is_none());
}

#[test]
fn area_events() {
    assert_eq!(detached_area_event(AreaEvent::LayoutChanged, true, true, false), DetachedAction::Close);
    assert_eq!(detached_area_event(AreaEvent::LayoutChanged, false, true, false), DetachedAction::Ignore);
    assert_eq!(detached_area_event(AreaEvent::LayoutChanged, true, false, false), DetachedAction::Ignore);
    assert_eq!(detached_area_event(AreaEvent::DragDrop, true, true, true), DetachedAction::Ignore);
    assert_eq!(detached_area_event(AreaEvent::DragDrop, true, true, false), DetachedAction::Drop);
    assert_eq!(main_area_event(AreaEvent::LayoutChanged, true), MainAction::SyncEmptyRegions);
    assert_eq!(main_area_event(AreaEvent::DragDrop, true), MainAction::Ignore);
    assert_eq!(main_area_event(AreaEvent::DragDrop, false), MainAction::Drop);
}

#[test]
fn own_windows_exclude_source_chip_and_spares() {
    let mut m = DragModel::new();
    m.add_spare(Spare { window: 7, area: 70, zone: PanelZone::Dock });
    assert!(m.over_own_window(true, 1, None, &vec![], &vec![]));
    assert!(!m.over_own_window(false, 1, Some(5), &vec![1, 5, 7], &vec![true, true, true]));
    assert!(m.over_own_window(false, 1, Some(5), &vec![1, 5, 7, 9], &vec![true, true, true, true]));
    assert!(!m.over_own_window(false, 1, Some(5), &vec![9], &vec![false]));
}
