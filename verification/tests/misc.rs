use ciart_studio::assets::{starts_with, str_eq, Assets, BUNDLED};
use ciart_studio::caption::{
    app_draws_caption_buttons, caption_buttons, caption_buttons_width, caption_font, ControlArea, CLOSE,
    MAXIMIZE, MINIMIZE, RESTORE,
};
use ciart_studio::color::{bgr, channels, over};
use ciart_studio::dock::chip::{ChipShow, LayeredChip, WindowedChip};
use ciart_studio::dock::zone::{DockPlacement, PanelZone};
use ciart_studio::fullscreen::{FullscreenTitlebar, TitlebarStep};
use ciart_studio::panels::{CanvasPanel, PanelKind};
use ciart_studio::platform::Platform;
use ciart_studio::theme::{CANVAS, PANEL, TRACK};
use ciart_studio::toolbar::{button_for_tag, dock_for, tag_of, TitlebarButton, ToolbarSlot};
use ciart_studio::workspace::{draws_titlebar, initial_layout};
use std::cell::RefCell;
use std::rc::Rc;

fn float_over(color: u32, backdrop: u32) -> u32 {
    let alpha = (color & 0xff) as f32 / 255.;
    let (br, bg, bb) = ((backdrop >> 16) & 0xff, (backdrop >> 8) & 0xff, backdrop & 0xff);
    let (cr, cg, cb) = ((color >> 24) & 0xff, (color >> 16) & 0xff, (color >> 8) & 0xff);
    let mix = |c: u32, b: u32| ((c as f32 * alpha + b as f32 * (1. - alpha)).round() as u32) & 0xff;
    mix(cr, br) << 16 | mix(cg, bg) << 8 | mix(cb, bb)
}

#[test]
fn colour_flattening() {
    assert_eq!(over(0xffffff80, 0x000000), 0x808080);
    assert_eq!(over(0x123456ff, 0xabcdef), 0x123456);
    assert_eq!(over(0x12345600, 0xabcdef), 0xabcdef);
    for alpha in [0u32, 1, 26, 51, 127, 128, 200, 254, 255] {
        for (c, b) in [(0xffffff00u32, 0x262626u32), (0x3d8bfd00, 0x1e1e1e), (0x0000ff00, 0xff0000)] {
            assert_eq!(over(c | alpha, b), float_over(c | alpha, b));
        }
    }
    assert_eq!(bgr(0x123456), 0x563412);
    assert_eq!(bgr(bgr(0xabcdef)), 0xabcdef);
    assert_eq!(bgr(bgr(0x7fabcdef)), 0xabcdef);
    assert_eq!(channels(0x123456), (0x56, 0x34, 0x12));
}

#[test]
fn caption_buttons_on_windows_only() {
    assert!(app_draws_caption_buttons(Platform::Windows));
    assert!(!app_draws_caption_buttons(Platform::MacOs));
    assert_eq!(caption_buttons_width(Platform::Windows), 138);
    assert_eq!(caption_buttons_width(Platform::Linux), 0);
    assert!(caption_buttons(Platform::Linux, false).is_empty());
    let row = caption_buttons(Platform::Windows, false);
    assert_eq!(row.iter().map(|b| b.area).collect::<Vec<_>>(), vec![ControlArea::Min, ControlArea::Max, ControlArea::Close]);
    assert_eq!(row.iter().map(|b| b.glyph).collect::<Vec<_>>(), vec![MINIMIZE, MAXIMIZE, CLOSE]);
    assert_eq!(row.iter().map(|b| b.id).collect::<Vec<_>>(), vec!["caption-min", "caption-max", "caption-close"]);
    assert_eq!(row.iter().map(|b| b.is_close).collect::<Vec<_>>(), vec![false, false, true]);
    assert_eq!(caption_buttons(Platform::Windows, true)[1].glyph, RESTORE);
    assert_eq!(caption_font(Platform::Windows, Some(22000)), "Segoe Fluent Icons");
    assert_eq!(caption_font(Platform::Windows, Some(19045)), "Segoe MDL2 Assets");
    assert_eq!(caption_font(Platform::Windows, None), "Segoe MDL2 Assets");
    assert_eq!(caption_font(Platform::MacOs, None), "Segoe Fluent Icons");
}

#[test]
fn fullscreen_titlebar() {
    let mut t = FullscreenTitlebar::new();
    assert_eq!(t.sync(false), TitlebarStep::Restore);
    assert!(t.record(TitlebarStep::Restore, true) == false);
    assert_eq!(t.sync(false), TitlebarStep::Idle);
    assert_eq!(t.sync(true), TitlebarStep::Style);
    assert!(t.record(TitlebarStep::Style, false));
    assert_eq!(t.sync(true), TitlebarStep::Style);
    assert!(!t.record(TitlebarStep::Style, true));
    assert_eq!(t.sync(true), TitlebarStep::Idle);
    assert_eq!(t.sync(false), TitlebarStep::Restore);
    assert!(!t.record(TitlebarStep::Idle, false));
}

#[test]
fn panel_kinds() {
    assert_eq!(PanelKind::Canvas.background(), CANVAS);
    assert_eq!(PanelKind::Timeline.background(), TRACK);
    for k in [PanelKind::Project, PanelKind::ColorPicker, PanelKind::Palette] {
        assert_eq!(k.background(), PANEL);
    }
    let names: Vec<_> = [PanelKind::Project, PanelKind::Canvas, PanelKind::Timeline, PanelKind::ColorPicker, PanelKind::Palette]
        .iter()
        .map(|k| k.name())
        .collect();
    assert_eq!(names, vec!["Project", "Canvas", "Timeline", "ColorPicker", "Palette"]);
}

#[test]
fn canvas_zoom_and_playback() {
    let mut c = CanvasPanel::new();
    assert_eq!(c.zoom_label(), "100%");
    assert_eq!(c.sprite_size(), 256);
    let mut seen = vec![];
    for _ in 0..5 {
        c.cycle_zoom();
        seen.push(c.zoom);
    }
    assert_eq!(seen, vec![200, 400, 800, 50, 100]);
    c.cycle_zoom();
    c.cycle_zoom();
    c.cycle_zoom();
    assert_eq!(c.zoom_label(), "800%");
    assert_eq!(c.sprite_size(), 2048);
    c.cycle_zoom();
    assert_eq!(c.zoom_label(), "50%");
    assert_eq!(c.sprite_size(), 128);
    c.toggle_play();
    assert!(c.playing);
    c.toggle_play();
    assert!(!c.playing);
}

#[test]
fn sprite_size_at_any_zoom() {
    let mut c = CanvasPanel::new();
    c.zoom = 4_000_000_000;
    assert_eq!(c.sprite_size(), 10_240_000_000);
    c.zoom = 0;
    assert_eq!(c.sprite_size(), 0);
}

#[test]
fn bundled_assets() {
    let a = Assets;
    assert_eq!(a.load("images/sprite.png"), Some(9));
    assert_eq!(a.load("icons/eye.svg"), Some(1));
    assert_eq!(a.load("icons/missing.svg"), None);
    assert_eq!(a.load("icons/eye"), None);
    assert_eq!(a.list("images/"), vec!["images/hue_ring.png", "images/sprite.png"]);
    assert_eq!(a.list("icons/eye"), vec!["icons/eye.svg", "icons/eye_off.svg"]);
    assert_eq!(a.list(""), BUNDLED.to_vec());
    assert!(a.list("sounds/").is_empty());
    for name in a.list("") {
        assert!(a.load(name).is_some());
    }
    assert!(str_eq("abc", "abc") && !str_eq("abc", "abd") && !str_eq("ab", "abc"));
    assert!(starts_with("abc", "") && starts_with("abc", "ab") && !starts_with("ab", "abc"));
}

#[test]
fn toolbar_buttons() {
    assert_eq!(button_for_tag(0), Some(TitlebarButton::LeftDock));
    assert_eq!(button_for_tag(1), Some(TitlebarButton::BottomDock));
    assert_eq!(button_for_tag(2), Some(TitlebarButton::RightDock));
    assert_eq!(button_for_tag(3), None);
    assert_eq!(button_for_tag(-1), None);
    for b in [TitlebarButton::LeftDock, TitlebarButton::RightDock, TitlebarButton::BottomDock] {
        assert_eq!(button_for_tag(tag_of(b)), Some(b));
    }
    assert_eq!(dock_for(TitlebarButton::LeftDock), DockPlacement::Left);
    assert_eq!(dock_for(TitlebarButton::RightDock), DockPlacement::Right);
    assert_eq!(dock_for(TitlebarButton::BottomDock), DockPlacement::Bottom);

    let pressed = Rc::new(RefCell::new(Vec::new()));
    let mut slot = ToolbarSlot::new();
    assert!(!slot.run_toolbar_action(TitlebarButton::LeftDock));
    let log = pressed.clone();
    slot.set_toolbar_action(move |b| log.borrow_mut().push(b));
    assert!(slot.run_toolbar_action(TitlebarButton::RightDock));
    assert_eq!(*pressed.borrow(), vec![TitlebarButton::RightDock]);
}

#[test]
fn starting_layout() {
    let l = initial_layout();
    assert_eq!((l.center.kind, l.center.title, l.center.zone), (PanelKind::Canvas, "Hello", PanelZone::Canvas));
    assert_eq!(l.center.panel_name(), "Canvas");
    assert_eq!((l.left.kind, l.left.title, l.left_size), (PanelKind::Project, "Project", 300));
    assert_eq!((l.right_top.title, l.right_top_size, l.right_bottom.title, l.right_size), ("Color Picker", 320, "Palette", 300));
    assert_eq!((l.bottom.kind, l.bottom_size), (PanelKind::Timeline, 245));
    for p in [l.left, l.right_top, l.right_bottom, l.bottom] {
        assert_eq!(p.zone, PanelZone::Dock);
    }
}

#[test]
fn chips() {
    let mut c = LayeredChip::new();
    assert!(c.show());
    assert!(!c.show());
    assert!(c.dismiss());
    assert!(!c.dismiss());
    let mut w = WindowedChip::new();
    assert_eq!(w.show_at(), ChipShow::Nothing);
    w.prime();
    assert_eq!(w.show_at(), ChipShow::Open);
    w.opened(4);
    assert_eq!(w.show_at(), ChipShow::Move(4));
    assert_eq!(w.window_id(), Some(4));
    assert_eq!(w.dismiss(), Some(4));
    assert_eq!(w.dismiss(), None);
    assert_eq!(w.window_id(), None);
}

#[test]
fn titlebar_everywhere_but_macos() {
    assert!(draws_titlebar(Platform::Windows));
    assert!(draws_titlebar(Platform::Linux));
    assert!(!draws_titlebar(Platform::MacOs));
}
