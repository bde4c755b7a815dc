//! The window caption buttons that the application draws itself.
//!
//! Only on Windows: macOS draws its own window buttons, and on Linux the
//! windowing layer never reports the control areas back, so the buttons
//! would do nothing there.

use vstd::prelude::*;
use crate::platform::Platform;

verus! {

/// Width of one caption button, in logical pixels.
pub const BUTTON_WIDTH: u32 = 46;
/// Size of a caption glyph.
pub const GLYPH_SIZE: u32 = 10;
/// Background of the close button under the pointer.
pub const CLOSE_HOVER: u32 = 0xe81123;
/// Background of the pressed close button.
pub const CLOSE_ACTIVE: u32 = 0xf1707a;

pub const MINIMIZE: &'static str = "\u{e921}";
pub const MAXIMIZE: &'static str = "\u{e922}";
pub const RESTORE: &'static str = "\u{e923}";
pub const CLOSE: &'static str = "\u{e8bb}";

/// The icon font of Windows 11 (build 22000 and later).
pub const FLUENT_ICONS: &'static str = "Segoe Fluent Icons";
/// The icon font of Windows 10; the glyph code points are the same.
pub const MDL2_ASSETS: &'static str = "Segoe MDL2 Assets";
/// The first Windows build that ships the Fluent icon font.
pub const FLUENT_BUILD: u32 = 22000;

/// What a caption button does when pressed.
#[derive(Clone, Copy, PartialEq, Eq, Structural, Debug)]
pub enum ControlArea {
    Min,
    Max,
    Close,
}

/// One caption button: its element id, control area, glyph, and whether it
/// is the close button (which gets the red hover).
#[derive(Clone, Copy, Debug)]
pub struct CaptionButton {
    pub id: &'static str,
    pub area: ControlArea,
    pub glyph: &'static str,
    pub is_close: bool,
}

/// Whether the application draws its own caption buttons.
pub fn app_draws_caption_buttons(platform: Platform) -> (r: bool)
    ensures
        r == (platform == Platform::Windows),
{
    platform == Platform::Windows
}

/// The room the caption buttons take: three buttons where they are drawn.
pub fn caption_buttons_width(platform: Platform) -> (r: u32)
    ensures
        r == (if platform == Platform::Windows { 3 * BUTTON_WIDTH } else { 0 }),
{
    if app_draws_caption_buttons(platform) {
        BUTTON_WIDTH * 3
    } else {
        0
    }
}

/// The caption buttons, left to right: minimise, maximise (or restore while
/// maximised), close; none where the application does not draw them.
pub fn caption_buttons(platform: Platform, maximized: bool) -> (r: Vec<CaptionButton>)
    ensures
        platform != Platform::Windows ==> r@.len() == 0,
        platform == Platform::Windows ==> {
            &&& r@.len() == 3
            &&& r@[0].area == ControlArea::Min && r@[0].glyph == MINIMIZE && !r@[0].is_close && r@[0].id == "caption-min"
            &&& r@[1].area == ControlArea::Max && r@[1].glyph == (if maximized { RESTORE } else { MAXIMIZE })
                && !r@[1].is_close && r@[1].id == "caption-max"
            &&& r@[2].area == ControlArea::Close && r@[2].glyph == CLOSE && r@[2].is_close && r@[2].id == "caption-close"
        },
{
    let mut row: Vec<CaptionButton> = Vec::new();
    if !app_draws_caption_buttons(platform) {
        return row;
    }
    row.push(CaptionButton { id: "caption-min", area: ControlArea::Min, glyph: MINIMIZE, is_close: false });
    row.push(CaptionButton {
        id: "caption-max",
        area: ControlArea::Max,
        glyph: if maximized { RESTORE } else { MAXIMIZE },
        is_close: false,
    });
    row.push(CaptionButton { id: "caption-close", area: ControlArea::Close, glyph: CLOSE, is_close: true });
    row
}

/// The font of the caption glyphs. On Windows it depends on the build the
/// system reports (`None` where it could not be read): the Fluent icons from
/// build 22000 on, the MDL2 assets before. Elsewhere it is the Fluent name.
pub fn caption_font(platform: Platform, build: Option<u32>) -> (r: &'static str)
    ensures
        r == (if platform == Platform::Windows {
            match build {
                Some(b) => if b >= FLUENT_BUILD { FLUENT_ICONS } else { MDL2_ASSETS },
                None => MDL2_ASSETS,
            }
        } else {
            FLUENT_ICONS
        }),
{
    if platform != Platform::Windows {
        return FLUENT_ICONS;
    }
    match build {
        Some(b) => if b >= FLUENT_BUILD { FLUENT_ICONS } else { MDL2_ASSETS },
        None => MDL2_ASSETS,
    }
}

} // verus!
