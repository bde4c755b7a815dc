//! Verified core of the Ciart Studio workspace: the docking rules that decide
//! where a dragged panel may land, the drag/tear-off state machine, the
//! fullscreen titlebar bookkeeping, and the small pure helpers (colour
//! flattening, resource-script text, caption buttons, asset lookup) that the
//! windowing shell around it relies on.
//!
//! Everything that needs a window, a renderer or a platform call lives outside
//! this crate; it hands the library plain values and performs what the
//! library decides.

pub mod platform;
pub mod dock;
pub mod text;
pub mod resource;
pub mod color;
pub mod caption;
pub mod fullscreen;
pub mod theme;
pub mod panels;
pub mod toolbar;
pub mod assets;
pub mod workspace;
