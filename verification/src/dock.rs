//! The docking model: zones, regions, the drop rules, hit testing and the
//! drag state machine.

pub mod zone;
pub mod layout;
pub mod dropping;
pub mod target;
pub mod drag;
pub mod skin;
pub mod windows;
pub mod chip;
