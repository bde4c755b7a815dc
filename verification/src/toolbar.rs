//! The dock buttons of the macOS titlebar: which button a press came from,
//! which dock it toggles, and the action they are wired to.

use vstd::prelude::*;
use crate::dock::zone::DockPlacement;

verus! {

/// A dock button of the titlebar.
#[derive(Clone, Copy, PartialEq, Eq, Structural, Debug)]
pub enum TitlebarButton {
    LeftDock,
    RightDock,
    BottomDock,
}

/// The button a press came from, by the tag it was given: the buttons sit
/// left, bottom, right in that order.
pub fn button_for_tag(tag: isize) -> (r: Option<TitlebarButton>)
    ensures
        r == (if tag == 0 { Some(TitlebarButton::LeftDock) } else if tag == 1 { Some(TitlebarButton::BottomDock) }
            else if tag == 2 { Some(TitlebarButton::RightDock) } else { None }),
{
    match tag {
        0 => Some(TitlebarButton::LeftDock),
        1 => Some(TitlebarButton::BottomDock),
        2 => Some(TitlebarButton::RightDock),
        _ => None,
    }
}

/// The tag of a button (its position in the row).
pub fn tag_of(button: TitlebarButton) -> (r: isize)
    ensures
        button_for_tag_spec(r) == Some(button),
{
    match button {
        TitlebarButton::LeftDock => 0,
        TitlebarButton::BottomDock => 1,
        TitlebarButton::RightDock => 2,
    }
}

pub open spec fn button_for_tag_spec(tag: isize) -> Option<TitlebarButton> {
    if tag == 0 { Some(TitlebarButton::LeftDock) } else if tag == 1 { Some(TitlebarButton::BottomDock) }
    else if tag == 2 { Some(TitlebarButton::RightDock) } else { None }
}

/// The dock a button toggles.
pub fn dock_for(button: TitlebarButton) -> (r: DockPlacement)
    ensures
        r == (match button {
            TitlebarButton::LeftDock => DockPlacement::Left,
            TitlebarButton::RightDock => DockPlacement::Right,
            TitlebarButton::BottomDock => DockPlacement::Bottom,
        }),
{
    match button {
        TitlebarButton::LeftDock => DockPlacement::Left,
        TitlebarButton::RightDock => DockPlacement::Right,
        TitlebarButton::BottomDock => DockPlacement::Bottom,
    }
}

/// The action the titlebar's dock buttons run; empty until one is set.
pub struct ToolbarSlot<F> {
    pub action: Option<F>,
}

impl<F: Fn(TitlebarButton)> ToolbarSlot<F> {
    /// Every button may be handed to the action.
    pub open spec fn wf(&self) -> bool {
        match self.action {
            Some(f) => forall|b: TitlebarButton| f.requires((b,)),
            None => true,
        }
    }

    pub fn new() -> (r: Self)
        ensures
            r.action is None,
            r.wf(),
    {
        ToolbarSlot { action: None }
    }

    /// Wires the buttons to `action`, replacing any earlier one.
    pub fn set_toolbar_action(&mut self, action: F)
        requires
            forall|b: TitlebarButton| action.requires((b,)),
        ensures
            final(self).action == Some(action),
            final(self).wf(),
    {
        self.action = Some(action);
    }

    /// Runs the action for `button`, where one is set; says whether it ran.
    pub fn run_toolbar_action(&self, button: TitlebarButton) -> (r: bool)
        requires
            self.wf(),
        ensures
            r == (self.action is Some),
            self.action matches Some(f) ==> f.ensures((button,), ()),
    {
        match &self.action {
            Some(action) => {
                action(button);
                true
            },
            None => false,
        }
    }
}

} // verus!
