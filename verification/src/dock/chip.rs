//! The drag chip: a small label that follows the pointer while a tab is
//! dragged. It is a window of its own, because anything drawn outside a
//! window's bounds needs one.
//!
//! On Windows it is a layered window that is created once and shown and hidden
//! per drag; elsewhere a window is opened per drag and closed afterwards.

use vstd::prelude::*;

verus! {

/// Visibility of the layered chip window.
#[derive(Clone, Copy, PartialEq, Eq, Structural, Debug)]
pub struct LayeredChip {
    pub visible: bool,
}

impl LayeredChip {
    pub fn new() -> (r: Self)
        ensures
            !r.visible,
    {
        LayeredChip { visible: false }
    }

    /// The chip is placed under the pointer; returns whether it has to be
    /// shown too (it was hidden).
    pub fn show(&mut self) -> (r: bool)
        ensures
            r == !old(self).visible,
            final(self).visible,
    {
        let was = self.visible;
        self.visible = true;
        !was
    }

    /// Hides the chip; returns whether the window has to be hidden (it was
    /// shown).
    pub fn dismiss(&mut self) -> (r: bool)
        ensures
            r == old(self).visible,
            !final(self).visible,
    {
        let was = self.visible;
        self.visible = false;
        was
    }
}

/// What showing the per-drag chip asks of the shell.
#[derive(Clone, Copy, PartialEq, Eq, Structural, Debug)]
pub enum ChipShow {
    /// Move the open chip window `0` under the pointer.
    Move(u64),
    /// Open a chip window under the pointer, then report it with
    /// [`WindowedChip::opened`].
    Open,
    /// Nothing to show yet: the chip has no content.
    Nothing,
}

/// The chip that is a window per drag: the window while it is open, and
/// whether its content was given.
#[derive(Clone, Copy, PartialEq, Eq, Structural, Debug)]
pub struct WindowedChip {
    pub window: Option<u64>,
    pub primed: bool,
}

impl WindowedChip {
    pub fn new() -> (r: Self)
        ensures
            r.window is None,
            !r.primed,
    {
        WindowedChip { window: None, primed: false }
    }

    /// The chip's content (title, size) was given.
    pub fn prime(&mut self)
        ensures
            *final(self) == (WindowedChip { primed: true, ..*old(self) }),
    {
        self.primed = true;
    }

    pub fn show_at(&self) -> (r: ChipShow)
        ensures
            r == (match self.window {
                Some(w) => ChipShow::Move(w),
                None => if self.primed { ChipShow::Open } else { ChipShow::Nothing },
            }),
    {
        match self.window {
            Some(w) => ChipShow::Move(w),
            None => if self.primed { ChipShow::Open } else { ChipShow::Nothing },
        }
    }

    /// The chip window `window` was opened.
    pub fn opened(&mut self, window: u64)
        ensures
            *final(self) == (WindowedChip { window: Some(window), ..*old(self) }),
    {
        self.window = Some(window);
    }

    /// Hides the chip: returns the window to close, if one is open.
    pub fn dismiss(&mut self) -> (r: Option<u64>)
        ensures
            r == old(self).window,
            *final(self) == (WindowedChip { window: None, ..*old(self) }),
    {
        let w = self.window;
        self.window = None;
        w
    }

    /// The chip's window, while one is open.
    pub fn window_id(&self) -> (r: Option<u64>)
        ensures
            r == self.window,
    {
        self.window
    }
}

} // verus!
