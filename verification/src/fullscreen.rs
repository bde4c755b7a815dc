//! Keeps a window's titlebar styled for fullscreen while the window is
//! fullscreen, and restored while it is not.
//!
//! Styling can fail while the platform is still setting the window up; a
//! failed attempt asks for another frame and is tried again then. Each attempt
//! is made once per state, until it succeeds or the state changes.

use vstd::prelude::*;

verus! {

/// What to try on the window's titlebar this frame.
#[derive(Clone, Copy, PartialEq, Eq, Structural, Debug)]
pub enum TitlebarStep {
    /// Style the titlebar for fullscreen.
    Style,
    /// Restore the windowed titlebar.
    Restore,
    /// Nothing: the titlebar matches the state already.
    Idle,
}

/// The titlebar bookkeeping of one window.
#[derive(Clone, Copy, PartialEq, Eq, Structural, Debug)]
pub struct FullscreenTitlebar {
    pub fullscreen: bool,
    pub styled: bool,
    pub restored: bool,
}

impl Default for FullscreenTitlebar {
    fn default() -> (r: Self)
        ensures
            r == (FullscreenTitlebar { fullscreen: false, styled: false, restored: false }),
    {
        FullscreenTitlebar { fullscreen: false, styled: false, restored: false }
    }
}

/// The bookkeeping after seeing the window's `fullscreen` state: a change
/// forgets what was done for the previous state.
pub open spec fn spec_seen(t: FullscreenTitlebar, fullscreen: bool) -> FullscreenTitlebar {
    if fullscreen != t.fullscreen {
        FullscreenTitlebar { fullscreen, styled: false, restored: false }
    } else {
        t
    }
}

/// The step due for the bookkeeping `t`.
pub open spec fn spec_step(t: FullscreenTitlebar) -> TitlebarStep {
    if t.fullscreen {
        if t.styled { TitlebarStep::Idle } else { TitlebarStep::Style }
    } else if t.restored {
        TitlebarStep::Idle
    } else {
        TitlebarStep::Restore
    }
}

impl FullscreenTitlebar {
    /// A windowed titlebar that has not been restored yet.
    pub fn new() -> (r: Self)
        ensures
            r == (FullscreenTitlebar { fullscreen: false, styled: false, restored: false }),
    {
        FullscreenTitlebar { fullscreen: false, styled: false, restored: false }
    }

    /// The window is (or is not) fullscreen this frame: returns what to try
    /// on its titlebar.
    pub fn sync(&mut self, fullscreen: bool) -> (r: TitlebarStep)
        ensures
            *final(self) == spec_seen(*old(self), fullscreen),
            r == spec_step(spec_seen(*old(self), fullscreen)),
    {
        if fullscreen != self.fullscreen {
            self.fullscreen = fullscreen;
            self.styled = false;
            self.restored = false;
        }
        if self.fullscreen {
            if self.styled { TitlebarStep::Idle } else { TitlebarStep::Style }
        } else if self.restored {
            TitlebarStep::Idle
        } else {
            TitlebarStep::Restore
        }
    }

    /// Records how the attempted `step` went; returns whether another frame
    /// has to be requested to try again.
    pub fn record(&mut self, step: TitlebarStep, succeeded: bool) -> (r: bool)
        ensures
            step == TitlebarStep::Style ==> *final(self) == (FullscreenTitlebar { styled: succeeded, ..*old(self) }),
            step == TitlebarStep::Restore ==> *final(self) == (FullscreenTitlebar { restored: succeeded, ..*old(self) }),
            step == TitlebarStep::Idle ==> *final(self) == *old(self),
            r == (step != TitlebarStep::Idle && !succeeded),
    {
        match step {
            TitlebarStep::Style => {
                self.styled = succeeded;
                !succeeded
            },
            TitlebarStep::Restore => {
                self.restored = succeeded;
                !succeeded
            },
            TitlebarStep::Idle => false,
        }
    }
}

/// Once the titlebar matches the window's state, further frames in the same
/// state ask for nothing.
pub proof fn lemma_settled_is_idle(t: FullscreenTitlebar, fullscreen: bool)
    requires
        spec_step(spec_seen(t, fullscreen)) != TitlebarStep::Idle,
    ensures ({
        let seen = spec_seen(t, fullscreen);
        let done = if seen.fullscreen {
            FullscreenTitlebar { styled: true, ..seen }
        } else {
            FullscreenTitlebar { restored: true, ..seen }
        };
        &&& spec_seen(done, fullscreen) == done
        &&& spec_step(done) == TitlebarStep::Idle
    }),
{
}

/// Entering or leaving fullscreen always asks for the matching step, whatever
/// was done before.
pub proof fn lemma_change_asks_again(t: FullscreenTitlebar, fullscreen: bool)
    requires
        fullscreen != t.fullscreen,
    ensures
        spec_step(spec_seen(t, fullscreen)) == (if fullscreen { TitlebarStep::Style } else { TitlebarStep::Restore }),
{
}

/// A failed attempt is made again on the next frame in the same state.
pub proof fn lemma_failure_retries(t: FullscreenTitlebar, fullscreen: bool)
    ensures ({
        let seen = spec_seen(t, fullscreen);
        let step = spec_step(seen);
        let failed = if step == TitlebarStep::Style {
            FullscreenTitlebar { styled: false, ..seen }
        } else if step == TitlebarStep::Restore {
            FullscreenTitlebar { restored: false, ..seen }
        } else {
            seen
        };
        spec_step(spec_seen(failed, fullscreen)) == step
    }),
{
}

} // verus!
