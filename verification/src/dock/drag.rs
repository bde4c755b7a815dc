//! The drag state shared by every dock area of the application: which panel
//! zone is being dragged, the window a torn-off panel lives in while it
//! follows the pointer, the merge target under the pointer, the masking of
//! the dragged window over a target, the hand-off of the move to the
//! platform, and the pool of spare windows kept ready for a tear-off.
//!
//! Every method here is a decision: it updates the state and says what the
//! shell has to do to windows, chip and dock areas.

use vstd::prelude::*;
use crate::platform::Platform;
use crate::dock::zone::PanelZone;
use crate::dock::dropping::{Host, PanelDrag};
use crate::dock::target::{AreaEntry, MergeSpot, MergeTarget, pick_target, resolve_merge_target};

verus! {

/// How many consecutive still samples hand a window move over to the platform.
pub const HANDOFF_TICKS: u32 = 12;

/// A spare window: opened hidden ahead of a tear-off so that the panel can be
/// shown in it without waiting for a new window.
#[derive(Clone, Copy, PartialEq, Eq, Structural, Debug)]
pub struct Spare {
    pub window: u64,
    pub area: u64,
    pub zone: PanelZone,
}

/// What happens to the drag chip this frame.
#[derive(Clone, Copy, PartialEq, Eq, Structural, Debug)]
pub enum ChipMove {
    /// Show it (or keep it shown) under the pointer.
    Follow,
    /// Hide it.
    Hide,
    /// Leave it as it is.
    Keep,
}

/// What a step of a window drag asks of the shell: the windows to repaint,
/// the chip, whether to mask (`Some(true)`) or unmask (`Some(false)`) the
/// dragged window, and whether the library itself should move the dragged
/// window under the pointer: only on macOS, until the move is handed over to
/// the platform (elsewhere the platform's own move loop carries the window).
pub struct DragFrame {
    pub refresh: Vec<u64>,
    pub chip: ChipMove,
    pub mask: Option<bool>,
    pub follow: bool,
}

/// What a pointer move during a tab drag asks of the shell.
pub enum TrackAction {
    /// The panel already has its own window: it follows the pointer.
    Window(DragFrame),
    /// The chip follows the pointer.
    Chip { refresh: Vec<u64>, prepare_spare: bool },
    /// Tear the panel off into a window of its own; the chip is hidden.
    TearOff { refresh: Vec<u64>, prepare_spare: bool },
}

/// What to do once the drag ends, after the merge (if any) was carried out.
pub struct Landing {
    /// The target to merge into.
    pub target: Option<MergeTarget>,
    /// The masked window to reveal again, unless it is closing.
    pub restore: Option<u64>,
    /// The window the panel was carried in.
    pub attached: Option<u64>,
}

/// What ending a drag asks of the shell.
pub struct Finish {
    /// Windows to repaint.
    pub refresh: Vec<u64>,
    /// The generation to hand to [`DragModel::idle_expired`] once the idle
    /// period is over.
    pub idle_generation: u64,
    /// Whether to prepare a spare window again for the dragged panel.
    pub refill: bool,
    /// `None` where no drag was in progress.
    pub landing: Option<Landing>,
}

/// The shared drag state.
pub struct DragModel {
    pub main_area: Option<u64>,
    pub main_window: Option<u64>,
    pub dragging_zone: Option<PanelZone>,
    pub hovered_group_accepts: bool,
    pub attached_window: Option<u64>,
    pub next_window_id: usize,
    pub areas: Vec<AreaEntry>,
    pub dragging: bool,
    pub merge_target: Option<MergeTarget>,
    pub hidden: bool,
    pub poll_running: bool,
    pub handed_off: bool,
    pub still_ticks: u32,
    pub spares: Vec<Spare>,
    pub spares_used: u64,
    pub spare_pending: bool,
}

/// The entries whose area is still alive (`live[i]` for `areas[i]`), in order.
pub open spec fn keep_live(areas: Seq<AreaEntry>, live: Seq<bool>) -> Seq<AreaEntry>
    decreases areas.len(),
{
    if areas.len() == 0 {
        Seq::empty()
    } else {
        let rest = keep_live(areas.drop_last(), live);
        if live[areas.len() - 1] {
            rest.push(areas.last())
        } else {
            rest
        }
    }
}

/// The windows to repaint when the merge target moves from `prev` to `next`:
/// none when it stays on the same spot, else the previous target's window
/// and then the next one's.
pub open spec fn spec_refresh(prev: Option<MergeTarget>, next: Option<MergeTarget>) -> Seq<u64> {
    if spec_unchanged(prev, next) {
        Seq::empty()
    } else {
        (match prev {
            Some(t) => seq![t.window],
            None => Seq::empty(),
        }) + (match next {
            Some(t) => seq![t.window],
            None => Seq::empty(),
        })
    }
}

pub open spec fn spec_unchanged(prev: Option<MergeTarget>, next: Option<MergeTarget>) -> bool {
    match (prev, next) {
        (Some(p), Some(n)) => p.spec_same_spot(n),
        (None, None) => true,
        _ => false,
    }
}

/// The merge target after moving to `next`: unchanged when on the same spot.
pub open spec fn spec_moved_target(prev: Option<MergeTarget>, next: Option<MergeTarget>) -> Option<MergeTarget> {
    if spec_unchanged(prev, next) { prev } else { next }
}

/// No two spare windows stand ready for the same zone.
pub open spec fn spares_unique(spares: Seq<Spare>) -> bool {
    forall|i: int, j: int|
        #![trigger spares[i], spares[j]]
        0 <= i < j < spares.len() ==> spares[i].zone != spares[j].zone
}

/// Whether `window` is one of the spare windows.
pub open spec fn is_spare_window(spares: Seq<Spare>, window: u64) -> bool {
    exists|j: int| 0 <= j < spares.len() && (#[trigger] spares[j]).window == window
}

/// The chip during a window drag: it follows the pointer over a target, and
/// is hidden when the window comes off a target.
pub open spec fn spec_chip(hidden: bool, target: Option<MergeTarget>) -> ChipMove {
    if target is Some { ChipMove::Follow } else if hidden { ChipMove::Hide } else { ChipMove::Keep }
}

/// The masking of the dragged window: masked on reaching a target, unmasked
/// on leaving one.
pub open spec fn spec_mask(hidden: bool, target: Option<MergeTarget>) -> Option<bool> {
    if target is Some {
        if hidden { None } else { Some(true) }
    } else if hidden {
        Some(false)
    } else {
        None
    }
}

impl DragModel {
    /// Holds between calls: the still counter never passes the hand-off
    /// threshold, and is below it until the move is handed off; and the pool
    /// holds at most one spare window per zone.
    pub open spec fn wf(self) -> bool {
        &&& self.still_ticks <= HANDOFF_TICKS
        &&& !self.handed_off ==> self.still_ticks < HANDOFF_TICKS
        &&& spares_unique(self.spares@)
    }

    pub fn new() -> (r: Self)
        ensures
            r.wf(),
            r.main_area is None,
            r.main_window is None,
            r.dragging_zone is None,
            r.hovered_group_accepts,
            r.attached_window is None,
            r.next_window_id == 0,
            r.areas@.len() == 0,
            !r.dragging,
            r.merge_target is None,
            !r.hidden,
            !r.poll_running,
            !r.handed_off,
            r.still_ticks == 0,
            r.spares@.len() == 0,
            r.spares_used == 0,
            !r.spare_pending,
    {
        DragModel {
            main_area: None,
            main_window: None,
            dragging_zone: None,
            hovered_group_accepts: true,
            attached_window: None,
            next_window_id: 0,
            areas: Vec::new(),
            dragging: false,
            merge_target: None,
            hidden: false,
            poll_running: false,
            handed_off: false,
            still_ticks: 0,
            spares: Vec::new(),
            spares_used: 0,
            spare_pending: false,
        }
    }

    /// Registers a dock area, dropping the entries whose area has gone
    /// (`live[i]` tells whether `areas[i]` is still alive).
    pub fn register_area(&mut self, entry: AreaEntry, live: &Vec<bool>)
        requires
            live@.len() == old(self).areas@.len(),
        ensures
            final(self).areas@ == keep_live(old(self).areas@, live@).push(entry),
            *final(self) == (DragModel { areas: final(self).areas, ..*old(self) }),
    {
        let mut kept: Vec<AreaEntry> = Vec::new();
        let mut i: usize = 0;
        assert(self.areas@.take(0) =~= Seq::<AreaEntry>::empty());
        while i < self.areas.len()
            invariant
                0 <= i <= self.areas@.len(),
                live@.len() == self.areas@.len(),
                kept@ == keep_live(self.areas@.take(i as int), live@),
            decreases self.areas@.len() - i,
        {
            assert(self.areas@.take(i + 1).drop_last() =~= self.areas@.take(i as int));
            if live[i] {
                kept.push(self.areas[i]);
            }
            i = i + 1;
        }
        assert(self.areas@.take(i as int) =~= self.areas@);
        kept.push(entry);
        self.areas = kept;
    }

    /// Whether a drag of `zone` panels is in progress.
    pub fn drag_accepted(&self, zone: PanelZone) -> (r: bool)
        ensures
            r == (self.dragging_zone == Some(zone)),
    {
        match self.dragging_zone {
            Some(z) => z == zone,
            None => false,
        }
    }

    /// Whether `window` is the torn-off window following the pointer.
    pub fn is_dragged_window(&self, window: u64) -> (r: bool)
        ensures
            r == (self.attached_window == Some(window)),
    {
        match self.attached_window {
            Some(w) => w == window,
            None => false,
        }
    }

    /// Whether a torn-off window is following the pointer.
    pub fn window_drag_active(&self) -> (r: bool)
        ensures
            r == (self.attached_window is Some),
    {
        self.attached_window.is_some()
    }

    /// Moves the merge target to `next` and says which windows to repaint.
    pub fn update_merge_target(&mut self, next: Option<MergeTarget>) -> (r: Vec<u64>)
        ensures
            r@ == spec_refresh(old(self).merge_target, next),
            *final(self) == (DragModel { merge_target: spec_moved_target(old(self).merge_target, next), ..*old(self) }),
    {
        let unchanged = match (&self.merge_target, &next) {
            (Some(prev), Some(n)) => prev.same_spot(n),
            (None, None) => true,
            _ => false,
        };
        let mut touched: Vec<u64> = Vec::new();
        if unchanged {
            return touched;
        }
        if let Some(prev) = &self.merge_target {
            touched.push(prev.window);
        }
        if let Some(n) = &next {
            touched.push(n.window);
        }
        proof {
            let a: Seq<u64> = match old(self).merge_target { Some(t) => seq![t.window], None => Seq::empty() };
            let b: Seq<u64> = match next { Some(t) => seq![t.window], None => Seq::empty() };
            assert(touched@ =~= a + b);
        }
        self.merge_target = next;
        touched
    }

    /// One step of a window drag on `platform`: `window` (the dragged window)
    /// is over the spots `spots[i]` of the registered areas `areas[i]`.
    pub fn window_dragged_at(&mut self, platform: Platform, window: u64, spots: &Vec<Option<MergeSpot>>) -> (r: DragFrame)
        requires
            spots@.len() == old(self).areas@.len(),
        ensures ({
            let next = pick_target(old(self).areas@, spots@, Some(window));
            let moved = spec_moved_target(old(self).merge_target, next);
            &&& r.refresh@ == spec_refresh(old(self).merge_target, next)
            &&& final(self).merge_target == moved
            &&& r.chip == spec_chip(old(self).hidden, moved)
            &&& r.mask == spec_mask(old(self).hidden, moved)
            &&& r.follow == (platform == Platform::MacOs && !old(self).handed_off)
            &&& *final(self) == (DragModel { merge_target: moved, hidden: moved is Some, ..*old(self) })
        }),
    {
        let next = resolve_merge_target(&self.areas, spots, Some(window));
        let refresh = self.update_merge_target(next);
        let (chip, mask) = if self.merge_target.is_some() {
            let was_hidden = self.hidden;
            self.hidden = true;
            (ChipMove::Follow, if was_hidden { None } else { Some(true) })
        } else if self.hidden {
            self.hidden = false;
            (ChipMove::Hide, Some(false))
        } else {
            (ChipMove::Keep, None)
        };
        let follow = platform == Platform::MacOs && !self.handed_off;
        DragFrame { refresh, chip, mask, follow }
    }
}

/// How a tab drag starts: with the panel already alone in its own window
/// (which then follows the pointer), or with the chip following the pointer.
#[derive(Clone, Copy, PartialEq, Eq, Structural, Debug)]
pub enum PreviewStart {
    /// Hide the chip and move `window` with the pointer.
    Window { window: u64 },
    /// Show the chip under the pointer.
    Chip,
}

/// What the end of a platform window move asks of the shell.
#[derive(Clone, Copy, PartialEq, Eq, Structural, Debug)]
pub enum MoveEnd {
    /// Not the dragged window: nothing to do.
    Ignore,
    /// End the active drag, revealing the window first when `unmask`.
    Stop { unmask: bool },
}

/// What the deferred end of a drag does once the merge was tried: `unmask`
/// the restored window unless the window is closing, and `activate` the
/// carried window unless the panel landed elsewhere.
#[derive(Clone, Copy, PartialEq, Eq, Structural, Debug)]
pub struct Settle {
    pub unmask: Option<u64>,
    pub activate: Option<u64>,
}

impl DragModel {
    /// Whether a pointer poll has to be started for a carried window. On
    /// macOS the window does not report its own moves, so a single poll runs
    /// while a window is carried; elsewhere no poll is needed.
    pub fn start_drag_poll(&mut self, platform: Platform) -> (r: bool)
        ensures
            r == (platform == Platform::MacOs && !old(self).poll_running),
            *final(self) == (DragModel {
                poll_running: old(self).poll_running || platform == Platform::MacOs,
                ..*old(self)
            }),
    {
        if platform != Platform::MacOs {
            return false;
        }
        let running = self.poll_running;
        self.poll_running = true;
        !running
    }

    /// The poll has stopped.
    pub fn poll_stopped(&mut self)
        ensures
            *final(self) == (DragModel { poll_running: false, ..*old(self) }),
    {
        self.poll_running = false;
    }

    /// A tab drag of a panel of `zone` starts; `drag` is what it carries.
    pub fn start_drag_preview(&mut self, zone: Option<PanelZone>, drag: &PanelDrag) -> (r: PreviewStart)
        ensures
            r == (match drag.detached {
                Some(host) => PreviewStart::Window { window: host.window },
                None => PreviewStart::Chip,
            }),
            *final(self) == (DragModel {
                dragging_zone: zone,
                dragging: true,
                attached_window: match drag.detached {
                    Some(host) => Some(host.window),
                    None => old(self).attached_window,
                },
                ..*old(self)
            }),
    {
        self.dragging_zone = zone;
        self.dragging = true;
        match drag.detached {
            Some(host) => {
                self.attached_window = Some(host.window);
                PreviewStart::Window { window: host.window }
            },
            None => PreviewStart::Chip,
        }
    }

    /// On macOS, with a window carried and the platform not yet moving it:
    /// counts the samples in which the pointer stood still (`still`) over no
    /// target with the window shown, and says when to hand the move over to
    /// the platform.
    pub fn consider_handoff(&mut self, still: bool) -> (r: bool)
        requires
            old(self).wf(),
            !old(self).handed_off,
        ensures
            final(self).wf(),
            !still || old(self).hidden || old(self).merge_target is Some ==> {
                &&& !r
                &&& *final(self) == (DragModel { still_ticks: 0, ..*old(self) })
            },
            still && !old(self).hidden && old(self).merge_target is None ==> {
                &&& r == (old(self).still_ticks + 1 >= HANDOFF_TICKS)
                &&& *final(self) == (DragModel { still_ticks: (old(self).still_ticks + 1) as u32, handed_off: r, ..*old(self) })
            },
    {
        if !still || self.hidden || self.merge_target.is_some() {
            self.still_ticks = 0;
            return false;
        }
        let ticks = self.still_ticks + 1;
        self.still_ticks = ticks;
        if ticks < HANDOFF_TICKS {
            return false;
        }
        self.handed_off = true;
        true
    }

    /// The platform ended moving `window`.
    pub fn window_move_ended(&mut self, window: u64) -> (r: MoveEnd)
        ensures
            old(self).attached_window != Some(window) ==> r == MoveEnd::Ignore && *final(self) == *old(self),
            old(self).attached_window == Some(window) ==> {
                let unmask = old(self).merge_target is None && old(self).hidden;
                &&& r == MoveEnd::Stop { unmask }
                &&& *final(self) == (DragModel { hidden: old(self).hidden && !unmask, ..*old(self) })
            },
    {
        if !self.is_dragged_window(window) {
            return MoveEnd::Ignore;
        }
        let unmask = self.merge_target.is_none() && self.hidden;
        if unmask {
            self.hidden = false;
        }
        MoveEnd::Stop { unmask }
    }

    /// Whether a spare window for `zone` is ready (a panel of no zone never
    /// needs one).
    pub fn has_spare_for(&self, zone: Option<PanelZone>) -> (r: bool)
        ensures
            r == self.has_spare_for_spec(zone),
    {
        let z = match zone {
            Some(z) => z,
            None => return true,
        };
        let mut i: usize = 0;
        while i < self.spares.len()
            invariant
                0 <= i <= self.spares@.len(),
                zone == Some(z),
                forall|j: int| 0 <= j < i ==> (#[trigger] self.spares@[j]).zone != z,
            decreases self.spares@.len() - i,
        {
            if self.spares[i].zone == z {
                assert(self.spares@[i as int].zone == z);
                return true;
            }
            i = i + 1;
        }
        false
    }

    /// The pointer left the source window: whether to prepare a spare window
    /// on the next frame. At most one preparation is pending at a time, and
    /// none is prepared where a spare for the zone is ready.
    pub fn prepare_spare_off_path(&mut self, zone: Option<PanelZone>) -> (r: bool)
        ensures
            r == (!old(self).spare_pending && !old(self).has_spare_for_spec(zone)),
            *final(self) == (DragModel { spare_pending: true, ..*old(self) }),
    {
        let pending = self.spare_pending;
        self.spare_pending = true;
        if pending {
            return false;
        }
        !self.has_spare_for(zone)
    }

    pub open spec fn has_spare_for_spec(self, zone: Option<PanelZone>) -> bool {
        match zone {
            Some(z) => exists|i: int| 0 <= i < self.spares@.len() && (#[trigger] self.spares@[i]).zone == z,
            None => true,
        }
    }

    /// The next frame came: the pending preparation is due.
    pub fn spare_frame(&mut self)
        ensures
            *final(self) == (DragModel { spare_pending: false, ..*old(self) }),
    {
        self.spare_pending = false;
    }

    /// Whether to open a hidden spare window for a panel of `zone`: only on
    /// Windows (where opening a window shows visibly late), for a panel of a
    /// known zone, and only while no spare for that zone is ready.
    pub fn wants_spare(&self, platform: Platform, zone: Option<PanelZone>) -> (r: bool)
        ensures
            r == (platform == Platform::Windows && zone is Some && !self.has_spare_for_spec(zone)),
    {
        if platform != Platform::Windows {
            return false;
        }
        if zone.is_none() {
            return false;
        }
        !self.has_spare_for(zone)
    }

    /// Keeps a newly opened spare window; one is opened only for a zone with
    /// no spare ready.
    pub fn add_spare(&mut self, spare: Spare)
        requires
            !old(self).has_spare_for_spec(Some(spare.zone)),
        ensures
            *final(self) == (DragModel { spares: final(self).spares, ..*old(self) }),
            final(self).spares@ == old(self).spares@.push(spare),
            final(self).has_spare_for_spec(Some(spare.zone)),
            old(self).wf() ==> final(self).wf(),
    {
        proof {
            if spares_unique(self.spares@) {
                lemma_added_spare_keeps_one_per_zone(self.spares@, spare);
            }
        }
        self.spares.push(spare);
        assert(self.spares@[self.spares@.len() - 1] == spare);
    }

    /// Takes the first spare window for `zone` out of the pool.
    pub fn take_spare(&mut self, zone: PanelZone) -> (r: Option<Spare>)
        ensures
            *final(self) == (DragModel { spares: final(self).spares, ..*old(self) }),
            match r {
                Some(spare) => exists|k: int| {
                    &&& 0 <= k < old(self).spares@.len()
                    &&& old(self).spares@[k] == spare
                    &&& spare.zone == zone
                    &&& (forall|j: int| 0 <= j < k ==> (#[trigger] old(self).spares@[j]).zone != zone)
                    &&& final(self).spares@ == old(self).spares@.remove(k)
                },
                None => {
                    &&& (forall|j: int| 0 <= j < old(self).spares@.len() ==> (#[trigger] old(self).spares@[j]).zone != zone)
                    &&& final(self).spares@ == old(self).spares@
                },
            },
            spares_unique(old(self).spares@) ==> {
                &&& spares_unique(final(self).spares@)
                &&& !final(self).has_spare_for_spec(Some(zone))
                &&& forall|j: int|
                    0 <= j < old(self).spares@.len() && (#[trigger] old(self).spares@[j]).zone == zone
                        ==> r == Some(old(self).spares@[j])
            },
            old(self).wf() ==> final(self).wf(),
    {
        let mut i: usize = 0;
        while i < self.spares.len()
            invariant
                0 <= i <= self.spares@.len(),
                *self == *old(self),
                forall|j: int| 0 <= j < i ==> (#[trigger] self.spares@[j]).zone != zone,
            decreases self.spares@.len() - i,
        {
            if self.spares[i].zone == zone {
                let ghost before = self.spares@;
                let spare = self.spares.remove(i);
                assert(before[i as int] == spare);
                assert(self.spares@ == before.remove(i as int));
                proof {
                    if spares_unique(before) {
                        lemma_taken_spare_leaves_none(before, i as int);
                    }
                }
                return Some(spare);
            }
            i = i + 1;
        }
        None
    }

    /// Empties the pool and returns the spare windows to close.
    pub fn close_spares(&mut self) -> (r: Vec<Spare>)
        ensures
            r@ == old(self).spares@,
            final(self).spares@.len() == 0,
            *final(self) == (DragModel { spares: final(self).spares, ..*old(self) }),
    {
        let mut drained: Vec<Spare> = Vec::new();
        std::mem::swap(&mut drained, &mut self.spares);
        drained
    }

    /// A window closed and `open` are the windows still open: when only
    /// spare windows are left, the pool is emptied and its windows are
    /// returned to be closed, so that the application can quit.
    pub fn close_spare_if_last(&mut self, open: &Vec<u64>) -> (r: Vec<Spare>)
        ensures ({
            let last = old(self).spares@.len() > 0
                && forall|i: int| 0 <= i < open@.len() ==> is_spare_window(old(self).spares@, #[trigger] open@[i]);
            &&& last ==> r@ == old(self).spares@ && final(self).spares@.len() == 0
            &&& !last ==> r@.len() == 0 && final(self).spares@ == old(self).spares@
            &&& *final(self) == (DragModel { spares: final(self).spares, ..*old(self) })
        }),
    {
        if self.spares.len() == 0 {
            return Vec::new();
        }
        let mut i: usize = 0;
        while i < open.len()
            invariant
                0 <= i <= open@.len(),
                self.spares@.len() > 0,
                forall|k: int| 0 <= k < i ==> is_spare_window(self.spares@, #[trigger] open@[k]),
            decreases open@.len() - i,
        {
            if !self.holds_spare_window(open[i]) {
                return Vec::new();
            }
            i = i + 1;
        }
        self.close_spares()
    }

    /// Whether `window` is one of the spare windows.
    pub fn holds_spare_window(&self, window: u64) -> (r: bool)
        ensures
            r == is_spare_window(self.spares@, window),
    {
        let mut j: usize = 0;
        while j < self.spares.len()
            invariant
                0 <= j <= self.spares@.len(),
                forall|m: int| 0 <= m < j ==> (#[trigger] self.spares@[m]).window != window,
            decreases self.spares@.len() - j,
        {
            if self.spares[j].window == window {
                assert(self.spares@[j as int].window == window);
                return true;
            }
            j = j + 1;
        }
        false
    }

    /// Starts an idle period after a drag; the spares are closed when it
    /// expires without another drag having started one.
    pub fn release_idle_spares(&mut self) -> (r: u64)
        requires
            old(self).spares_used < u64::MAX,
        ensures
            r == old(self).spares_used + 1,
            *final(self) == (DragModel { spares_used: r, ..*old(self) }),
    {
        self.spares_used = self.spares_used + 1;
        self.spares_used
    }

    /// Whether the idle period that handed out `generation` is still the last.
    pub fn idle_expired(&self, generation: u64) -> (r: bool)
        ensures
            r == (self.spares_used == generation),
    {
        self.spares_used == generation
    }
}

impl DragModel {
    /// The platform reported that `window` moved. On macOS moves are followed
    /// by the pointer poll instead, so nothing happens there; elsewhere a move
    /// of the carried window is a drag step over `spots`.
    pub fn window_dragged(&mut self, platform: Platform, window: u64, spots: &Vec<Option<MergeSpot>>) -> (r: Option<DragFrame>)
        requires
            spots@.len() == old(self).areas@.len(),
        ensures
            platform == Platform::MacOs || old(self).attached_window != Some(window) ==> r is None && *final(self) == *old(self),
            platform != Platform::MacOs && old(self).attached_window == Some(window) ==> {
                let next = pick_target(old(self).areas@, spots@, Some(window));
                let moved = spec_moved_target(old(self).merge_target, next);
                &&& r is Some
                &&& r->0.refresh@ == spec_refresh(old(self).merge_target, next)
                &&& r->0.chip == spec_chip(old(self).hidden, moved)
                &&& r->0.mask == spec_mask(old(self).hidden, moved)
                &&& !r->0.follow
                &&& *final(self) == (DragModel { merge_target: moved, hidden: moved is Some, ..*old(self) })
            },
    {
        if platform == Platform::MacOs {
            return None;
        }
        if !self.is_dragged_window(window) {
            return None;
        }
        Some(self.window_dragged_at(platform, window, spots))
    }

    /// A pointer move on `platform` during a tab drag of `drag`. Where the panel already
    /// has a window of its own, that window follows the pointer over `spots`.
    /// Otherwise, for a panel that was torn off before, the merge target is
    /// followed over `spots` too; leaving the source window (`inside_source`
    /// false) may ask for a spare window; over one of the application's own
    /// windows (`over_own_window`), or for a panel of no zone, the chip
    /// follows the pointer, and elsewhere the panel is torn off.
    pub fn track(
        &mut self,
        platform: Platform,
        drag: &PanelDrag,
        spots: &Vec<Option<MergeSpot>>,
        over_own_window: bool,
        inside_source: bool,
    ) -> (r: TrackAction)
        requires
            spots@.len() == old(self).areas@.len(),
        ensures
            old(self).attached_window matches Some(window) ==> {
                let next = pick_target(old(self).areas@, spots@, Some(window));
                let moved = spec_moved_target(old(self).merge_target, next);
                &&& r is Window
                &&& (r->Window_0).refresh@ == spec_refresh(old(self).merge_target, next)
                &&& (r->Window_0).chip == spec_chip(old(self).hidden, moved)
                &&& (r->Window_0).mask == spec_mask(old(self).hidden, moved)
                &&& (r->Window_0).follow == (platform == Platform::MacOs && !old(self).handed_off)
                &&& *final(self) == (DragModel { merge_target: moved, hidden: moved is Some, ..*old(self) })
            },
            old(self).attached_window is None ==> {
                let next = pick_target(old(self).areas@, spots@, None);
                let refresh = if drag.detached is Some { spec_refresh(old(self).merge_target, next) } else { Seq::empty() };
                let target = if drag.detached is Some { spec_moved_target(old(self).merge_target, next) } else { old(self).merge_target };
                let prepare = !inside_source && !old(self).spare_pending && !old(self).has_spare_for_spec(drag.zone);
                &&& *final(self) == (DragModel {
                    merge_target: target,
                    spare_pending: old(self).spare_pending || !inside_source,
                    ..*old(self)
                })
                &&& (over_own_window || drag.zone is None) ==> (r matches TrackAction::Chip { refresh: rf, prepare_spare: ps }
                        && rf@ == refresh && ps == prepare)
                &&& !(over_own_window || drag.zone is None) ==> (r matches TrackAction::TearOff { refresh: rf, prepare_spare: ps }
                        && rf@ == refresh && ps == prepare)
            },
    {
        if let Some(window) = self.attached_window {
            return TrackAction::Window(self.window_dragged_at(platform, window, spots));
        }
        let refresh = if drag.detached.is_some() {
            let next = resolve_merge_target(&self.areas, spots, None);
            self.update_merge_target(next)
        } else {
            Vec::new()
        };
        let prepare_spare = if !inside_source {
            self.prepare_spare_off_path(drag.zone)
        } else {
            false
        };
        if over_own_window || drag.zone.is_none() {
            TrackAction::Chip { refresh, prepare_spare }
        } else {
            TrackAction::TearOff { refresh, prepare_spare }
        }
    }

    /// The panel of `drag` was torn off into `host`: the window now follows
    /// the pointer. Says whether a pointer poll has to be started.
    pub fn torn_off(&mut self, drag: &mut PanelDrag, host: Host, platform: Platform) -> (r: bool)
        ensures
            *final(drag) == (PanelDrag { detached: Some(host), ..*old(drag) }),
            r == (platform == Platform::MacOs && !old(self).poll_running),
            *final(self) == (DragModel {
                attached_window: Some(host.window),
                poll_running: old(self).poll_running || platform == Platform::MacOs,
                ..*old(self)
            }),
    {
        self.attached_window = Some(host.window);
        drag.detached = Some(host);
        self.start_drag_poll(platform)
    }

    /// The ids of the windows of the registered areas, in order.
    pub fn area_windows(&self) -> (r: Vec<u64>)
        ensures
            r@.len() == self.areas@.len(),
            forall|i: int| 0 <= i < r@.len() ==> r@[i] == (#[trigger] self.areas@[i]).window,
    {
        let mut windows: Vec<u64> = Vec::new();
        let mut i: usize = 0;
        while i < self.areas.len()
            invariant
                0 <= i <= self.areas@.len(),
                windows@.len() == i,
                forall|k: int| 0 <= k < i ==> windows@[k] == (#[trigger] self.areas@[k]).window,
            decreases self.areas@.len() - i,
        {
            windows.push(self.areas[i].window);
            i = i + 1;
        }
        windows
    }

    /// The tab drag ended (the chip is hidden in any case). Resets the
    /// hand-off, starts an idle period for the spares, releases the carried
    /// window, and, where a drag was in progress, takes its merge target and
    /// the window to reveal again.
    pub fn finish_drag_preview(&mut self) -> (r: Finish)
        requires
            old(self).spares_used < u64::MAX,
        ensures
            spares_unique(old(self).spares@) ==> final(self).wf(),
            r.refresh@.len() == old(self).areas@.len(),
            forall|i: int| 0 <= i < r.refresh@.len() ==> r.refresh@[i] == (#[trigger] old(self).areas@[i]).window,
            r.idle_generation == old(self).spares_used + 1,
            r.refill == (old(self).dragging && old(self).main_window is Some),
            !old(self).dragging ==> {
                &&& r.landing is None
                &&& *final(self) == (DragModel {
                    handed_off: false,
                    still_ticks: 0,
                    spares_used: r.idle_generation,
                    attached_window: None,
                    ..*old(self)
                })
            },
            old(self).dragging ==> {
                &&& r.landing matches Some(landing) && landing == (Landing {
                    target: old(self).merge_target,
                    restore: if old(self).hidden { old(self).attached_window } else { None },
                    attached: old(self).attached_window,
                })
                &&& *final(self) == (DragModel {
                    handed_off: false,
                    still_ticks: 0,
                    spares_used: r.idle_generation,
                    attached_window: None,
                    dragging: false,
                    merge_target: None,
                    hidden: false,
                    ..*old(self)
                })
            },
    {
        self.handed_off = false;
        self.still_ticks = 0;
        let refill = self.dragging && self.main_window.is_some();
        let idle_generation = self.release_idle_spares();
        let attached = self.attached_window;
        self.attached_window = None;
        let refresh = self.area_windows();
        if !self.dragging {
            return Finish { refresh, idle_generation, refill, landing: None };
        }
        self.dragging = false;
        let target = self.merge_target;
        self.merge_target = None;
        let restore = if self.hidden { attached } else { None };
        self.hidden = false;
        Finish { refresh, idle_generation, refill, landing: Some(Landing { target, restore, attached }) }
    }
}

/// The last step of ending a drag: `landed` says whether the panel landed in
/// some area, `closing` whether the window it was carried in is about to close
/// (its centre holds no panel any more).
pub fn settle_landing(landing: &Landing, landed: bool, closing: bool) -> (r: Settle)
    ensures
        r.unmask == (if closing { None } else { landing.restore }),
        r.activate == (if landed { None } else { landing.attached }),
{
    Settle {
        unmask: if closing { None } else { landing.restore },
        activate: if landed { None } else { landing.attached },
    }
}

/// A spare added for a zone that has none ready keeps the pool at one spare
/// per zone: preparing spares never leaves two of them for the same zone.
pub proof fn lemma_added_spare_keeps_one_per_zone(spares: Seq<Spare>, spare: Spare)
    requires
        spares_unique(spares),
        forall|i: int| 0 <= i < spares.len() ==> (#[trigger] spares[i]).zone != spare.zone,
    ensures
        spares_unique(spares.push(spare)),
{
    let grown = spares.push(spare);
    assert forall|i: int, j: int| 0 <= i < j < grown.len() implies #[trigger] grown[i].zone != #[trigger] grown[j].zone by {
        if j == spares.len() {
            assert(grown[i] == spares[i]);
        } else {
            assert(grown[i] == spares[i] && grown[j] == spares[j]);
        }
    }
}

/// In a pool of one spare per zone, the spare taken out for a zone is the
/// only one for it: what is left still holds one spare per zone, and none
/// for that zone.
pub proof fn lemma_taken_spare_leaves_none(spares: Seq<Spare>, k: int)
    requires
        spares_unique(spares),
        0 <= k < spares.len(),
    ensures
        spares_unique(spares.remove(k)),
        forall|m: int| 0 <= m < spares.len() - 1 ==> (#[trigger] spares.remove(k)[m]).zone != spares[k].zone,
        forall|j: int| 0 <= j < spares.len() && (#[trigger] spares[j]).zone == spares[k].zone ==> j == k,
{
    let rest = spares.remove(k);
    assert forall|m: int| 0 <= m < spares.len() - 1 implies (#[trigger] rest[m]).zone != spares[k].zone by {
        if m < k {
            assert(rest[m] == spares[m]);
        } else {
            assert(rest[m] == spares[m + 1]);
        }
    }
    assert forall|i: int, j: int| 0 <= i < j < rest.len() implies #[trigger] rest[i].zone != #[trigger] rest[j].zone by {
        let oi = if i < k { i } else { i + 1 };
        let oj = if j < k { j } else { j + 1 };
        assert(rest[i] == spares[oi] && rest[j] == spares[oj]);
    }
    assert forall|j: int| 0 <= j < spares.len() && (#[trigger] spares[j]).zone == spares[k].zone implies j == k by {
        if j < k {
            assert(spares[j].zone != spares[k].zone);
        } else if j > k {
            assert(spares[k].zone != spares[j].zone);
        }
    }
}

/// The dragged window is masked exactly while it is over a merge target: a
/// step asks to change the masking only when that changes, and then to the
/// new state.
pub proof fn lemma_mask_follows_target(hidden: bool, target: Option<MergeTarget>)
    ensures
        spec_mask(hidden, target) is Some <==> hidden != (target is Some),
        spec_mask(hidden, target) matches Some(masked) ==> masked == (target is Some),
{
}

/// The chip moves with the pointer exactly while the dragged window is over a
/// target, whatever the masking before; it is hidden exactly when the window
/// is unmasked on coming off a target.
pub proof fn lemma_chip_follows_target(hidden: bool, target: Option<MergeTarget>)
    ensures
        (spec_chip(hidden, target) == ChipMove::Follow) <==> target is Some,
        (spec_chip(hidden, target) == ChipMove::Hide) <==> spec_mask(hidden, target) == Some(false),
{
}

/// Staying over the same spot repaints nothing and keeps the target; a step
/// repeated over the same spot therefore repaints nothing the second time.
pub proof fn lemma_same_spot_is_quiet(prev: Option<MergeTarget>, next: Option<MergeTarget>)
    ensures
        spec_unchanged(prev, next) ==> spec_refresh(prev, next).len() == 0 && spec_moved_target(prev, next) == prev,
        spec_refresh(spec_moved_target(prev, next), next).len() == 0,
        spec_moved_target(spec_moved_target(prev, next), next) == spec_moved_target(prev, next),
{
}

/// Leaving a target for another spot repaints both windows involved.
pub proof fn lemma_moves_repaint_both(prev: MergeTarget, next: MergeTarget)
    requires
        !prev.spec_same_spot(next),
    ensures
        spec_refresh(Some(prev), Some(next)) == seq![prev.window, next.window],
{
    assert(spec_refresh(Some(prev), Some(next)) =~= seq![prev.window, next.window]);
}

/// Whether `window` is another of the application's own windows for a tab
/// dragged out of `source`: not the source itself, not the drag chip, and not
/// a hidden spare window.
pub open spec fn spec_other_own_window(spares: Seq<Spare>, window: u64, source: u64, chip: Option<u64>) -> bool {
    &&& window != source
    &&& chip != Some(window)
    &&& !is_spare_window(spares, window)
}

impl DragModel {
    /// Whether the pointer is over one of the application's own windows
    /// during a tab drag out of `source`: over the source itself
    /// (`inside_source`), or over another own window `windows[i]` whose
    /// bounds hold it (`contains[i]`). Over such a window the chip follows
    /// the pointer instead of the panel being torn off.
    pub fn over_own_window(
        &self,
        inside_source: bool,
        source: u64,
        chip: Option<u64>,
        windows: &Vec<u64>,
        contains: &Vec<bool>,
    ) -> (r: bool)
        requires
            contains@.len() == windows@.len(),
        ensures
            r == (inside_source || exists|i: int| 0 <= i < windows@.len() && contains@[i]
                && #[trigger] spec_other_own_window(self.spares@, windows@[i], source, chip)),
    {
        if inside_source {
            return true;
        }
        let mut i: usize = 0;
        while i < windows.len()
            invariant
                0 <= i <= windows@.len(),
                contains@.len() == windows@.len(),
                forall|j: int| 0 <= j < i ==> !(contains@[j]
                    && #[trigger] spec_other_own_window(self.spares@, windows@[j], source, chip)),
            decreases windows@.len() - i,
        {
            let w = windows[i];
            let is_chip = match chip {
                Some(c) => c == w,
                None => false,
            };
            if contains[i] && w != source && !is_chip && !self.holds_spare_window(w) {
                assert(spec_other_own_window(self.spares@, windows@[i as int], source, chip));
                return true;
            }
            i = i + 1;
        }
        false
    }
}

} // verus!
