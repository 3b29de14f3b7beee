//! Bookkeeping of the recording overlay's delayed hide.
//!
//! Hiding the overlay waits for the front end's exit animation before the
//! window goes away. This state decides whether a hide may start, whether a
//! delayed hide still applies when its timer fires, and how a show cancels a
//! pending hide. It also paces the level-meter frames sent to the overlay.

use vstd::prelude::*;

verus! {

/// Whether a delayed hide is running, and the ticket of the pending one.
pub struct OverlayHideState {
    hiding_in_progress: bool,
    pending_hide: Option<u64>,
}

/// Model of the hide bookkeeping.
pub struct OverlayHideView {
    pub hiding_in_progress: bool,
    pub pending_hide: Option<u64>,
}

impl View for OverlayHideState {
    type V = OverlayHideView;

    closed spec fn view(&self) -> OverlayHideView {
        OverlayHideView { hiding_in_progress: self.hiding_in_progress, pending_hide: self.pending_hide }
    }
}

/// Whether the delayed hide with ticket `ticket` still hides the window when it
/// fires: only while it is the pending one, that is, no show cancelled it and
/// no later hide replaced it.
pub open spec fn hide_applies(s: OverlayHideView, ticket: u64) -> bool {
    s.pending_hide == Some(ticket)
}

impl OverlayHideState {
    /// No hide running and none pending.
    pub fn new() -> (s: OverlayHideState)
        ensures
            s@ == (OverlayHideView { hiding_in_progress: false, pending_hide: None }),
    {
        OverlayHideState { hiding_in_progress: false, pending_hide: None }
    }

    /// Forgets the pending hide (the overlay is being shown again).
    pub fn cancel_pending_hide(&mut self)
        ensures
            final(self)@ == (OverlayHideView { pending_hide: None, ..old(self)@ }),
    {
        self.pending_hide = None;
    }

    /// Starts a delayed hide for `ticket`, unless one is already running.
    /// Returns whether it started.
    pub fn begin_hide(&mut self, ticket: u64) -> (started: bool)
        ensures
            started == !old(self)@.hiding_in_progress,
            started ==> final(self)@ == (OverlayHideView {
                hiding_in_progress: true,
                pending_hide: Some(ticket),
            }),
            !started ==> final(self)@ == old(self)@,
    {
        if self.hiding_in_progress {
            false
        } else {
            self.hiding_in_progress = true;
            self.pending_hide = Some(ticket);
            true
        }
    }

    /// The timer of the delayed hide `ticket` fired: decides whether the window is
    /// hidden, clears the pending hide when it is, and ends the running hide.
    pub fn finish_hide(&mut self, ticket: u64) -> (should_hide: bool)
        ensures
            should_hide == hide_applies(old(self)@, ticket),
            !final(self)@.hiding_in_progress,
            final(self)@.pending_hide == (if should_hide {
                None
            } else {
                old(self)@.pending_hide
            }),
    {
        let should_hide = match self.pending_hide {
            Some(id) => id == ticket,
            None => false,
        };
        if should_hide {
            self.pending_hide = None;
        }
        self.hiding_in_progress = false;
        should_hide
    }

    /// The overlay is hidden at once (before a paste): any pending hide is
    /// forgotten and no hide counts as running.
    pub fn hide_now(&mut self)
        ensures
            final(self)@ == (OverlayHideView { hiding_in_progress: false, pending_hide: None }),
    {
        self.cancel_pending_hide();
        self.hiding_in_progress = false;
    }
}

/// A delayed hide that a show cancelled before its timer fired does not hide
/// the window; one that nothing cancelled or replaced does.
pub proof fn lemma_cancelled_hide_does_not_apply(s: OverlayHideView, ticket: u64)
    ensures
        !hide_applies(OverlayHideView { pending_hide: None, ..s }, ticket),
        hide_applies(OverlayHideView { pending_hide: Some(ticket), ..s }, ticket),
{
}

/// Time between two level-meter frames, in nanoseconds (about 30 frames a second).
pub const LEVEL_FRAME_INTERVAL_NS: u64 = 33_000_000;

/// How long to pause after emitting a level-meter frame that took
/// `elapsed_ns` nanoseconds: the rest of the frame interval, or nothing when
/// the frame took the whole interval or longer.
pub fn level_frame_pause_ns(elapsed_ns: u64) -> (pause: u64)
    ensures
        pause == (if elapsed_ns < LEVEL_FRAME_INTERVAL_NS {
            LEVEL_FRAME_INTERVAL_NS - elapsed_ns
        } else {
            0
        }),
{
    if elapsed_ns < LEVEL_FRAME_INTERVAL_NS {
        LEVEL_FRAME_INTERVAL_NS - elapsed_ns
    } else {
        0
    }
}

} // verus!
