//! Touch panning of scroll views: which touch pointer owns the pan, whether
//! it is dragging yet, and when the view captures or releases that pointer.
//! Distances, deltas and the scrolling itself are measured by the rendering
//! layer, which reports the outcome of each comparison here.
use vstd::prelude::*;

verus! {

/// The touch gesture a scroll view follows, if any.
#[derive(Debug)]
pub struct TouchScroll {
    gesture: Option<(u64, bool)>,
}

/// The abstract state of a [`TouchScroll`]: the followed pointer and whether
/// it is dragging.
pub struct TouchScrollView {
    pub gesture: Option<(u64, bool)>,
}

impl View for TouchScroll {
    type V = TouchScrollView;

    closed spec fn view(&self) -> TouchScrollView {
        TouchScrollView { gesture: self.gesture }
    }
}

/// What the view does after a touch move was applied as a scroll.
#[derive(Debug, Clone, Copy, PartialEq, Eq, Structural)]
pub struct TouchMoveOutcome {
    /// Capture the pointer, so that controls beneath receive a cancel.
    pub capture: bool,
    /// Consume the event, so that enclosing views do not scroll.
    pub handled: bool,
}

/// Whether `gesture` follows pointer `pointer_id`.
pub open spec fn follows(gesture: Option<(u64, bool)>, pointer_id: u64) -> bool {
    gesture matches Some((id, _)) && id == pointer_id
}

/// Whether `gesture` is dragging.
pub open spec fn spec_dragging(gesture: Option<(u64, bool)>) -> bool {
    gesture matches Some((_, dragging)) && dragging
}

/// The gesture after one of its moves was applied as a scroll: the same
/// pointer, now dragging.
pub open spec fn gesture_after_scroll(gesture: Option<(u64, bool)>) -> Option<(u64, bool)> {
    match gesture {
        Some((id, _)) => Some((id, true)),
        None => None,
    }
}

/// Whether applying a move of `gesture` as a scroll captures the pointer:
/// exactly when the gesture is followed but not yet dragging.
pub open spec fn captures_on_scroll(gesture: Option<(u64, bool)>) -> bool {
    gesture matches Some((_, dragging)) && !dragging
}

impl TouchScroll {
    /// No gesture is followed.
    pub fn new() -> (r: Self)
        ensures
            r@.gesture is None,
    {
        TouchScroll { gesture: None }
    }

    /// Whether a followed gesture is dragging.
    pub fn is_dragging(&self) -> (r: bool)
        ensures
            r == spec_dragging(self@.gesture),
    {
        match self.gesture {
            Some((_, dragging)) => dragging,
            None => false,
        }
    }

    /// A touch went down. When `eligible` (a primary touch with the primary
    /// button, inside the view, with content to scroll) the view starts
    /// following it, not yet dragging; otherwise nothing changes.
    pub fn touch_down(&mut self, pointer_id: u64, eligible: bool)
        ensures
            eligible ==> final(self)@.gesture == Some((pointer_id, false)),
            !eligible ==> final(self)@ == old(self)@,
    {
        if eligible {
            self.gesture = Some((pointer_id, false));
        }
    }

    /// Whether a touch move should scroll: it must come from the followed
    /// pointer outside the capture phase, and either the gesture already
    /// drags or the touch has travelled past the drag threshold.
    pub fn move_should_scroll(
        &self,
        pointer_id: u64,
        capture_phase: bool,
        passed_threshold: bool,
    ) -> (r: bool)
        ensures
            r == (follows(self@.gesture, pointer_id) && !capture_phase && (spec_dragging(
                self@.gesture,
            ) || passed_threshold)),
    {
        match self.gesture {
            Some((id, dragging)) => id == pointer_id && !capture_phase && (dragging
                || passed_threshold),
            None => false,
        }
    }

    /// A move of the followed gesture was applied; `scrolled` tells whether
    /// the content moved. The first such move turns the gesture into a drag
    /// and captures the pointer, even at a scroll boundary (so that controls
    /// beneath are cancelled and the gesture may reverse); the event is
    /// consumed only when the content moved, leaving a boundary pan to an
    /// enclosing view.
    pub fn after_scroll(&mut self, scrolled: bool) -> (r: TouchMoveOutcome)
        requires
            old(self)@.gesture is Some,
        ensures
            r.capture == captures_on_scroll(old(self)@.gesture),
            r.handled == scrolled,
            final(self)@.gesture == gesture_after_scroll(old(self)@.gesture),
    {
        match self.gesture {
            Some((id, dragging)) => {
                self.gesture = Some((id, true));
                TouchMoveOutcome { capture: !dragging, handled: scrolled }
            },
            None => TouchMoveOutcome { capture: false, handled: false },
        }
    }

    /// A touch went up or was cancelled. When it is the followed pointer the
    /// gesture ends; returns whether the view must release its capture and
    /// consume the event (the gesture was dragging and the event is not in
    /// the capture phase).
    pub fn touch_end(&mut self, pointer_id: u64, capture_phase: bool) -> (release: bool)
        ensures
            follows(old(self)@.gesture, pointer_id) ==> final(self)@.gesture is None,
            !follows(old(self)@.gesture, pointer_id) ==> final(self)@ == old(self)@,
            release == (follows(old(self)@.gesture, pointer_id) && spec_dragging(
                old(self)@.gesture,
            ) && !capture_phase),
    {
        match self.gesture {
            Some((id, dragging)) => {
                if id == pointer_id {
                    self.gesture = None;
                    dragging && !capture_phase
                } else {
                    false
                }
            },
            None => false,
        }
    }
}

/// Over a gesture, the pointer is captured once: the first move applied as
/// a scroll captures it and turns the gesture into a drag of the same
/// pointer, and no later move captures it again; from then on every move of
/// that pointer outside the capture phase scrolls, whatever the distance.
pub proof fn lemma_touch_captures_once(pointer_id: u64, capture_phase: bool, passed_threshold: bool)
    ensures
        captures_on_scroll(Some((pointer_id, false))),
        gesture_after_scroll(Some((pointer_id, false))) == Some((pointer_id, true)),
        !captures_on_scroll(gesture_after_scroll(Some((pointer_id, true)))),
        gesture_after_scroll(Some((pointer_id, true))) == Some((pointer_id, true)),
        ({
            let dragging = Some((pointer_id, true));
            (follows(dragging, pointer_id) && !capture_phase && (spec_dragging(dragging)
                || passed_threshold)) == !capture_phase
        }),
{
}

} // verus!
