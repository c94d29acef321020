//! The interaction state of a scroll bar: whether it is hovered, whether its
//! thumb is being dragged and by which pointer, and the keys that move it.
//! The thumb geometry and the offsets are measured and moved by the
//! rendering layer, which reports the outcome of each geometric test here
//! and applies the offset changes this module asks for.
use vstd::prelude::*;
use crate::axis::str_equals;

verus! {

/// What a key asks of a focused scroll bar.
#[derive(Debug, Clone, Copy, PartialEq, Eq, Structural)]
pub enum ScrollBarCommand {
    /// Scroll one line towards the start.
    LineBack,
    /// Scroll one line towards the end.
    LineForward,
    /// Scroll one page towards the start.
    PageBack,
    /// Scroll one page towards the end.
    PageForward,
    /// Scroll to the start.
    Start,
    /// Scroll to the end.
    End,
}

/// The command of a key for a scroll bar: the arrows along its axis move by
/// a line (up and down for a vertical bar, left and right for a horizontal
/// one), Page Up and Page Down by a page, Home and End to the ends.
pub open spec fn spec_scroll_bar_key(key: Seq<char>, vertical: bool) -> Option<ScrollBarCommand> {
    if key == "ArrowUp"@ && vertical {
        Some(ScrollBarCommand::LineBack)
    } else if key == "ArrowDown"@ && vertical {
        Some(ScrollBarCommand::LineForward)
    } else if key == "ArrowLeft"@ && !vertical {
        Some(ScrollBarCommand::LineBack)
    } else if key == "ArrowRight"@ && !vertical {
        Some(ScrollBarCommand::LineForward)
    } else if key == "PageUp"@ {
        Some(ScrollBarCommand::PageBack)
    } else if key == "PageDown"@ {
        Some(ScrollBarCommand::PageForward)
    } else if key == "Home"@ {
        Some(ScrollBarCommand::Start)
    } else if key == "End"@ {
        Some(ScrollBarCommand::End)
    } else {
        None
    }
}

/// The command of `key` for a vertical (or horizontal) scroll bar (see
/// [`spec_scroll_bar_key`]).
pub fn scroll_bar_key(key: &str, vertical: bool) -> (r: Option<ScrollBarCommand>)
    ensures
        r == spec_scroll_bar_key(key@, vertical),
{
    if str_equals(key, "ArrowUp") && vertical {
        Some(ScrollBarCommand::LineBack)
    } else if str_equals(key, "ArrowDown") && vertical {
        Some(ScrollBarCommand::LineForward)
    } else if str_equals(key, "ArrowLeft") && !vertical {
        Some(ScrollBarCommand::LineBack)
    } else if str_equals(key, "ArrowRight") && !vertical {
        Some(ScrollBarCommand::LineForward)
    } else if str_equals(key, "PageUp") {
        Some(ScrollBarCommand::PageBack)
    } else if str_equals(key, "PageDown") {
        Some(ScrollBarCommand::PageForward)
    } else if str_equals(key, "Home") {
        Some(ScrollBarCommand::Start)
    } else if str_equals(key, "End") {
        Some(ScrollBarCommand::End)
    } else {
        None
    }
}

/// The command a key event gives a scroll bar: only a pressed key reaching a
/// focused bar whose content can scroll (`scrollable`: the largest offset on
/// its axis is above zero) counts. A command is always consumed, even when
/// the offset cannot move further.
pub fn scroll_bar_key_command(
    focused: bool,
    pressed: bool,
    scrollable: bool,
    key: &str,
    vertical: bool,
) -> (r: Option<ScrollBarCommand>)
    ensures
        r == (if focused && pressed && scrollable {
            spec_scroll_bar_key(key@, vertical)
        } else {
            None::<ScrollBarCommand>
        }),
{
    if focused && pressed && scrollable {
        scroll_bar_key(key, vertical)
    } else {
        None
    }
}

/// The hover and drag state of a scroll bar.
#[derive(Debug)]
pub struct ScrollBarInteraction {
    hovered: bool,
    dragging: bool,
    pointer_id: Option<u64>,
}

/// The abstract state of a [`ScrollBarInteraction`]: whether the pointer is
/// over the bar, whether the thumb is being dragged, and the pointer that
/// went down on it.
pub struct ScrollBarInteractionView {
    pub hovered: bool,
    pub dragging: bool,
    pub pointer_id: Option<u64>,
}

impl View for ScrollBarInteraction {
    type V = ScrollBarInteractionView;

    closed spec fn view(&self) -> ScrollBarInteractionView {
        ScrollBarInteractionView {
            hovered: self.hovered,
            dragging: self.dragging,
            pointer_id: self.pointer_id,
        }
    }
}

/// What the bar does after a pointer press.
#[derive(Debug, Clone, Copy, PartialEq, Eq, Structural)]
pub struct ScrollBarPress {
    /// The press started a drag: the bar captures the pointer, moves the
    /// thumb under it and consumes the event.
    pub grabbed: bool,
    /// The bar asks for keyboard focus.
    pub focus: bool,
    /// The hover state changed.
    pub hover_changed: bool,
    /// The drag state changed.
    pub drag_changed: bool,
}

/// What the bar does after a pointer move.
#[derive(Debug, Clone, Copy, PartialEq, Eq, Structural)]
pub struct ScrollBarMove {
    /// The hover state changed.
    pub hover_changed: bool,
    /// The move belongs to the drag: the thumb follows the pointer.
    pub drag_applies: bool,
}

/// What the bar does after its pointer was released or cancelled.
#[derive(Debug, Clone, Copy, PartialEq, Eq, Structural)]
pub struct ScrollBarRelease {
    /// The event ended the bar's pointer interaction: the bar releases its
    /// capture and consumes the event.
    pub released: bool,
    /// The thumb takes the release position first (the bar was dragging).
    pub apply_drag: bool,
    /// The hover state changed.
    pub hover_changed: bool,
    /// The drag state changed.
    pub drag_changed: bool,
}

/// The state of a bar nobody has touched.
pub open spec fn idle_scroll_bar() -> ScrollBarInteractionView {
    ScrollBarInteractionView { hovered: false, dragging: false, pointer_id: None }
}

/// A drag is under way exactly when a pointer owns the bar.
pub open spec fn interaction_consistent(v: ScrollBarInteractionView) -> bool {
    v.dragging == v.pointer_id is Some
}

/// Whether a move of pointer `pointer_id` drags the thumb.
pub open spec fn drag_applies_to(v: ScrollBarInteractionView, pointer_id: u64) -> bool {
    v.dragging && v.pointer_id == Some(pointer_id)
}

/// The state after the pointer entered the bar.
pub open spec fn after_enter(v: ScrollBarInteractionView) -> ScrollBarInteractionView {
    ScrollBarInteractionView { hovered: true, ..v }
}

/// The state after a pointer moved; `in_bounds` tells whether it is over the
/// bar.
pub open spec fn after_move(v: ScrollBarInteractionView, in_bounds: bool) -> ScrollBarInteractionView {
    ScrollBarInteractionView { hovered: in_bounds, ..v }
}

/// The state after pointer `pointer_id` left the bar: the hover ends unless
/// that pointer is dragging the thumb.
pub open spec fn after_leave(v: ScrollBarInteractionView, pointer_id: u64) -> ScrollBarInteractionView {
    if drag_applies_to(v, pointer_id) {
        v
    } else {
        ScrollBarInteractionView { hovered: false, ..v }
    }
}

/// Whether a press starts a drag: the primary button went down over the bar,
/// and the bar has a track to drag in (`has_track`).
pub open spec fn press_grabs(primary: bool, in_bounds: bool, has_track: bool) -> bool {
    primary && in_bounds && has_track
}

/// The state after a press of pointer `pointer_id`.
pub open spec fn after_down(
    v: ScrollBarInteractionView,
    pointer_id: u64,
    primary: bool,
    in_bounds: bool,
    has_track: bool,
) -> ScrollBarInteractionView {
    if press_grabs(primary, in_bounds, has_track) {
        ScrollBarInteractionView { hovered: true, dragging: true, pointer_id: Some(pointer_id) }
    } else {
        v
    }
}

/// Whether a release of pointer `pointer_id` ends the bar's interaction: it
/// is the primary button of the pointer that went down on the bar.
pub open spec fn release_ends(v: ScrollBarInteractionView, pointer_id: u64, primary: bool) -> bool {
    primary && v.pointer_id == Some(pointer_id)
}

/// The state after a release of pointer `pointer_id`, over the bar when
/// `in_bounds`.
pub open spec fn after_up(
    v: ScrollBarInteractionView,
    pointer_id: u64,
    primary: bool,
    in_bounds: bool,
) -> ScrollBarInteractionView {
    if release_ends(v, pointer_id, primary) {
        ScrollBarInteractionView { hovered: in_bounds, dragging: false, pointer_id: None }
    } else {
        v
    }
}

/// The state after pointer `pointer_id` was cancelled.
pub open spec fn after_cancel(v: ScrollBarInteractionView, pointer_id: u64) -> ScrollBarInteractionView {
    if v.pointer_id == Some(pointer_id) {
        idle_scroll_bar()
    } else {
        v
    }
}

impl ScrollBarInteraction {
    /// A bar nobody has touched.
    pub fn new() -> (r: Self)
        ensures
            r@ == idle_scroll_bar(),
    {
        ScrollBarInteraction { hovered: false, dragging: false, pointer_id: None }
    }

    /// Whether the pointer is over the bar.
    pub fn is_hovered(&self) -> (r: bool)
        ensures
            r == self@.hovered,
    {
        self.hovered
    }

    /// Whether the thumb is being dragged.
    pub fn is_dragging(&self) -> (r: bool)
        ensures
            r == self@.dragging,
    {
        self.dragging
    }

    /// The pointer that went down on the bar, if any.
    pub fn pointer_id(&self) -> (r: Option<u64>)
        ensures
            r == self@.pointer_id,
    {
        self.pointer_id
    }

    /// Whether a move of pointer `pointer_id` drags the thumb.
    pub fn drag_applies(&self, pointer_id: u64) -> (r: bool)
        ensures
            r == drag_applies_to(self@, pointer_id),
    {
        self.dragging && match self.pointer_id {
            Some(id) => id == pointer_id,
            None => false,
        }
    }

    /// Sets the hover state; returns whether it changed.
    fn set_hovered(&mut self, hovered: bool) -> (changed: bool)
        ensures
            final(self)@ == (ScrollBarInteractionView { hovered, ..old(self)@ }),
            changed == (old(self)@.hovered != hovered),
    {
        let changed = self.hovered != hovered;
        self.hovered = hovered;
        changed
    }

    /// Sets the drag state; returns whether it changed.
    fn set_dragging(&mut self, dragging: bool) -> (changed: bool)
        ensures
            final(self)@ == (ScrollBarInteractionView { dragging, ..old(self)@ }),
            changed == (old(self)@.dragging != dragging),
    {
        let changed = self.dragging != dragging;
        self.dragging = dragging;
        changed
    }

    /// The pointer entered the bar; returns whether the hover changed.
    pub fn pointer_enter(&mut self) -> (hover_changed: bool)
        ensures
            final(self)@ == after_enter(old(self)@),
            hover_changed == !old(self)@.hovered,
    {
        self.set_hovered(true)
    }

    /// Pointer `pointer_id` moved, over the bar when `in_bounds`.
    pub fn pointer_move(&mut self, pointer_id: u64, in_bounds: bool) -> (r: ScrollBarMove)
        ensures
            final(self)@ == after_move(old(self)@, in_bounds),
            r.hover_changed == (old(self)@.hovered != in_bounds),
            r.drag_applies == drag_applies_to(old(self)@, pointer_id),
    {
        let hover_changed = self.set_hovered(in_bounds);
        let drag_applies = self.drag_applies(pointer_id);
        ScrollBarMove { hover_changed, drag_applies }
    }

    /// Pointer `pointer_id` left the bar; returns whether the hover changed.
    pub fn pointer_leave(&mut self, pointer_id: u64) -> (hover_changed: bool)
        ensures
            final(self)@ == after_leave(old(self)@, pointer_id),
            hover_changed == (old(self)@ != after_leave(old(self)@, pointer_id)),
    {
        if self.drag_applies(pointer_id) {
            false
        } else {
            self.set_hovered(false)
        }
    }

    /// A button of pointer `pointer_id` went down (the primary one when
    /// `primary`), over the bar when `in_bounds`; `has_track` tells whether
    /// the bar has a track to drag in, and `focusable` whether it takes
    /// keyboard focus.
    pub fn pointer_down(
        &mut self,
        pointer_id: u64,
        primary: bool,
        in_bounds: bool,
        has_track: bool,
        focusable: bool,
    ) -> (r: ScrollBarPress)
        ensures
            final(self)@ == after_down(old(self)@, pointer_id, primary, in_bounds, has_track),
            r.grabbed == press_grabs(primary, in_bounds, has_track),
            r.focus == (press_grabs(primary, in_bounds, has_track) && focusable),
            r.hover_changed == (old(self)@.hovered != final(self)@.hovered),
            r.drag_changed == (old(self)@.dragging != final(self)@.dragging),
    {
        if primary && in_bounds && has_track {
            let hover_changed = self.set_hovered(true);
            let drag_changed = self.set_dragging(true);
            self.pointer_id = Some(pointer_id);
            ScrollBarPress { grabbed: true, focus: focusable, hover_changed, drag_changed }
        } else {
            ScrollBarPress { grabbed: false, focus: false, hover_changed: false, drag_changed: false }
        }
    }

    /// A button of pointer `pointer_id` went up (the primary one when
    /// `primary`), over the bar when `in_bounds`.
    pub fn pointer_up(&mut self, pointer_id: u64, primary: bool, in_bounds: bool) -> (r:
        ScrollBarRelease)
        ensures
            final(self)@ == after_up(old(self)@, pointer_id, primary, in_bounds),
            r.released == release_ends(old(self)@, pointer_id, primary),
            r.apply_drag == (release_ends(old(self)@, pointer_id, primary) && old(self)@.dragging),
            r.hover_changed == (old(self)@.hovered != final(self)@.hovered),
            r.drag_changed == (old(self)@.dragging != final(self)@.dragging),
    {
        let owns = match self.pointer_id {
            Some(id) => id == pointer_id,
            None => false,
        };
        if primary && owns {
            let apply_drag = self.dragging;
            let drag_changed = self.set_dragging(false);
            self.pointer_id = None;
            let hover_changed = self.set_hovered(in_bounds);
            ScrollBarRelease { released: true, apply_drag, hover_changed, drag_changed }
        } else {
            ScrollBarRelease {
                released: false,
                apply_drag: false,
                hover_changed: false,
                drag_changed: false,
            }
        }
    }

    /// Pointer `pointer_id` was cancelled: when it owns the bar, the drag
    /// and the hover end.
    pub fn pointer_cancel(&mut self, pointer_id: u64) -> (r: ScrollBarRelease)
        ensures
            final(self)@ == after_cancel(old(self)@, pointer_id),
            r.released == (old(self)@.pointer_id == Some(pointer_id)),
            !r.apply_drag,
            r.hover_changed == (old(self)@.hovered != final(self)@.hovered),
            r.drag_changed == (old(self)@.dragging != final(self)@.dragging),
    {
        let owns = match self.pointer_id {
            Some(id) => id == pointer_id,
            None => false,
        };
        if owns {
            let drag_changed = self.set_dragging(false);
            self.pointer_id = None;
            let hover_changed = self.set_hovered(false);
            ScrollBarRelease { released: true, apply_drag: false, hover_changed, drag_changed }
        } else {
            ScrollBarRelease {
                released: false,
                apply_drag: false,
                hover_changed: false,
                drag_changed: false,
            }
        }
    }
}

/// Every pointer event keeps a bar consistent: the thumb is dragged exactly
/// when some pointer owns the bar.
pub proof fn lemma_scroll_bar_stays_consistent(
    v: ScrollBarInteractionView,
    pointer_id: u64,
    primary: bool,
    in_bounds: bool,
    has_track: bool,
)
    requires
        interaction_consistent(v),
    ensures
        interaction_consistent(idle_scroll_bar()),
        interaction_consistent(after_enter(v)),
        interaction_consistent(after_move(v, in_bounds)),
        interaction_consistent(after_leave(v, pointer_id)),
        interaction_consistent(after_down(v, pointer_id, primary, in_bounds, has_track)),
        interaction_consistent(after_up(v, pointer_id, primary, in_bounds)),
        interaction_consistent(after_cancel(v, pointer_id)),
{
}

/// A drag belongs to the pointer that started it: after a grabbing press,
/// moves of that pointer drag the thumb and moves of any other do not, and
/// its leaving keeps the hover; after its release or cancel no move drags.
pub proof fn lemma_scroll_bar_drag_owned_by_press(
    v: ScrollBarInteractionView,
    pointer_id: u64,
    other: u64,
    in_bounds: bool,
)
    ensures
        ({
            let down = after_down(v, pointer_id, true, true, true);
            &&& drag_applies_to(down, pointer_id)
            &&& (other != pointer_id ==> !drag_applies_to(down, other))
            &&& after_leave(down, pointer_id).hovered
            &&& !drag_applies_to(after_up(down, pointer_id, true, in_bounds), other)
            &&& !drag_applies_to(after_cancel(down, pointer_id), other)
            &&& after_up(down, pointer_id, true, in_bounds).pointer_id is None
        }),
{
}

/// The page and end keys move a scroll bar on either axis; the arrow keys
/// move it only along its own axis (up and down for a vertical bar, left and
/// right for a horizontal one).
pub proof fn lemma_scroll_bar_keys_and_axis(vertical: bool)
    ensures
        spec_scroll_bar_key("PageUp"@, vertical) == Some(ScrollBarCommand::PageBack),
        spec_scroll_bar_key("PageDown"@, vertical) == Some(ScrollBarCommand::PageForward),
        spec_scroll_bar_key("Home"@, vertical) == Some(ScrollBarCommand::Start),
        spec_scroll_bar_key("End"@, vertical) == Some(ScrollBarCommand::End),
        spec_scroll_bar_key("ArrowUp"@, true) == Some(ScrollBarCommand::LineBack),
        spec_scroll_bar_key("ArrowDown"@, true) == Some(ScrollBarCommand::LineForward),
        spec_scroll_bar_key("ArrowLeft"@, false) == Some(ScrollBarCommand::LineBack),
        spec_scroll_bar_key("ArrowRight"@, false) == Some(ScrollBarCommand::LineForward),
        spec_scroll_bar_key("ArrowUp"@, false) is None,
        spec_scroll_bar_key("ArrowDown"@, false) is None,
        spec_scroll_bar_key("ArrowLeft"@, true) is None,
        spec_scroll_bar_key("ArrowRight"@, true) is None,
{
    reveal_strlit("PageUp");
    reveal_strlit("PageDown");
    reveal_strlit("Home");
    reveal_strlit("End");
    reveal_strlit("ArrowUp");
    reveal_strlit("ArrowDown");
    reveal_strlit("ArrowLeft");
    reveal_strlit("ArrowRight");
    assert("PageUp"@.len() == 6);
    assert("PageDown"@.len() == 8);
    assert("Home"@.len() == 4);
    assert("End"@.len() == 3);
    assert("ArrowUp"@.len() == 7);
    assert("ArrowDown"@.len() == 9);
    assert("ArrowLeft"@.len() == 9);
    assert("ArrowRight"@.len() == 10);
    assert("ArrowDown"@[5] != "ArrowLeft"@[5]);
}

} // verus!
