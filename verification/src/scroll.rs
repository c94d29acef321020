//! Scroll configuration: the per-axis overflow modes of a scroll view, the
//! state it shares with its scroll bars, and the keys that scroll it. The
//! viewport and content sizes and the offset are measured and moved by the
//! rendering layer.
use vstd::prelude::*;
use crate::axis::str_equals;

verus! {

/// The axes along which a scroll view may move its content.
#[derive(Debug, Clone, Copy, PartialEq, Eq, Structural)]
pub enum ScrollAxes {
    NoAxis,
    Vertical,
    Horizontal,
    Both,
}

impl ScrollAxes {
    pub open spec fn spec_allows_horizontal(self) -> bool {
        self is Horizontal || self is Both
    }

    pub open spec fn spec_allows_vertical(self) -> bool {
        self is Vertical || self is Both
    }

    /// Whether content may move horizontally.
    pub fn allows_horizontal(self) -> (r: bool)
        ensures
            r == self.spec_allows_horizontal(),
    {
        matches!(self, ScrollAxes::Horizontal | ScrollAxes::Both)
    }

    /// Whether content may move vertically.
    pub fn allows_vertical(self) -> (r: bool)
        ensures
            r == self.spec_allows_vertical(),
    {
        matches!(self, ScrollAxes::Vertical | ScrollAxes::Both)
    }
}

/// How a scroll view treats content that exceeds its viewport on one axis.
#[derive(Debug, Clone, Copy, PartialEq, Eq, Structural)]
pub enum Overflow {
    Visible,
    Clip,
    Scroll,
    Auto,
}

impl Overflow {
    pub open spec fn spec_is_scrollable(self) -> bool {
        self is Scroll || self is Auto
    }

    pub open spec fn spec_clips_paint(self) -> bool {
        !(self is Visible)
    }

    /// Whether the axis can be scrolled.
    pub fn is_scrollable(self) -> (r: bool)
        ensures
            r == self.spec_is_scrollable(),
    {
        matches!(self, Overflow::Scroll | Overflow::Auto)
    }

    /// Whether painting is clipped to the viewport on this axis.
    pub fn clips_paint(self) -> (r: bool)
        ensures
            r == self.spec_clips_paint(),
    {
        !matches!(self, Overflow::Visible)
    }
}

/// What a key asks of a focused scroll view.
#[derive(Debug, Clone, Copy, PartialEq, Eq, Structural)]
pub enum ScrollKey {
    LineUp,
    LineDown,
    LineLeft,
    LineRight,
    PageUp,
    PageDown,
    Home,
    End,
}

/// The scroll command of a key: arrows scroll by a line (left and right only
/// where `horizontal_lines` holds), Page Up and Page Down by a page, Home and
/// End to the start and end of the content.
pub open spec fn spec_scroll_key(key: Seq<char>, horizontal_lines: bool) -> Option<ScrollKey> {
    if key == "ArrowUp"@ {
        Some(ScrollKey::LineUp)
    } else if key == "ArrowDown"@ {
        Some(ScrollKey::LineDown)
    } else if key == "ArrowLeft"@ && horizontal_lines {
        Some(ScrollKey::LineLeft)
    } else if key == "ArrowRight"@ && horizontal_lines {
        Some(ScrollKey::LineRight)
    } else if key == "PageUp"@ {
        Some(ScrollKey::PageUp)
    } else if key == "PageDown"@ {
        Some(ScrollKey::PageDown)
    } else if key == "Home"@ {
        Some(ScrollKey::Home)
    } else if key == "End"@ {
        Some(ScrollKey::End)
    } else {
        None
    }
}

/// The scroll command of `key` (see [`spec_scroll_key`]).
pub fn scroll_key(key: &str, horizontal_lines: bool) -> (r: Option<ScrollKey>)
    ensures
        r == spec_scroll_key(key@, horizontal_lines),
{
    if str_equals(key, "ArrowUp") {
        Some(ScrollKey::LineUp)
    } else if str_equals(key, "ArrowDown") {
        Some(ScrollKey::LineDown)
    } else if str_equals(key, "ArrowLeft") && horizontal_lines {
        Some(ScrollKey::LineLeft)
    } else if str_equals(key, "ArrowRight") && horizontal_lines {
        Some(ScrollKey::LineRight)
    } else if str_equals(key, "PageUp") {
        Some(ScrollKey::PageUp)
    } else if str_equals(key, "PageDown") {
        Some(ScrollKey::PageDown)
    } else if str_equals(key, "Home") {
        Some(ScrollKey::Home)
    } else if str_equals(key, "End") {
        Some(ScrollKey::End)
    } else {
        None
    }
}

/// The scroll command a key event gives a scroll view: only a pressed key
/// reaching the focused view outside the capture phase counts (see
/// [`spec_scroll_key`]; `horizontal_lines` holds for views that scroll
/// sideways by line).
pub fn scroll_view_key_command(
    capture_phase: bool,
    focused: bool,
    pressed: bool,
    key: &str,
    horizontal_lines: bool,
) -> (r: Option<ScrollKey>)
    ensures
        r == (if !capture_phase && focused && pressed {
            spec_scroll_key(key@, horizontal_lines)
        } else {
            None::<ScrollKey>
        }),
{
    if !capture_phase && focused && pressed {
        scroll_key(key, horizontal_lines)
    } else {
        None
    }
}

/// Every id in `ids` occurs once.
pub open spec fn ids_unique(ids: Seq<u64>) -> bool {
    forall|i: int, j: int| 0 <= i < j < ids.len() ==> ids[i] != ids[j]
}

/// The widgets that follow a scroll state and must be refreshed when it
/// changes.
#[derive(Debug)]
pub struct ScrollStateSubscribers {
    pub scroll_view_id: Option<u64>,
    pub scroll_content_id: Option<u64>,
    pub scroll_bar_ids: Vec<u64>,
}

/// The scroll state a scroll view shares with its scroll bars: the axes it
/// scrolls on, a pending request to bring a virtual item to the viewport
/// start, and the widgets bound to it. `unmeasured` tells that no viewport or
/// content size has been recorded yet (both are still zero); the sizes and
/// the offset themselves are kept by the layout layer.
#[derive(Debug)]
pub struct ScrollState {
    axes: ScrollAxes,
    unmeasured: bool,
    pending_virtual_item: Option<usize>,
    scroll_view_id: Option<u64>,
    scroll_content_id: Option<u64>,
    scroll_bar_ids: Vec<u64>,
}

/// The abstract content of a [`ScrollState`].
pub struct ScrollStateView {
    pub axes: ScrollAxes,
    pub unmeasured: bool,
    pub pending_virtual_item: Option<usize>,
    pub scroll_view_id: Option<u64>,
    pub scroll_content_id: Option<u64>,
    pub scroll_bar_ids: Seq<u64>,
}

impl View for ScrollState {
    type V = ScrollStateView;

    closed spec fn view(&self) -> ScrollStateView {
        ScrollStateView {
            axes: self.axes,
            unmeasured: self.unmeasured,
            pending_virtual_item: self.pending_virtual_item,
            scroll_view_id: self.scroll_view_id,
            scroll_content_id: self.scroll_content_id,
            scroll_bar_ids: self.scroll_bar_ids@,
        }
    }
}

/// A fresh state: vertical, unmeasured, nothing pending, nothing bound.
pub open spec fn fresh_scroll_state() -> ScrollStateView {
    ScrollStateView {
        axes: ScrollAxes::Vertical,
        unmeasured: true,
        pending_virtual_item: None,
        scroll_view_id: None,
        scroll_content_id: None,
        scroll_bar_ids: Seq::empty(),
    }
}

/// `state` with scroll bar `id` bound: appended unless already bound.
pub open spec fn with_scroll_bar(state: ScrollStateView, id: u64) -> ScrollStateView {
    ScrollStateView {
        scroll_bar_ids: if state.scroll_bar_ids.contains(id) {
            state.scroll_bar_ids
        } else {
            state.scroll_bar_ids.push(id)
        },
        ..state
    }
}

/// `state` with virtual item `index` queued for the next layout pass.
pub open spec fn with_pending_item(state: ScrollStateView, index: usize) -> ScrollStateView {
    ScrollStateView { pending_virtual_item: Some(index), ..state }
}

impl ScrollState {
    /// A fresh, unbound state scrolling vertically.
    pub fn new() -> (r: Self)
        ensures
            r@ == fresh_scroll_state(),
    {
        ScrollState {
            axes: ScrollAxes::Vertical,
            unmeasured: true,
            pending_virtual_item: None,
            scroll_view_id: None,
            scroll_content_id: None,
            scroll_bar_ids: Vec::new(),
        }
    }

    /// The axes the bound view scrolls on.
    pub fn axes(&self) -> (r: ScrollAxes)
        ensures
            r == self@.axes,
    {
        self.axes
    }

    /// Whether no viewport or content size has been recorded yet.
    pub fn is_unmeasured(&self) -> (r: bool)
        ensures
            r == self@.unmeasured,
    {
        self.unmeasured
    }

    /// Binds the scroll view (and its content) that this state drives.
    pub fn bind_scroll_view(&mut self, scroll_view_id: u64, scroll_content_id: u64)
        ensures
            final(self)@ == (ScrollStateView {
                scroll_view_id: Some(scroll_view_id),
                scroll_content_id: Some(scroll_content_id),
                ..old(self)@
            }),
    {
        self.scroll_view_id = Some(scroll_view_id);
        self.scroll_content_id = Some(scroll_content_id);
    }

    /// Binds a scroll bar to this state, once: binding the same bar again
    /// changes nothing.
    pub fn bind_scroll_bar(&mut self, scroll_bar_id: u64)
        ensures
            final(self)@ == with_scroll_bar(old(self)@, scroll_bar_id),
    {
        let mut i: usize = 0;
        while i < self.scroll_bar_ids.len()
            invariant
                i <= self.scroll_bar_ids.len(),
                forall|j: int| 0 <= j < i ==> self.scroll_bar_ids@[j] != scroll_bar_id,
            decreases self.scroll_bar_ids.len() - i,
        {
            if self.scroll_bar_ids[i] == scroll_bar_id {
                assert(self.scroll_bar_ids@.contains(scroll_bar_id));
                return;
            }
            i = i + 1;
        }
        self.scroll_bar_ids.push(scroll_bar_id);
    }

    /// Records the axes and whether the viewport and content sizes are both
    /// still zero, from a layout pass; returns whether the axes changed.
    pub fn sync_metrics(&mut self, axes: ScrollAxes, unmeasured: bool) -> (axes_changed: bool)
        ensures
            final(self)@ == (ScrollStateView { axes, unmeasured, ..old(self)@ }),
            axes_changed == (old(self)@.axes != axes),
    {
        let changed = self.axes != axes;
        self.axes = axes;
        self.unmeasured = unmeasured;
        changed
    }

    /// Adopts `axes` while nothing has been measured yet; a measured state
    /// keeps the axes its last layout recorded.
    pub fn sync_unmeasured_axes(&mut self, axes: ScrollAxes)
        ensures
            final(self)@ == (if old(self)@.unmeasured {
                ScrollStateView { axes, ..old(self)@ }
            } else {
                old(self)@
            }),
    {
        if self.unmeasured {
            self.axes = axes;
        }
    }

    /// Queues a virtual item to align with the viewport start on the next
    /// layout pass. Returns whether the pending request changed.
    pub fn scroll_to_item(&mut self, index: usize) -> (changed: bool)
        ensures
            final(self)@ == with_pending_item(old(self)@, index),
            changed == (old(self)@.pending_virtual_item != Some(index)),
    {
        let same = match self.pending_virtual_item {
            Some(p) => p == index,
            None => false,
        };
        if same {
            return false;
        }
        self.pending_virtual_item = Some(index);
        true
    }

    /// Hands out the pending virtual item and clears the request.
    pub fn take_pending_virtual_item(&mut self) -> (r: Option<usize>)
        ensures
            r == old(self)@.pending_virtual_item,
            final(self)@ == (ScrollStateView { pending_virtual_item: None, ..old(self)@ }),
    {
        let r = self.pending_virtual_item;
        self.pending_virtual_item = None;
        r
    }

    /// The pending virtual item, if any.
    pub fn pending_virtual_item(&self) -> (r: Option<usize>)
        ensures
            r == self@.pending_virtual_item,
    {
        self.pending_virtual_item
    }

    /// The widgets bound to this state.
    pub fn subscribers(&self) -> (r: ScrollStateSubscribers)
        ensures
            r.scroll_view_id == self@.scroll_view_id,
            r.scroll_content_id == self@.scroll_content_id,
            r.scroll_bar_ids@ == self@.scroll_bar_ids,
    {
        let mut ids: Vec<u64> = Vec::new();
        let mut i: usize = 0;
        while i < self.scroll_bar_ids.len()
            invariant
                i <= self.scroll_bar_ids.len(),
                ids@ == self.scroll_bar_ids@.subrange(0, i as int),
            decreases self.scroll_bar_ids.len() - i,
        {
            ids.push(self.scroll_bar_ids[i]);
            i = i + 1;
        }
        assert(self.scroll_bar_ids@.subrange(0, i as int) == self.scroll_bar_ids@);
        ScrollStateSubscribers {
            scroll_view_id: self.scroll_view_id,
            scroll_content_id: self.scroll_content_id,
            scroll_bar_ids: ids,
        }
    }
}

/// The axes a pair of per-axis overflow modes scrolls on.
pub open spec fn spec_scroll_axes_of(overflow_x: Overflow, overflow_y: Overflow) -> ScrollAxes {
    match (overflow_x.spec_is_scrollable(), overflow_y.spec_is_scrollable()) {
        (true, true) => ScrollAxes::Both,
        (true, false) => ScrollAxes::Horizontal,
        (false, true) => ScrollAxes::Vertical,
        (false, false) => ScrollAxes::NoAxis,
    }
}

/// The overflow mode that `axes` gives an axis: scrolling axes overflow
/// automatically, the others clip.
pub open spec fn overflow_for(allowed: bool) -> Overflow {
    if allowed {
        Overflow::Auto
    } else {
        Overflow::Clip
    }
}

/// The configuration of a scroll view: per-axis overflow, whether the
/// viewport size is passed on as a hint, whether it retains its content in a
/// layer, and whether it overlays its own scroll bars (`has_overlay_bars`
/// tells whether those bars have been created). The scroll state it drives
/// is shared with scroll bars, so the builders that change the axes take that
/// state by reference and keep it in step. Its child, theme and measured
/// geometry belong to the rendering layer.
#[derive(Debug)]
pub struct ScrollView {
    name: Option<String>,
    overflow_x: Overflow,
    overflow_y: Overflow,
    viewport_width_hint: bool,
    viewport_height_hint: bool,
    retain_content: bool,
    overlay_scroll_bars: bool,
    has_overlay_bars: bool,
}

/// The abstract content of a [`ScrollView`].
pub struct ScrollViewView {
    pub name: Option<Seq<char>>,
    pub overflow_x: Overflow,
    pub overflow_y: Overflow,
    pub viewport_width_hint: bool,
    pub viewport_height_hint: bool,
    pub retain_content: bool,
    pub overlay_scroll_bars: bool,
    pub has_overlay_bars: bool,
}

impl View for ScrollView {
    type V = ScrollViewView;

    closed spec fn view(&self) -> ScrollViewView {
        ScrollViewView {
            name: match self.name {
                Some(n) => Some(n@),
                None => None,
            },
            overflow_x: self.overflow_x,
            overflow_y: self.overflow_y,
            viewport_width_hint: self.viewport_width_hint,
            viewport_height_hint: self.viewport_height_hint,
            retain_content: self.retain_content,
            overlay_scroll_bars: self.overlay_scroll_bars,
            has_overlay_bars: self.has_overlay_bars,
        }
    }
}

/// The axes a scroll view scrolls on.
pub open spec fn spec_view_axes(v: ScrollViewView) -> ScrollAxes {
    spec_scroll_axes_of(v.overflow_x, v.overflow_y)
}

/// The state after a view announces its axes to it: an unmeasured state
/// adopts them, a measured one keeps its own.
pub open spec fn synced_state(state: ScrollStateView, axes: ScrollAxes) -> ScrollStateView {
    if state.unmeasured {
        ScrollStateView { axes, ..state }
    } else {
        state
    }
}

/// A new view: clipped horizontally, scrolling vertically when needed, with
/// overlay bars enabled but not yet created.
pub open spec fn fresh_scroll_view() -> ScrollViewView {
    ScrollViewView {
        name: None,
        overflow_x: Overflow::Clip,
        overflow_y: Overflow::Auto,
        viewport_width_hint: false,
        viewport_height_hint: false,
        retain_content: false,
        overlay_scroll_bars: true,
        has_overlay_bars: false,
    }
}

/// The view `axes` turns `v` into.
pub open spec fn with_axes(v: ScrollViewView, axes: ScrollAxes) -> ScrollViewView {
    ScrollViewView {
        overflow_x: overflow_for(axes.spec_allows_horizontal()),
        overflow_y: overflow_for(axes.spec_allows_vertical()),
        viewport_width_hint: false,
        viewport_height_hint: false,
        ..v
    }
}

impl ScrollView {
    /// A vertically scrolling view.
    pub fn new() -> (r: Self)
        ensures
            r@ == fresh_scroll_view(),
    {
        ScrollView {
            name: None,
            overflow_x: Overflow::Clip,
            overflow_y: Overflow::Auto,
            viewport_width_hint: false,
            viewport_height_hint: false,
            retain_content: false,
            overlay_scroll_bars: true,
            has_overlay_bars: false,
        }
    }

    /// A vertically scrolling view (the same as [`ScrollView::new`]).
    pub fn vertical() -> (r: Self)
        ensures
            r@ == fresh_scroll_view(),
    {
        Self::new()
    }

    /// A horizontally scrolling view; `state` adopts its axes if unmeasured.
    pub fn horizontal(state: &mut ScrollState) -> (r: Self)
        ensures
            r@ == with_axes(fresh_scroll_view(), ScrollAxes::Horizontal),
            final(state)@ == synced_state(old(state)@, ScrollAxes::Horizontal),
    {
        Self::new().axes(ScrollAxes::Horizontal, state)
    }

    /// A view scrolling on both axes; `state` adopts its axes if unmeasured.
    pub fn both(state: &mut ScrollState) -> (r: Self)
        ensures
            r@ == with_axes(fresh_scroll_view(), ScrollAxes::Both),
            final(state)@ == synced_state(old(state)@, ScrollAxes::Both),
    {
        Self::new().axes(ScrollAxes::Both, state)
    }

    /// Scrolls (automatically) on exactly the given axes and clips the
    /// others; the viewport hints are dropped and an unmeasured `state`
    /// adopts the new axes.
    pub fn axes(self, axes: ScrollAxes, state: &mut ScrollState) -> (r: Self)
        ensures
            r@ == with_axes(self@, axes),
            spec_view_axes(r@) == axes,
            final(state)@ == synced_state(old(state)@, axes),
    {
        let mut view = self;
        view.overflow_x = if axes.allows_horizontal() {
            Overflow::Auto
        } else {
            Overflow::Clip
        };
        view.overflow_y = if axes.allows_vertical() {
            Overflow::Auto
        } else {
            Overflow::Clip
        };
        view.viewport_width_hint = false;
        view.viewport_height_hint = false;
        state.sync_unmeasured_axes(view.scroll_axes());
        view
    }

    /// Uses the same overflow mode on both axes; a scrollable mode passes
    /// the viewport width on as a hint.
    pub fn overflow(self, overflow: Overflow, state: &mut ScrollState) -> (r: Self)
        ensures
            r@ == (ScrollViewView {
                overflow_x: overflow,
                overflow_y: overflow,
                viewport_width_hint: overflow.spec_is_scrollable(),
                ..self@
            }),
            final(state)@ == synced_state(old(state)@, spec_scroll_axes_of(overflow, overflow)),
    {
        let mut view = self;
        view.overflow_x = overflow;
        view.overflow_y = overflow;
        view.viewport_width_hint = overflow.is_scrollable();
        state.sync_unmeasured_axes(view.scroll_axes());
        view
    }

    /// Sets the horizontal overflow mode; a scrollable mode passes the
    /// viewport width on as a hint.
    pub fn overflow_x(self, overflow: Overflow, state: &mut ScrollState) -> (r: Self)
        ensures
            r@ == (ScrollViewView {
                overflow_x: overflow,
                viewport_width_hint: overflow.spec_is_scrollable(),
                ..self@
            }),
            final(state)@ == synced_state(
                old(state)@,
                spec_scroll_axes_of(overflow, self@.overflow_y),
            ),
    {
        let mut view = self;
        view.overflow_x = overflow;
        view.viewport_width_hint = overflow.is_scrollable();
        state.sync_unmeasured_axes(view.scroll_axes());
        view
    }

    /// Sets the vertical overflow mode.
    pub fn overflow_y(self, overflow: Overflow, state: &mut ScrollState) -> (r: Self)
        ensures
            r@ == (ScrollViewView { overflow_y: overflow, ..self@ }),
            final(state)@ == synced_state(
                old(state)@,
                spec_scroll_axes_of(self@.overflow_x, overflow),
            ),
    {
        let mut view = self;
        view.overflow_y = overflow;
        state.sync_unmeasured_axes(view.scroll_axes());
        view
    }

    /// Names the view for assistive technology.
    pub fn name(self, name: &str) -> (r: Self)
        ensures
            r@ == (ScrollViewView { name: Some(name@), ..self@ }),
    {
        let mut view = self;
        view.name = Some(name.to_owned());
        view
    }

    /// Switches to driving `state` (for instance one shared with a
    /// standalone scroll bar): an unmeasured `state` adopts the view's axes,
    /// and the overlay bars are rebuilt for it.
    pub fn state(self, state: &mut ScrollState) -> (r: Self)
        ensures
            r@ == (ScrollViewView { has_overlay_bars: false, ..self@ }),
            final(state)@ == synced_state(old(state)@, spec_view_axes(self@)),
    {
        let mut view = self;
        state.sync_unmeasured_axes(view.scroll_axes());
        view.has_overlay_bars = false;
        view
    }

    /// Enables or disables the built-in overlay scroll bars; disabling drops
    /// bars already created.
    pub fn overlay_scroll_bars(self, enabled: bool) -> (r: Self)
        ensures
            r@ == (ScrollViewView {
                overlay_scroll_bars: enabled,
                has_overlay_bars: enabled && self@.has_overlay_bars,
                ..self@
            }),
    {
        let mut view = self;
        view.overlay_scroll_bars = enabled;
        if !enabled {
            view.has_overlay_bars = false;
        }
        view
    }

    /// Passes (or stops passing) the viewport size on both axes as a hint.
    pub fn viewport_size_hint(self, enabled: bool) -> (r: Self)
        ensures
            r@ == (ScrollViewView {
                viewport_width_hint: enabled,
                viewport_height_hint: enabled,
                ..self@
            }),
    {
        let mut view = self;
        view.viewport_width_hint = enabled;
        view.viewport_height_hint = enabled;
        view
    }

    /// Passes (or stops passing) the viewport width as a hint.
    pub fn viewport_width_hint(self, enabled: bool) -> (r: Self)
        ensures
            r@ == (ScrollViewView { viewport_width_hint: enabled, ..self@ }),
    {
        let mut view = self;
        view.viewport_width_hint = enabled;
        view
    }

    /// Passes (or stops passing) the viewport height as a hint.
    pub fn viewport_height_hint(self, enabled: bool) -> (r: Self)
        ensures
            r@ == (ScrollViewView { viewport_height_hint: enabled, ..self@ }),
    {
        let mut view = self;
        view.viewport_height_hint = enabled;
        view
    }

    /// Retains the content behind its own layer so that scrolling only moves
    /// that layer.
    pub fn retain_content_layer(self) -> (r: Self)
        ensures
            r@ == (ScrollViewView { retain_content: true, ..self@ }),
    {
        let mut view = self;
        view.retain_content = true;
        view
    }

    /// The accessible name, if any.
    pub fn view_name(&self) -> (r: Option<&str>)
        ensures
            match r {
                Some(n) => self@.name == Some(n@),
                None => self@.name is None,
            },
    {
        match &self.name {
            Some(n) => Some(n.as_str()),
            None => None,
        }
    }

    /// The axes the view scrolls on.
    pub fn scroll_axes(&self) -> (r: ScrollAxes)
        ensures
            r == spec_view_axes(self@),
    {
        match (self.overflow_x.is_scrollable(), self.overflow_y.is_scrollable()) {
            (true, true) => ScrollAxes::Both,
            (true, false) => ScrollAxes::Horizontal,
            (false, true) => ScrollAxes::Vertical,
            (false, false) => ScrollAxes::NoAxis,
        }
    }

    /// Whether the horizontal axis can be scrolled.
    pub fn scrolls_horizontally(&self) -> (r: bool)
        ensures
            r == self@.overflow_x.spec_is_scrollable(),
    {
        self.overflow_x.is_scrollable()
    }

    /// Whether the vertical axis can be scrolled.
    pub fn scrolls_vertically(&self) -> (r: bool)
        ensures
            r == self@.overflow_y.spec_is_scrollable(),
    {
        self.overflow_y.is_scrollable()
    }

    /// Whether painting is clipped on at least one axis.
    pub fn should_clip_paint(&self) -> (r: bool)
        ensures
            r == (self@.overflow_x.spec_clips_paint() || self@.overflow_y.spec_clips_paint()),
    {
        self.overflow_x.clips_paint() || self.overflow_y.clips_paint()
    }

    /// Whether painting is clipped horizontally.
    pub fn clips_horizontally(&self) -> (r: bool)
        ensures
            r == self@.overflow_x.spec_clips_paint(),
    {
        self.overflow_x.clips_paint()
    }

    /// Whether painting is clipped vertically.
    pub fn clips_vertically(&self) -> (r: bool)
        ensures
            r == self@.overflow_y.spec_clips_paint(),
    {
        self.overflow_y.clips_paint()
    }

    /// Whether the viewport width is passed on as a hint.
    pub fn has_viewport_width_hint(&self) -> (r: bool)
        ensures
            r == self@.viewport_width_hint,
    {
        self.viewport_width_hint
    }

    /// Whether the viewport height is passed on as a hint.
    pub fn has_viewport_height_hint(&self) -> (r: bool)
        ensures
            r == self@.viewport_height_hint,
    {
        self.viewport_height_hint
    }

    /// Whether the content is retained in its own layer.
    pub fn retains_content(&self) -> (r: bool)
        ensures
            r == self@.retain_content,
    {
        self.retain_content
    }

    /// Whether the overlay scroll bars are enabled.
    pub fn overlays_scroll_bars(&self) -> (r: bool)
        ensures
            r == self@.overlay_scroll_bars,
    {
        self.overlay_scroll_bars
    }

    /// Creates the overlay scroll bars when they are enabled, the view
    /// scrolls on some axis and they do not exist yet; returns whether they
    /// were created now.
    pub fn ensure_overlay_bars(&mut self) -> (created: bool)
        ensures
            created == (old(self)@.overlay_scroll_bars && spec_view_axes(old(self)@)
                != ScrollAxes::NoAxis && !old(self)@.has_overlay_bars),
            final(self)@ == (ScrollViewView {
                has_overlay_bars: old(self)@.has_overlay_bars || created,
                ..old(self)@
            }),
    {
        let axes = self.scroll_axes();
        let scrolls = match axes {
            ScrollAxes::NoAxis => false,
            _ => true,
        };
        if self.overlay_scroll_bars && scrolls && !self.has_overlay_bars {
            self.has_overlay_bars = true;
            true
        } else {
            false
        }
    }
}

/// Choosing axes and reading them back gives the same axes, for every axes
/// value.
pub proof fn lemma_axes_round_trip(axes: ScrollAxes)
    ensures
        spec_scroll_axes_of(
            overflow_for(axes.spec_allows_horizontal()),
            overflow_for(axes.spec_allows_vertical()),
        ) == axes,
{
}

/// A scrollable axis always clips its paint.
pub proof fn lemma_scrollable_overflow_clips(overflow: Overflow)
    ensures
        overflow.spec_is_scrollable() ==> overflow.spec_clips_paint(),
{
}

/// Binding a scroll bar never lists a bar twice: the bar is bound
/// afterwards, bars stay unique, and binding it again changes nothing.
pub proof fn lemma_bind_scroll_bar_keeps_ids_unique(state: ScrollStateView, id: u64)
    requires
        ids_unique(state.scroll_bar_ids),
    ensures
        ids_unique(with_scroll_bar(state, id).scroll_bar_ids),
        with_scroll_bar(state, id).scroll_bar_ids.contains(id),
        with_scroll_bar(with_scroll_bar(state, id), id) == with_scroll_bar(state, id),
{
    let after = with_scroll_bar(state, id);
    if !state.scroll_bar_ids.contains(id) {
        assert(after.scroll_bar_ids[state.scroll_bar_ids.len() as int] == id);
    }
}

/// Asking twice for the same virtual item leaves the state as the first
/// request did, and the second request reports no change.
pub proof fn lemma_scroll_to_item_idempotent(state: ScrollStateView, index: usize)
    ensures
        with_pending_item(with_pending_item(state, index), index) == with_pending_item(
            state,
            index,
        ),
        with_pending_item(state, index).pending_virtual_item == Some(index),
{
}

/// A view scrolls on exactly the axes whose overflow mode is scrollable
/// (`Scroll` or `Auto`), each axis on its own.
pub proof fn lemma_scroll_axes_follow_overflow(x: Overflow, y: Overflow)
    ensures
        spec_scroll_axes_of(x, y).spec_allows_horizontal() == (x == Overflow::Scroll || x
            == Overflow::Auto),
        spec_scroll_axes_of(x, y).spec_allows_vertical() == (y == Overflow::Scroll || y
            == Overflow::Auto),
        x.spec_is_scrollable() == (x == Overflow::Scroll || x == Overflow::Auto),
        (spec_scroll_axes_of(x, y) == ScrollAxes::NoAxis) == (!x.spec_is_scrollable()
            && !y.spec_is_scrollable()),
{
}

/// Line, page and end keys scroll a view whether or not it scrolls sideways
/// by line; the left and right arrows scroll only a view that does.
pub proof fn lemma_scroll_view_keys(horizontal_lines: bool)
    ensures
        spec_scroll_key("ArrowUp"@, horizontal_lines) == Some(ScrollKey::LineUp),
        spec_scroll_key("ArrowDown"@, horizontal_lines) == Some(ScrollKey::LineDown),
        spec_scroll_key("PageUp"@, horizontal_lines) == Some(ScrollKey::PageUp),
        spec_scroll_key("PageDown"@, horizontal_lines) == Some(ScrollKey::PageDown),
        spec_scroll_key("Home"@, horizontal_lines) == Some(ScrollKey::Home),
        spec_scroll_key("End"@, horizontal_lines) == Some(ScrollKey::End),
        spec_scroll_key("ArrowLeft"@, true) == Some(ScrollKey::LineLeft),
        spec_scroll_key("ArrowRight"@, true) == Some(ScrollKey::LineRight),
        spec_scroll_key("ArrowLeft"@, false) is None,
        spec_scroll_key("ArrowRight"@, false) is None,
{
    reveal_strlit("PageUp");
    reveal_strlit("PageDown");
    reveal_strlit("Home");
    reveal_strlit("End");
    reveal_strlit("ArrowUp");
    reveal_strlit("ArrowDown");
    reveal_strlit("ArrowLeft");
    reveal_strlit("ArrowRight");
    assert("PageUp"@.len() == 6);
    assert("PageDown"@.len() == 8);
    assert("Home"@.len() == 4);
    assert("End"@.len() == 3);
    assert("ArrowUp"@.len() == 7);
    assert("ArrowDown"@.len() == 9);
    assert("ArrowLeft"@.len() == 9);
    assert("ArrowRight"@.len() == 10);
    assert("ArrowDown"@[5] != "ArrowLeft"@[5]);
}

} // verus!
