use sui_widgets::{
    scroll_key, scroll_view_key_command, Overflow, ScrollAxes, ScrollKey, ScrollState, ScrollView,
};

const ALL_AXES: [ScrollAxes; 4] =
    [ScrollAxes::NoAxis, ScrollAxes::Vertical, ScrollAxes::Horizontal, ScrollAxes::Both];

#[test]
fn scroll_axes_report_their_directions() {
    assert!(!ScrollAxes::NoAxis.allows_horizontal() && !ScrollAxes::NoAxis.allows_vertical());
    assert!(ScrollAxes::Vertical.allows_vertical() && !ScrollAxes::Vertical.allows_horizontal());
    assert!(ScrollAxes::Horizontal.allows_horizontal() && !ScrollAxes::Horizontal.allows_vertical());
    assert!(ScrollAxes::Both.allows_horizontal() && ScrollAxes::Both.allows_vertical());
}

#[test]
fn overflow_modes() {
    assert!(!Overflow::Visible.is_scrollable() && !Overflow::Visible.clips_paint());
    assert!(!Overflow::Clip.is_scrollable() && Overflow::Clip.clips_paint());
    assert!(Overflow::Scroll.is_scrollable() && Overflow::Scroll.clips_paint());
    assert!(Overflow::Auto.is_scrollable() && Overflow::Auto.clips_paint());
}

#[test]
fn chosen_axes_read_back_unchanged() {
    for axes in ALL_AXES {
        let mut state = ScrollState::new();
        let view = ScrollView::both(&mut state)
            .overflow(Overflow::Visible, &mut state)
            .axes(axes, &mut state);
        assert_eq!(view.scroll_axes(), axes);
        assert_eq!(state.axes(), axes);
        assert!(!view.has_viewport_width_hint());
        assert!(!view.has_viewport_height_hint());
    }
}

#[test]
fn constructors_pick_their_axes() {
    let mut state = ScrollState::new();
    assert_eq!(ScrollView::new().scroll_axes(), ScrollAxes::Vertical);
    assert_eq!(ScrollView::vertical().scroll_axes(), ScrollAxes::Vertical);
    assert_eq!(state.axes(), ScrollAxes::Vertical);
    assert_eq!(ScrollView::horizontal(&mut state).scroll_axes(), ScrollAxes::Horizontal);
    assert_eq!(state.axes(), ScrollAxes::Horizontal);
    assert_eq!(ScrollView::both(&mut state).scroll_axes(), ScrollAxes::Both);
    assert_eq!(state.axes(), ScrollAxes::Both);
    assert!(ScrollView::new().should_clip_paint());
    assert!(ScrollView::new().scrolls_vertically() && !ScrollView::new().scrolls_horizontally());
}

#[test]
fn visible_overflow_neither_scrolls_nor_clips() {
    let mut state = ScrollState::new();
    let view = ScrollView::vertical().overflow(Overflow::Visible, &mut state);
    assert_eq!(view.scroll_axes(), ScrollAxes::NoAxis);
    assert_eq!(state.axes(), ScrollAxes::NoAxis);
    assert!(!view.should_clip_paint());
    assert!(!view.clips_horizontally() && !view.clips_vertically());
    assert!(!view.has_viewport_width_hint());
    let mut view = view;
    assert!(!view.ensure_overlay_bars());
}

#[test]
fn per_axis_overflow_and_hints() {
    let mut state = ScrollState::new();
    let view = ScrollView::new().overflow_x(Overflow::Scroll, &mut state);
    assert_eq!(view.scroll_axes(), ScrollAxes::Both);
    assert!(view.has_viewport_width_hint());
    let view = view.overflow_y(Overflow::Clip, &mut state);
    assert_eq!(view.scroll_axes(), ScrollAxes::Horizontal);
    assert_eq!(state.axes(), ScrollAxes::Horizontal);
    let view = view.overflow_x(Overflow::Visible, &mut state);
    assert!(!view.clips_horizontally() && view.clips_vertically());
    assert!(view.should_clip_paint());
    let view = view.viewport_size_hint(true);
    assert!(view.has_viewport_width_hint() && view.has_viewport_height_hint());
    let view = view.viewport_width_hint(false).viewport_height_hint(false);
    assert!(!view.has_viewport_width_hint() && !view.has_viewport_height_hint());
    assert!(ScrollView::new().retain_content_layer().retains_content());
    assert!(!ScrollView::new().retains_content());
}

#[test]
fn overlay_bars_are_created_once_and_dropped_when_disabled() {
    let mut view = ScrollView::vertical().name("Log");
    assert_eq!(view.view_name(), Some("Log"));
    assert!(view.overlays_scroll_bars());
    assert!(view.ensure_overlay_bars());
    assert!(!view.ensure_overlay_bars());
    let mut view = view.overlay_scroll_bars(false);
    assert!(!view.ensure_overlay_bars());
    let mut view = view.overlay_scroll_bars(true);
    assert!(view.ensure_overlay_bars());
    let mut shared = ScrollState::new();
    let mut view = view.state(&mut shared);
    assert!(view.ensure_overlay_bars());
}

#[test]
fn measured_state_keeps_its_axes() {
    let mut state = ScrollState::new();
    assert!(state.is_unmeasured());
    assert!(state.sync_metrics(ScrollAxes::Both, false));
    assert!(!state.sync_metrics(ScrollAxes::Both, false));
    let view = ScrollView::new().state(&mut state);
    assert_eq!(state.axes(), ScrollAxes::Both);
    let view = view.axes(ScrollAxes::Horizontal, &mut state);
    assert_eq!(state.axes(), ScrollAxes::Both);
    assert_eq!(view.scroll_axes(), ScrollAxes::Horizontal);
}

#[test]
fn scroll_bars_are_bound_once() {
    let mut state = ScrollState::new();
    state.bind_scroll_bar(7);
    state.bind_scroll_bar(9);
    state.bind_scroll_bar(7);
    state.bind_scroll_view(1, 2);
    let subscribers = state.subscribers();
    assert_eq!(subscribers.scroll_bar_ids, vec![7, 9]);
    assert_eq!(subscribers.scroll_view_id, Some(1));
    assert_eq!(subscribers.scroll_content_id, Some(2));
}

#[test]
fn scroll_to_item_reports_only_new_requests() {
    let mut state = ScrollState::new();
    assert_eq!(state.pending_virtual_item(), None);
    assert!(state.scroll_to_item(4));
    assert!(!state.scroll_to_item(4));
    assert!(state.scroll_to_item(5));
    assert_eq!(state.pending_virtual_item(), Some(5));
    assert_eq!(state.take_pending_virtual_item(), Some(5));
    assert_eq!(state.take_pending_virtual_item(), None);
    assert!(state.scroll_to_item(5));
}


#[test]
fn scroll_view_keys_follow_line_direction() {
    assert_eq!(scroll_key("ArrowUp", false), Some(ScrollKey::LineUp));
    assert_eq!(scroll_key("ArrowLeft", false), None);
    assert_eq!(scroll_key("ArrowLeft", true), Some(ScrollKey::LineLeft));
    assert_eq!(scroll_key("ArrowRight", true), Some(ScrollKey::LineRight));
    assert_eq!(scroll_key("PageDown", false), Some(ScrollKey::PageDown));
    assert_eq!(scroll_key("Home", true), Some(ScrollKey::Home));
    assert_eq!(scroll_key("End", false), Some(ScrollKey::End));
    assert_eq!(scroll_key("Escape", true), None);
}

#[test]
fn scroll_view_keys_need_focus_and_a_press_outside_capture() {
    assert_eq!(scroll_view_key_command(false, true, true, "PageUp", true), Some(ScrollKey::PageUp));
    assert_eq!(scroll_view_key_command(true, true, true, "PageUp", true), None);
    assert_eq!(scroll_view_key_command(false, false, true, "PageUp", true), None);
    assert_eq!(scroll_view_key_command(false, true, false, "PageUp", true), None);
}
