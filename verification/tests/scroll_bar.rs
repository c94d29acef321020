use sui_widgets::{scroll_bar_key, scroll_bar_key_command, ScrollBarCommand, ScrollBarInteraction};

#[test]
fn scroll_bar_keys_follow_the_axis() {
    assert_eq!(scroll_bar_key("ArrowUp", true), Some(ScrollBarCommand::LineBack));
    assert_eq!(scroll_bar_key("ArrowDown", true), Some(ScrollBarCommand::LineForward));
    assert_eq!(scroll_bar_key("ArrowLeft", true), None);
    assert_eq!(scroll_bar_key("ArrowLeft", false), Some(ScrollBarCommand::LineBack));
    assert_eq!(scroll_bar_key("ArrowRight", false), Some(ScrollBarCommand::LineForward));
    assert_eq!(scroll_bar_key("ArrowDown", false), None);
    assert_eq!(scroll_bar_key("PageUp", false), Some(ScrollBarCommand::PageBack));
    assert_eq!(scroll_bar_key("PageDown", true), Some(ScrollBarCommand::PageForward));
    assert_eq!(scroll_bar_key("Home", true), Some(ScrollBarCommand::Start));
    assert_eq!(scroll_bar_key("End", false), Some(ScrollBarCommand::End));
    assert_eq!(scroll_bar_key("Tab", true), None);
}

#[test]
fn scroll_bar_keys_need_focus_a_press_and_room_to_scroll() {
    assert_eq!(scroll_bar_key_command(true, true, true, "End", true), Some(ScrollBarCommand::End));
    assert_eq!(scroll_bar_key_command(false, true, true, "End", true), None);
    assert_eq!(scroll_bar_key_command(true, false, true, "End", true), None);
    assert_eq!(scroll_bar_key_command(true, true, false, "End", true), None);
}

#[test]
fn press_drag_and_release_of_one_pointer() {
    let mut bar = ScrollBarInteraction::new();
    assert!(bar.pointer_enter());
    let press = bar.pointer_down(7, true, true, true, true);
    assert!(press.grabbed && press.focus && press.drag_changed && !press.hover_changed);
    assert!(bar.is_dragging());
    assert_eq!(bar.pointer_id(), Some(7));

    let moved = bar.pointer_move(7, false);
    assert!(moved.drag_applies && moved.hover_changed);
    assert!(!bar.pointer_move(8, false).drag_applies);

    // Leaving while dragging keeps the hover state.
    assert!(!bar.pointer_leave(7));

    // Another pointer's release changes nothing.
    assert!(!bar.pointer_up(8, true, true).released);
    assert!(bar.is_dragging());

    let release = bar.pointer_up(7, true, true);
    assert!(release.released && release.apply_drag && release.drag_changed && release.hover_changed);
    assert!(!bar.is_dragging() && bar.is_hovered());
    assert_eq!(bar.pointer_id(), None);
    assert!(!bar.drag_applies(7));
}

#[test]
fn presses_outside_the_track_or_bar_are_ignored() {
    let mut bar = ScrollBarInteraction::new();
    assert!(!bar.pointer_down(1, true, true, false, true).grabbed);
    assert!(!bar.pointer_down(1, false, true, true, true).grabbed);
    assert!(!bar.pointer_down(1, true, false, true, true).grabbed);
    assert!(!bar.is_hovered() && !bar.is_dragging());

    let press = bar.pointer_down(1, true, true, true, false);
    assert!(press.grabbed && !press.focus);
}

#[test]
fn cancel_ends_the_drag_and_hover() {
    let mut bar = ScrollBarInteraction::new();
    bar.pointer_down(3, true, true, true, true);
    assert!(!bar.pointer_cancel(4).released);
    let cancel = bar.pointer_cancel(3);
    assert!(cancel.released && !cancel.apply_drag && cancel.hover_changed && cancel.drag_changed);
    assert!(!bar.is_hovered() && !bar.is_dragging());
    assert!(bar.pointer_leave(3) == false);
}
