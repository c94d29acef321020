use sui_widgets::{scroll_key, ScrollKey, TouchMoveOutcome, TouchScroll};

#[test]
fn touch_pan_captures_once_and_releases_on_end() {
    let mut touch = TouchScroll::new();
    touch.touch_down(4, true);
    assert!(!touch.is_dragging());
    // Below the drag threshold nothing scrolls yet.
    assert!(!touch.move_should_scroll(4, false, false));
    assert!(touch.move_should_scroll(4, false, true));
    assert_eq!(touch.after_scroll(true), TouchMoveOutcome { capture: true, handled: true });
    assert!(touch.is_dragging());
    // Once dragging, the threshold no longer matters and no new capture is asked.
    assert!(touch.move_should_scroll(4, false, false));
    assert_eq!(touch.after_scroll(true), TouchMoveOutcome { capture: false, handled: true });
    assert!(touch.touch_end(4, false));
    assert!(!touch.is_dragging());
    assert!(!touch.move_should_scroll(4, false, true));
}

#[test]
fn boundary_pan_captures_without_consuming() {
    let mut touch = TouchScroll::new();
    touch.touch_down(1, true);
    assert_eq!(touch.after_scroll(false), TouchMoveOutcome { capture: true, handled: false });
    assert_eq!(touch.after_scroll(false), TouchMoveOutcome { capture: false, handled: false });
    // In the capture phase the end neither releases nor consumes.
    assert!(!touch.touch_end(1, true));
}

#[test]
fn other_pointers_and_ineligible_downs_are_ignored() {
    let mut touch = TouchScroll::new();
    touch.touch_down(2, false);
    assert!(!touch.move_should_scroll(2, false, true));
    touch.touch_down(2, true);
    assert!(!touch.move_should_scroll(3, false, true));
    assert!(!touch.move_should_scroll(2, true, true));
    assert!(!touch.touch_end(3, false));
    assert!(touch.move_should_scroll(2, false, true));
    // A tap that never dragged ends without releasing anything.
    assert!(!touch.touch_end(2, false));
}

#[test]
fn scroll_keys() {
    assert_eq!(scroll_key("ArrowUp", true), Some(ScrollKey::LineUp));
    assert_eq!(scroll_key("ArrowDown", false), Some(ScrollKey::LineDown));
    assert_eq!(scroll_key("ArrowLeft", true), Some(ScrollKey::LineLeft));
    assert_eq!(scroll_key("ArrowRight", true), Some(ScrollKey::LineRight));
    assert_eq!(scroll_key("ArrowLeft", false), None);
    assert_eq!(scroll_key("ArrowRight", false), None);
    assert_eq!(scroll_key("PageUp", false), Some(ScrollKey::PageUp));
    assert_eq!(scroll_key("PageDown", true), Some(ScrollKey::PageDown));
    assert_eq!(scroll_key("Home", true), Some(ScrollKey::Home));
    assert_eq!(scroll_key("End", false), Some(ScrollKey::End));
    assert_eq!(scroll_key("Escape", true), None);
}
