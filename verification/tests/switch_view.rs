use sui_widgets::SwitchView;

fn active_label<'a>(view: &SwitchView, labels: &[&'a str]) -> Option<&'a str> {
    view.selected_index().map(|index| labels[index])
}

#[test]
fn switch_view_only_exposes_selected_child_semantics() {
    let labels = ["Brush options", "Pan options"];
    let view = SwitchView::new().selected(1).with_child().with_child();
    assert_eq!(active_label(&view, &labels), Some("Pan options"));
    assert_ne!(active_label(&view, &labels), Some("Brush options"));
}

#[test]
fn switch_view_selected_when_updates_active_child() {
    let labels = ["Brush options", "Fill options"];
    let mut view = SwitchView::new().with_child().with_child();
    view.set_reader_selection(0);
    assert_eq!(active_label(&view, &labels), Some("Brush options"));
    view.set_reader_selection(1);
    assert_eq!(active_label(&view, &labels), Some("Fill options"));
    assert_ne!(active_label(&view, &labels), Some("Brush options"));
}

#[test]
fn switch_view_observable_selection_relayouts_retained_child() {
    let labels = ["Brush options", "Fill options"];
    let mut view = SwitchView::new().selected_from(0).with_child().with_child();
    assert_eq!(active_label(&view, &labels), Some("Brush options"));
    view.set_reader_selection(1);
    assert_eq!(active_label(&view, &labels), Some("Fill options"));
    assert_eq!(view.child_count(), 2);
}

#[test]
fn switch_view_without_matching_child_shows_nothing() {
    let mut view = SwitchView::new();
    assert_eq!(view.selected_index(), None);
    view.push();
    assert_eq!(view.selected_index(), Some(0));
    let view = view.selected(3);
    assert_eq!(view.selected_index(), None);
}
