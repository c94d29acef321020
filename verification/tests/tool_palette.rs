use sui_widgets::{
    tool_palette_item_id, Axis, IconGlyph, PaletteKey, SemanticsAction, ToolPalette,
    ToolPaletteItem,
};

fn paint_tools() -> ToolPalette {
    ToolPalette::vertical("Paint tools").items(vec![
        ToolPaletteItem::new(IconGlyph::Brush, "Brush tool"),
        ToolPaletteItem::new(IconGlyph::Eraser, "Eraser tool"),
        ToolPaletteItem::new(IconGlyph::PaintBucket, "Fill tool"),
    ])
}

fn selected_button_labels(palette: &ToolPalette, parent: u64) -> Vec<String> {
    (0..palette.item_list().len())
        .map(|index| palette.item_semantics(parent, index))
        .filter(|node| node.selected)
        .map(|node| node.name)
        .collect()
}

#[test]
fn tool_palette_exposes_selected_tool_semantics() {
    let palette = paint_tools().selected(1);
    let container = palette.palette_semantics(9, false);
    assert_eq!(container.name, "Paint tools");
    assert_eq!(container.value, Some("Eraser tool".to_string()));
    assert!(container.actions.contains(&SemanticsAction::Focus));
    assert!(container.actions.contains(&SemanticsAction::SetValue));

    let selected = palette.item_semantics(9, 1);
    assert_eq!(selected.name, "Eraser tool");
    assert!(selected.selected);
    assert!(selected.actions.contains(&SemanticsAction::Activate));
}

#[test]
fn tool_palette_pointer_activation_updates_selection() {
    let mut palette = paint_tools().selected(0);
    let mut chosen = None;
    // The pointer goes down and up over the fill tool.
    let hit = palette.hit_index(&[false, false, true]);
    assert_eq!(hit, Some(2));
    assert!(palette.pointer_down(hit));
    if let Some(change) = palette.pointer_up(hit) {
        chosen = Some((change.index, change.label));
    }
    assert_eq!(chosen, Some((2, "Fill tool".to_string())));
    assert_eq!(selected_button_labels(&palette, 1), vec!["Fill tool".to_string()]);
}

#[test]
fn tool_palette_keyboard_moves_between_tools() {
    let mut palette = paint_tools().selected(0);
    let mut chosen: Vec<(usize, String)> = Vec::new();
    assert!(palette.pointer_down(Some(0)));
    if let Some(change) = palette.pointer_up(Some(0)) {
        chosen.push((change.index, change.label));
    }
    let outcome = palette.handle_key("ArrowDown");
    assert!(outcome.handled);
    if let Some(change) = outcome.change {
        chosen.push((change.index, change.label));
    }
    assert_eq!(chosen.last(), Some(&(1, "Eraser tool".to_string())));
    assert_eq!(selected_button_labels(&palette, 1), vec!["Eraser tool".to_string()]);
}

#[test]
fn key_commands_follow_the_axis() {
    let vertical = paint_tools();
    assert_eq!(vertical.key_command("ArrowUp"), Some(PaletteKey::Previous));
    assert_eq!(vertical.key_command("ArrowDown"), Some(PaletteKey::Next));
    assert_eq!(vertical.key_command("ArrowLeft"), None);
    assert_eq!(vertical.key_command("ArrowRight"), None);
    assert_eq!(vertical.key_command("Home"), Some(PaletteKey::First));
    assert_eq!(vertical.key_command("End"), Some(PaletteKey::Last));
    assert_eq!(vertical.key_command("Enter"), Some(PaletteKey::Activate));
    assert_eq!(vertical.key_command(" "), Some(PaletteKey::Activate));
    assert_eq!(vertical.key_command("Tab"), None);

    let horizontal = ToolPalette::horizontal("Tools");
    assert_eq!(horizontal.axis(), Axis::Horizontal);
    assert_eq!(horizontal.key_command("ArrowLeft"), Some(PaletteKey::Previous));
    assert_eq!(horizontal.key_command("ArrowRight"), Some(PaletteKey::Next));
    assert_eq!(horizontal.key_command("ArrowUp"), None);
}

#[test]
fn unhandled_key_changes_nothing() {
    let mut palette = paint_tools().selected(1);
    let outcome = palette.handle_key("ArrowLeft");
    assert!(!outcome.handled);
    assert!(outcome.change.is_none());
    assert_eq!(palette.selected_index(), Some(1));
}

#[test]
fn arrows_skip_disabled_tools_and_stop_at_the_ends() {
    let mut palette = ToolPalette::vertical("Tools").items(vec![
        ToolPaletteItem::new(IconGlyph::Brush, "A"),
        ToolPaletteItem::new(IconGlyph::Eraser, "B").disabled(),
        ToolPaletteItem::new(IconGlyph::PaintBucket, "C"),
    ]);
    palette = palette.selected(0);
    let step = palette.handle_key("ArrowDown");
    assert_eq!(step.change.map(|c| c.index), Some(2));
    // At the last tool a further step re-announces it.
    let again = palette.handle_key("ArrowDown");
    assert_eq!(again.change.map(|c| c.index), Some(2));
    let back = palette.handle_key("ArrowUp");
    assert_eq!(back.change.map(|c| c.index), Some(0));
    assert_eq!(palette.selected_index(), Some(0));
}

#[test]
fn stepping_stops_when_only_disabled_tools_remain() {
    let mut palette = ToolPalette::vertical("Tools")
        .items(vec![
            ToolPaletteItem::new(IconGlyph::Brush, "A"),
            ToolPaletteItem::new(IconGlyph::Eraser, "B").disabled(),
            ToolPaletteItem::new(IconGlyph::PaintBucket, "C").disabled(),
        ])
        .selected(0);
    let step = palette.handle_key("ArrowDown");
    assert!(step.handled);
    assert!(step.change.is_none());
    assert_eq!(palette.selected_index(), Some(0));
}

#[test]
fn step_from_no_selection_starts_at_first_tool() {
    let mut palette = paint_tools();
    assert_eq!(palette.selected_index(), None);
    let step = palette.handle_key("ArrowDown");
    assert_eq!(step.change.map(|c| c.index), Some(1));
    let mut palette = paint_tools();
    let back = palette.handle_key("ArrowUp");
    assert_eq!(back.change.map(|c| c.index), Some(0));
}

#[test]
fn home_and_end_jump_to_enabled_ends() {
    let mut palette = ToolPalette::horizontal("Tools").items(vec![
        ToolPaletteItem::new(IconGlyph::Brush, "A").disabled(),
        ToolPaletteItem::new(IconGlyph::Eraser, "B"),
        ToolPaletteItem::new(IconGlyph::PaintBucket, "C"),
        ToolPaletteItem::new(IconGlyph::Storage, "D").disabled(),
    ]);
    let end = palette.handle_key("End");
    assert_eq!(end.change.map(|c| (c.index, c.label)), Some((2, "C".to_string())));
    let home = palette.handle_key("Home");
    assert_eq!(home.change.map(|c| (c.index, c.label)), Some((1, "B".to_string())));
}

#[test]
fn enter_reannounces_current_tool() {
    let mut palette = paint_tools().selected(2);
    let outcome = palette.handle_key("Enter");
    assert!(outcome.handled);
    assert_eq!(outcome.change.map(|c| c.index), Some(2));
    let mut empty = paint_tools();
    let outcome = empty.handle_key(" ");
    assert!(outcome.handled);
    assert!(outcome.change.is_none());
}

#[test]
fn empty_palette_ignores_navigation() {
    let mut palette = ToolPalette::vertical("Empty");
    assert!(!palette.accepts_focus());
    for key in ["ArrowDown", "ArrowUp", "Home", "End", "Enter"] {
        let outcome = palette.handle_key(key);
        assert!(outcome.handled);
        assert!(outcome.change.is_none());
    }
    assert_eq!(palette.selected_index(), None);
}

#[test]
fn out_of_range_selection_is_not_reported() {
    let palette = paint_tools().selected(7);
    assert_eq!(palette.selected_index(), None);
    assert_eq!(palette.selected_label(), None);
    assert_eq!(palette.palette_semantics(1, true).value, None);
}

#[test]
fn select_ignores_disabled_and_missing_tools() {
    let mut palette = ToolPalette::vertical("Tools")
        .item(ToolPaletteItem::new(IconGlyph::Brush, "A"))
        .item(ToolPaletteItem::new(IconGlyph::Eraser, "B").disabled())
        .selected(0);
    assert!(palette.select(1).is_none());
    assert!(palette.select(5).is_none());
    assert_eq!(palette.selected_index(), Some(0));
    let change = palette.select(0).expect("enabled tool is selected");
    assert_eq!((change.index, change.label.as_str()), (0, "A"));
}

#[test]
fn reader_selection_overrides_stored_selection() {
    let mut palette = paint_tools().selected(0);
    palette.set_reader_selection(Some(2));
    assert_eq!(palette.selected_index(), Some(2));
    let step = palette.handle_key("ArrowUp");
    assert_eq!(step.change.map(|c| c.index), Some(1));
    // The reader still decides what is shown.
    assert_eq!(palette.selected_index(), Some(2));
    palette.set_reader_selection(None);
    assert_eq!(palette.selected_index(), None);
    let palette = palette.selected(1);
    assert_eq!(palette.selected_index(), Some(1));
}

#[test]
fn hit_index_skips_disabled_tools() {
    let palette = ToolPalette::vertical("Tools").items(vec![
        ToolPaletteItem::new(IconGlyph::Brush, "A").disabled(),
        ToolPaletteItem::new(IconGlyph::Eraser, "B"),
    ]);
    assert_eq!(palette.hit_index(&[true, false]), None);
    assert_eq!(palette.hit_index(&[true, true]), Some(1));
    assert_eq!(palette.hit_index(&[false, false]), None);
    assert!(palette.accepts_focus());
}

#[test]
fn release_elsewhere_does_not_select() {
    let mut palette = paint_tools().selected(0);
    assert!(palette.pointer_down(Some(1)));
    assert_eq!(palette.pressed_index(), Some(1));
    assert!(palette.pointer_up(Some(2)).is_none());
    assert_eq!(palette.selected_index(), Some(0));
    assert_eq!(palette.hovered_index(), Some(2));
    assert_eq!(palette.pressed_index(), None);
    assert!(!palette.pointer_down(None));
}

#[test]
fn hover_leave_and_cancel() {
    let mut palette = paint_tools();
    assert!(palette.pointer_move(Some(1)));
    assert!(!palette.pointer_move(Some(1)));
    assert!(palette.pointer_leave());
    assert_eq!(palette.hovered_index(), None);
    assert!(!palette.pointer_cancel());
    palette.pointer_down(Some(0));
    assert!(palette.pointer_cancel());
    assert_eq!(palette.pressed_index(), None);
    assert_eq!(palette.hovered_index(), None);
}

#[test]
fn item_semantics_reports_state_and_id() {
    let mut palette = ToolPalette::vertical("Tools")
        .item(ToolPaletteItem::new(IconGlyph::Brush, "Brush"))
        .item(ToolPaletteItem::new(IconGlyph::Eraser, "Erase").disabled())
        .selected(0);
    palette.pointer_move(Some(0));
    let first = palette.item_semantics(30, 0);
    assert_eq!(first.id, tool_palette_item_id(30, 0));
    assert_eq!(first.parent, 30);
    assert_eq!(first.value, "Brush");
    assert!(first.hovered && first.selected && !first.disabled);
    let second = palette.item_semantics(30, 1);
    assert!(second.disabled && !second.hovered && !second.selected);
    assert!(second.actions.is_empty());
    assert_eq!(palette.name(), "Tools");
    assert_eq!(palette.item_list()[1].icon(), IconGlyph::Eraser);
    assert_eq!(palette.item_list()[1].label(), "Erase");
    assert!(!palette.item_list()[1].is_enabled());
}

#[test]
fn tool_palette_item_clone_and_equality() {
    let item = ToolPaletteItem::new(IconGlyph::Brush, "Brush");
    assert!(item.clone() == item);
    assert!(item.clone().disabled() != item);
    assert!(ToolPaletteItem::new(IconGlyph::Eraser, "Brush") != item);
    assert!(ToolPaletteItem::new(IconGlyph::Brush, "Brush tool") != item);
}

#[test]
fn wider_moves_land_by_clamped_steps() {
    let mut palette = ToolPalette::horizontal("Tools").items(vec![
        ToolPaletteItem::new(IconGlyph::Brush, "A"),
        ToolPaletteItem::new(IconGlyph::Eraser, "B").disabled(),
        ToolPaletteItem::new(IconGlyph::PaintBucket, "C"),
        ToolPaletteItem::new(IconGlyph::Storage, "D"),
    ]);
    palette = palette.selected(0);

    let change = palette.move_selection(2).expect("lands on C");
    assert_eq!((change.index, change.label.as_str()), (2, "C"));

    let change = palette.move_selection(5).expect("clamps to D");
    assert_eq!(change.index, 3);

    // From D, two back lands on the disabled B, and two more clamps to A.
    let change = palette.move_selection(-2).expect("reaches A");
    assert_eq!(change.index, 0);
    assert_eq!(palette.selected_index(), Some(0));
}

#[test]
fn zero_move_on_disabled_middle_tool_gives_up() {
    let mut palette = ToolPalette::horizontal("Tools")
        .items(vec![
            ToolPaletteItem::new(IconGlyph::Brush, "A"),
            ToolPaletteItem::new(IconGlyph::Eraser, "B").disabled(),
            ToolPaletteItem::new(IconGlyph::PaintBucket, "C"),
        ])
        .selected(1);
    assert!(palette.move_selection(0).is_none());
    assert_eq!(palette.selected_index(), Some(1));
}
