use sui_widgets::{
    context_menu_item_semantics_node, menu_item_semantics_node, virtual_menu_item_id,
    virtual_menu_item_path_id, MenuItem, MenuTextTone, SemanticsAction, SemanticsPopupKind,
};

#[test]
fn menu_item_builder_defaults() {
    let item = MenuItem::new("New File");
    assert_eq!(item.label(), "New File");
    assert!(item.is_enabled());
    assert!(!item.has_submenu());
    assert!(item.submenu_items().is_empty());
    assert_eq!(item.text_tone(), MenuTextTone::Text);
}

#[test]
fn menu_item_submenu_appends_in_order() {
    let item = MenuItem::new("Move to")
        .submenu(vec![MenuItem::new("Archive")])
        .submenu(vec![MenuItem::new("Shared"), MenuItem::new("Team workspace")]);
    assert!(item.has_submenu());
    let labels: Vec<&str> = item.submenu_items().iter().map(|child| child.label()).collect();
    assert_eq!(labels, vec!["Archive", "Shared", "Team workspace"]);
}

#[test]
fn menu_item_text_tone_prefers_disabled_over_destructive() {
    assert_eq!(MenuItem::new("Delete").destructive().text_tone(), MenuTextTone::Danger);
    assert_eq!(
        MenuItem::new("Delete").destructive().disabled().text_tone(),
        MenuTextTone::Placeholder
    );
    assert_eq!(
        MenuItem::new("Rename").shortcut("F2").separator_before().text_tone(),
        MenuTextTone::Text
    );
}

#[test]
fn flat_menu_row_semantics() {
    let item = MenuItem::new("Open...").shortcut("Ctrl+Shift+O");
    let node = menu_item_semantics_node(11, 1, &item, true);
    assert_eq!(node.id, virtual_menu_item_id(11, 1));
    assert_eq!(node.parent, 11);
    assert_eq!(node.name, "Open...");
    assert!(!node.disabled);
    assert!(node.selected);
    assert_eq!(node.expanded, None);
    assert_eq!(node.popup, None);
    assert_eq!(node.actions, vec![SemanticsAction::Activate]);

    let disabled = menu_item_semantics_node(11, 2, &MenuItem::new("Paste").disabled(), false);
    assert!(disabled.disabled);
    assert!(!disabled.selected);
    assert!(disabled.actions.is_empty());
}

#[test]
fn context_menu_row_with_submenu_reports_expansion() {
    let item = MenuItem::new("Move to").submenu(vec![MenuItem::new("Archive")]);
    let node = context_menu_item_semantics_node(3, 4, &[1], &item, false, true);
    assert_eq!(node.id, virtual_menu_item_path_id(3, &[1]));
    assert_eq!(node.parent, 4);
    assert_eq!(node.name, "Move to");
    assert_eq!(node.expanded, Some(true));
    assert_eq!(node.popup, Some(SemanticsPopupKind::Menu));
    assert_eq!(
        node.actions,
        vec![SemanticsAction::Activate, SemanticsAction::Expand, SemanticsAction::Collapse]
    );

    let leaf = context_menu_item_semantics_node(3, 4, &[1, 0], &MenuItem::new("Archive"), true, true);
    assert_eq!(leaf.id, virtual_menu_item_path_id(3, &[1, 0]));
    assert_eq!(leaf.expanded, None);
    assert_eq!(leaf.popup, None);
    assert_eq!(leaf.actions, vec![SemanticsAction::Activate]);

    let disabled = item.disabled();
    let node = context_menu_item_semantics_node(3, 4, &[1], &disabled, false, false);
    assert!(node.disabled);
    assert_eq!(node.expanded, Some(false));
    assert!(node.actions.is_empty());
}

#[test]
fn menu_item_clone_and_equality_cover_nested_rows() {
    let item = MenuItem::new("Move to")
        .shortcut("Ctrl+M")
        .submenu(vec![
            MenuItem::new("Archive"),
            MenuItem::new("Shared").submenu(vec![MenuItem::new("Team workspace")]),
        ]);
    let copy = item.clone();
    assert!(copy == item);
    let different_leaf = MenuItem::new("Move to")
        .shortcut("Ctrl+M")
        .submenu(vec![
            MenuItem::new("Archive"),
            MenuItem::new("Shared").submenu(vec![MenuItem::new("Personal")]),
        ]);
    assert!(different_leaf != item);
    assert!(MenuItem::new("Move to") != MenuItem::new("Move to").shortcut("Ctrl+M"));
    assert!(MenuItem::new("A").disabled() != MenuItem::new("A"));
    assert!(MenuItem::new("A").submenu(vec![MenuItem::new("B")]) != MenuItem::new("A"));
}
