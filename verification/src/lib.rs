//! Interaction and configuration models of the sui widget toolkit: menu items,
//! tool palettes, scroll configuration and switch views, with the identifier
//! scheme used for their virtual accessibility nodes.

pub mod axis;
pub mod ids;
pub mod menu;
pub mod scroll;
pub mod scroll_bar;
pub mod switch_view;
pub mod tool_palette;
pub mod touch;
pub mod virtual_list;

pub use axis::Axis;
pub use ids::{tool_palette_item_id, virtual_menu_item_id, virtual_menu_item_path_id};
pub use menu::{
    context_menu_item_semantics_node, menu_item_semantics_node, MenuItem, MenuItemSemantics,
    MenuItemView, MenuTextTone, SemanticsAction, SemanticsPopupKind,
};
pub use scroll::{
    scroll_key, scroll_view_key_command, Overflow, ScrollAxes, ScrollKey, ScrollState, ScrollStateSubscribers,
    ScrollStateView, ScrollView, ScrollViewView,
};
pub use scroll_bar::{
    scroll_bar_key, scroll_bar_key_command, ScrollBarCommand, ScrollBarInteraction,
    ScrollBarInteractionView, ScrollBarMove, ScrollBarPress, ScrollBarRelease,
};
pub use switch_view::{SwitchView, SwitchViewView};
pub use tool_palette::{
    IconGlyph, KeyOutcome, PaletteKey, SelectionChange, ToolPalette, ToolPaletteItem,
    ToolPaletteItemSemantics, ToolPaletteItemView, ToolPaletteSemantics, ToolPaletteView,
};
pub use touch::{TouchMoveOutcome, TouchScroll, TouchScrollView};
pub use virtual_list::visible_range_from_rows;
