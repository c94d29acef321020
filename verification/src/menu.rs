//! Menu rows: the builder for one row, the decision of how its text is toned,
//! and the accessibility record published for it.
use vstd::prelude::*;
use crate::ids::{
    menu_path_fits, spec_menu_path_id, virtual_menu_item_id, virtual_menu_item_path_id,
};

verus! {

/// One row of a menu, possibly opening a nested menu.
#[derive(Debug)]
pub struct MenuItem {
    label: String,
    shortcut: Option<String>,
    enabled: bool,
    destructive: bool,
    separator_before: bool,
    submenu: Vec<MenuItem>,
}

/// The abstract content of a [`MenuItem`].
pub struct MenuItemView {
    pub label: Seq<char>,
    pub shortcut: Option<Seq<char>>,
    pub enabled: bool,
    pub destructive: bool,
    pub separator_before: bool,
    pub submenu: Seq<MenuItem>,
}

impl View for MenuItem {
    type V = MenuItemView;

    closed spec fn view(&self) -> MenuItemView {
        MenuItemView {
            label: self.label@,
            shortcut: match self.shortcut {
                Some(s) => Some(s@),
                None => None,
            },
            enabled: self.enabled,
            destructive: self.destructive,
            separator_before: self.separator_before,
            submenu: self.submenu@,
        }
    }
}

/// The full content of a menu row, nested rows included.
#[verifier::ext_equal]
pub struct MenuTree {
    pub label: Seq<char>,
    pub shortcut: Option<Seq<char>>,
    pub enabled: bool,
    pub destructive: bool,
    pub separator_before: bool,
    pub submenu: Seq<MenuTree>,
}

impl MenuItem {
    /// The row with its nested rows, as plain values.
    pub closed spec fn tree(&self) -> MenuTree
        decreases self,
    {
        MenuTree {
            label: self.label@,
            shortcut: match self.shortcut {
                Some(s) => Some(s@),
                None => None,
            },
            enabled: self.enabled,
            destructive: self.destructive,
            separator_before: self.separator_before,
            submenu: Seq::new(
                self.submenu@.len(),
                |i: int| {
                    if 0 <= i < self.submenu@.len() {
                        self.submenu@[i].tree()
                    } else {
                        arbitrary()
                    }
                },
            ),
        }
    }
}

impl Clone for MenuItem {
    /// A copy of the row with copies of all its nested rows.
    fn clone(&self) -> (r: Self)
        ensures
            r.tree() == self.tree(),
        decreases self,
    {
        let shortcut = match &self.shortcut {
            Some(s) => Some(s.clone()),
            None => None,
        };
        let mut submenu: Vec<MenuItem> = Vec::new();
        let mut i: usize = 0;
        while i < self.submenu.len()
            invariant
                i <= self.submenu@.len(),
                submenu@.len() == i,
                forall|j: int| 0 <= j < i ==> #[trigger] submenu@[j].tree() == self.submenu@[j].tree(),
            decreases self.submenu@.len() - i,
        {
            proof {
                vstd::std_specs::vec::axiom_vec_index_decreases(self.submenu, i as int);
            }
            let child = self.submenu[i].clone();
            submenu.push(child);
            i = i + 1;
        }
        let r = MenuItem {
            label: self.label.clone(),
            shortcut,
            enabled: self.enabled,
            destructive: self.destructive,
            separator_before: self.separator_before,
            submenu,
        };
        assert(r.tree().submenu =~= self.tree().submenu) by {
            assert(r.tree().submenu.len() == self.tree().submenu.len());
            assert forall|j: int| 0 <= j < r.tree().submenu.len() implies r.tree().submenu[j]
                == self.tree().submenu[j] by {
                assert(r.submenu@[j].tree() == self.submenu@[j].tree());
            }
        }
        r
    }
}

/// The full content of a row agrees with its view: same label, shortcut and
/// flags, and the nested rows' contents in order.
pub proof fn lemma_tree_fields(item: &MenuItem)
    ensures
        item.tree().label == item@.label,
        item.tree().shortcut == item@.shortcut,
        item.tree().enabled == item@.enabled,
        item.tree().destructive == item@.destructive,
        item.tree().separator_before == item@.separator_before,
        item.tree().submenu.len() == item@.submenu.len(),
        forall|j: int| 0 <= j < item@.submenu.len() ==> #[trigger] item.tree().submenu[j]
            == item@.submenu[j].tree(),
{
}

impl PartialEq for MenuItem {
    /// Rows are equal when their labels, shortcuts, flags and nested rows are.
    fn eq(&self, other: &Self) -> (r: bool)
        decreases self,
    {
        let same_shortcut = match (&self.shortcut, &other.shortcut) {
            (Some(a), Some(b)) => a.eq(b),
            (None, None) => true,
            _ => false,
        };
        assert(same_shortcut == (self@.shortcut == other@.shortcut));
        if !(self.label == other.label && same_shortcut && self.enabled == other.enabled
            && self.destructive == other.destructive && self.separator_before
            == other.separator_before) {
            proof {
                lemma_tree_fields(self);
                lemma_tree_fields(other);
            }
            return false;
        }
        if self.submenu.len() != other.submenu.len() {
            proof {
                assert(self.tree().submenu.len() != other.tree().submenu.len());
            }
            return false;
        }
        let mut i: usize = 0;
        while i < self.submenu.len()
            invariant
                i <= self.submenu@.len(),
                self.submenu@.len() == other.submenu@.len(),
                forall|j: int| 0 <= j < i ==> #[trigger] self.submenu@[j].tree() == other.submenu@[j].tree(),
            decreases self.submenu@.len() - i,
        {
            proof {
                vstd::std_specs::vec::axiom_vec_index_decreases(self.submenu, i as int);
            }
            if !(self.submenu[i] == other.submenu[i]) {
                proof {
                    assert(self.tree().submenu[i as int] != other.tree().submenu[i as int]);
                }
                return false;
            }
            i = i + 1;
        }
        proof {
            lemma_tree_fields(self);
            lemma_tree_fields(other);
            assert(self.tree().submenu =~= other.tree().submenu) by {
                assert forall|j: int| 0 <= j < self.tree().submenu.len() implies self.tree().submenu[j]
                    == other.tree().submenu[j] by {
                    assert(self.submenu@[j].tree() == other.submenu@[j].tree());
                }
            }
            assert(self.tree() =~= other.tree());
        }
        true
    }
}

impl Eq for MenuItem {}

impl vstd::std_specs::cmp::PartialEqSpecImpl for MenuItem {
    open spec fn obeys_eq_spec() -> bool {
        true
    }

    open spec fn eq_spec(&self, other: &Self) -> bool {
        self.tree() == other.tree()
    }
}

/// Which palette entry colours the text of a menu row.
#[derive(Debug, Clone, Copy, PartialEq, Eq, Structural)]
pub enum MenuTextTone {
    /// The muted placeholder colour of a disabled row.
    Placeholder,
    /// The danger tone of a destructive row.
    Danger,
    /// The ordinary text colour.
    Text,
}

impl MenuItem {
    /// A plain, enabled row with the given label and no shortcut or submenu.
    pub fn new(label: &str) -> (r: Self)
        ensures
            r@.label == label@,
            r@.shortcut is None,
            r@.enabled,
            !r@.destructive,
            !r@.separator_before,
            r@.submenu == Seq::<MenuItem>::empty(),
    {
        MenuItem {
            label: label.to_owned(),
            shortcut: None,
            enabled: true,
            destructive: false,
            separator_before: false,
            submenu: Vec::new(),
        }
    }

    /// The row's label.
    pub fn label(&self) -> (r: &str)
        ensures
            r@ == self@.label,
    {
        self.label.as_str()
    }

    /// Shows a keyboard shortcut hint beside the label.
    pub fn shortcut(self, shortcut: &str) -> (r: Self)
        ensures
            r@ == (MenuItemView { shortcut: Some(shortcut@), ..self@ }),
    {
        let mut item = self;
        item.shortcut = Some(shortcut.to_owned());
        item
    }

    /// Marks the row as not activatable.
    pub fn disabled(self) -> (r: Self)
        ensures
            r@ == (MenuItemView { enabled: false, ..self@ }),
    {
        let mut item = self;
        item.enabled = false;
        item
    }

    /// Marks the row as a destructive action.
    pub fn destructive(self) -> (r: Self)
        ensures
            r@ == (MenuItemView { destructive: true, ..self@ }),
    {
        let mut item = self;
        item.destructive = true;
        item
    }

    /// Draws a separator above the row.
    pub fn separator_before(self) -> (r: Self)
        ensures
            r@ == (MenuItemView { separator_before: true, ..self@ }),
    {
        let mut item = self;
        item.separator_before = true;
        item
    }

    /// Adds the nested actions presented when this item is opened by a
    /// context menu, after any already present.
    pub fn submenu(self, items: Vec<MenuItem>) -> (r: Self)
        ensures
            r@ == (MenuItemView { submenu: self@.submenu + items@, ..self@ }),
    {
        let mut item = self;
        let mut items = items;
        item.submenu.append(&mut items);
        item
    }

    /// The nested actions owned by this item.
    pub fn submenu_items(&self) -> (r: &[MenuItem])
        ensures
            r@ == self@.submenu,
    {
        self.submenu.as_slice()
    }

    /// Whether this item opens a nested menu.
    pub fn has_submenu(&self) -> (r: bool)
        ensures
            r == (self@.submenu.len() > 0),
    {
        self.submenu.len() > 0
    }

    /// Whether the row can be activated.
    pub fn is_enabled(&self) -> (r: bool)
        ensures
            r == self@.enabled,
    {
        self.enabled
    }

    /// The palette entry for the row's text: disabled rows are muted first,
    /// destructive rows take the danger tone, others the text colour.
    pub fn text_tone(&self) -> (r: MenuTextTone)
        ensures
            !self@.enabled ==> r == MenuTextTone::Placeholder,
            self@.enabled && self@.destructive ==> r == MenuTextTone::Danger,
            self@.enabled && !self@.destructive ==> r == MenuTextTone::Text,
    {
        if !self.enabled {
            MenuTextTone::Placeholder
        } else if self.destructive {
            MenuTextTone::Danger
        } else {
            MenuTextTone::Text
        }
    }
}

/// An action that assistive technology may ask a node to perform.
#[derive(Debug, Clone, Copy, PartialEq, Eq, Structural)]
pub enum SemanticsAction {
    Activate,
    Expand,
    Collapse,
    Focus,
    SetValue,
}

/// The kind of popup a node opens.
#[derive(Debug, Clone, Copy, PartialEq, Eq, Structural)]
pub enum SemanticsPopupKind {
    Menu,
}

/// The accessibility record of one menu row (its role is always "menu item";
/// its bounds are placed by the layout code that calls the builders below).
#[derive(Debug)]
pub struct MenuItemSemantics {
    pub id: u64,
    pub parent: u64,
    pub name: String,
    pub disabled: bool,
    pub selected: bool,
    pub expanded: Option<bool>,
    pub popup: Option<SemanticsPopupKind>,
    pub actions: Vec<SemanticsAction>,
}

/// `Activate` for an enabled row, nothing for a disabled one.
pub open spec fn plain_row_actions(enabled: bool) -> Seq<SemanticsAction> {
    if enabled {
        seq![SemanticsAction::Activate]
    } else {
        Seq::empty()
    }
}

/// The actions of a context-menu row: a row opening a submenu may also be
/// expanded and collapsed; a disabled row offers nothing.
pub open spec fn context_row_actions(enabled: bool, has_submenu: bool) -> Seq<SemanticsAction> {
    if !enabled {
        Seq::empty()
    } else if has_submenu {
        seq![SemanticsAction::Activate, SemanticsAction::Expand, SemanticsAction::Collapse]
    } else {
        seq![SemanticsAction::Activate]
    }
}

fn activate_only(enabled: bool) -> (r: Vec<SemanticsAction>)
    ensures
        r@ == plain_row_actions(enabled),
{
    let mut actions = Vec::new();
    if enabled {
        actions.push(SemanticsAction::Activate);
    }
    proof {
        assert(actions@ == plain_row_actions(enabled));
    }
    actions
}

/// The record of row `index` of the flat menu `parent`.
pub fn menu_item_semantics_node(
    parent: u64,
    index: usize,
    item: &MenuItem,
    highlighted: bool,
) -> (r: MenuItemSemantics)
    requires
        index < u64::MAX,
    ensures
        r.id == spec_menu_path_id(parent, seq![index]),
        r.parent == parent,
        r.name@ == item@.label,
        r.disabled == !item@.enabled,
        r.selected == highlighted,
        r.expanded is None,
        r.popup is None,
        r.actions@ == plain_row_actions(item@.enabled),
{
    MenuItemSemantics {
        id: virtual_menu_item_id(parent, index),
        parent,
        name: item.label.clone(),
        disabled: !item.enabled,
        selected: highlighted,
        expanded: None,
        popup: None,
        actions: activate_only(item.enabled),
    }
}

/// The record of the context-menu row at `path` below the menu `root`, placed
/// under the node `parent`. A row with a submenu reports whether that submenu
/// is open and that it pops up a menu.
pub fn context_menu_item_semantics_node(
    root: u64,
    parent: u64,
    path: &[usize],
    item: &MenuItem,
    highlighted: bool,
    expanded: bool,
) -> (r: MenuItemSemantics)
    requires
        menu_path_fits(path@),
    ensures
        r.id == spec_menu_path_id(root, path@),
        r.parent == parent,
        r.name@ == item@.label,
        r.disabled == !item@.enabled,
        r.selected == highlighted,
        r.expanded == (if item@.submenu.len() > 0 { Some(expanded) } else { None::<bool> }),
        r.popup == (if item@.submenu.len() > 0 {
            Some(SemanticsPopupKind::Menu)
        } else {
            None::<SemanticsPopupKind>
        }),
        r.actions@ == context_row_actions(item@.enabled, item@.submenu.len() > 0),
{
    let has_submenu = item.has_submenu();
    let mut actions = Vec::new();
    if item.enabled {
        actions.push(SemanticsAction::Activate);
        if has_submenu {
            actions.push(SemanticsAction::Expand);
            actions.push(SemanticsAction::Collapse);
        }
    }
    proof {
        assert(actions@ == context_row_actions(item@.enabled, has_submenu));
    }
    MenuItemSemantics {
        id: virtual_menu_item_path_id(root, path),
        parent,
        name: item.label.clone(),
        disabled: !item.enabled,
        selected: highlighted,
        expanded: if has_submenu { Some(expanded) } else { None },
        popup: if has_submenu { Some(SemanticsPopupKind::Menu) } else { None },
        actions,
    }
}

/// A disabled row offers no action, in flat and context menus alike; an
/// enabled row offers `Activate`, and it offers `Expand` and `Collapse`
/// exactly when it opens a submenu.
pub proof fn lemma_row_actions_follow_enabled(enabled: bool, has_submenu: bool)
    ensures
        !enabled ==> plain_row_actions(enabled).len() == 0,
        !enabled ==> context_row_actions(enabled, has_submenu).len() == 0,
        plain_row_actions(enabled).contains(SemanticsAction::Activate) == enabled,
        context_row_actions(enabled, has_submenu).contains(SemanticsAction::Activate) == enabled,
        context_row_actions(enabled, has_submenu).contains(SemanticsAction::Expand) == (enabled
            && has_submenu),
        context_row_actions(enabled, has_submenu).contains(SemanticsAction::Collapse) == (enabled
            && has_submenu),
        plain_row_actions(enabled).no_duplicates(),
        context_row_actions(enabled, has_submenu).no_duplicates(),
{
    let plain = plain_row_actions(enabled);
    let context = context_row_actions(enabled, has_submenu);
    if enabled {
        assert(plain[0] == SemanticsAction::Activate);
        assert(context[0] == SemanticsAction::Activate);
        if has_submenu {
            assert(context[1] == SemanticsAction::Expand);
            assert(context[2] == SemanticsAction::Collapse);
        } else {
            assert(!context.contains(SemanticsAction::Expand));
            assert(!context.contains(SemanticsAction::Collapse));
        }
    } else {
        assert(!plain.contains(SemanticsAction::Activate));
        assert(!context.contains(SemanticsAction::Activate));
        assert(!context.contains(SemanticsAction::Expand));
        assert(!context.contains(SemanticsAction::Collapse));
    }
}

} // verus!
