//! The tool palette: a strip of icon buttons of which at most one is the
//! selected tool. This module holds its selection, hover and press state and
//! every decision it takes on keyboard and pointer input; measuring and
//! painting its buttons is left to the rendering layer.
use vstd::prelude::*;
use crate::axis::{str_equals, Axis};
use crate::ids::{spec_tool_palette_item_id, tool_palette_item_id};
use crate::menu::SemanticsAction;

verus! {

/// The glyphs a tool palette button can show.
#[derive(Debug, Clone, Copy, PartialEq, Eq, Structural)]
pub enum IconGlyph {
    Brush,
    Eraser,
    PaintBucket,
    Storage,
}

/// One button of a tool palette.
#[derive(Debug)]
pub struct ToolPaletteItem {
    icon: IconGlyph,
    label: String,
    enabled: bool,
}

/// The abstract content of a [`ToolPaletteItem`].
pub struct ToolPaletteItemView {
    pub icon: IconGlyph,
    pub label: Seq<char>,
    pub enabled: bool,
}

impl View for ToolPaletteItem {
    type V = ToolPaletteItemView;

    closed spec fn view(&self) -> ToolPaletteItemView {
        ToolPaletteItemView { icon: self.icon, label: self.label@, enabled: self.enabled }
    }
}

impl Clone for ToolPaletteItem {
    fn clone(&self) -> (r: Self)
        ensures
            r@ == self@,
    {
        ToolPaletteItem { icon: self.icon, label: self.label.clone(), enabled: self.enabled }
    }
}

impl PartialEq for ToolPaletteItem {
    fn eq(&self, other: &Self) -> (r: bool) {
        self.icon == other.icon && self.label == other.label && self.enabled == other.enabled
    }
}

impl Eq for ToolPaletteItem {}

impl vstd::std_specs::cmp::PartialEqSpecImpl for ToolPaletteItem {
    open spec fn obeys_eq_spec() -> bool {
        true
    }

    open spec fn eq_spec(&self, other: &Self) -> bool {
        self@ == other@
    }
}

impl ToolPaletteItem {
    /// An enabled button with the given glyph and label.
    pub fn new(icon: IconGlyph, label: &str) -> (r: Self)
        ensures
            r@ == (ToolPaletteItemView { icon, label: label@, enabled: true }),
    {
        ToolPaletteItem { icon, label: label.to_owned(), enabled: true }
    }

    /// Marks the button as not selectable.
    pub fn disabled(self) -> (r: Self)
        ensures
            r@ == (ToolPaletteItemView { enabled: false, ..self@ }),
    {
        let mut item = self;
        item.enabled = false;
        item
    }

    /// The button's label.
    pub fn label(&self) -> (r: &str)
        ensures
            r@ == self@.label,
    {
        self.label.as_str()
    }

    /// The button's glyph.
    pub fn icon(&self) -> (r: IconGlyph)
        ensures
            r == self@.icon,
    {
        self.icon
    }

    /// Whether the button can be selected.
    pub fn is_enabled(&self) -> (r: bool)
        ensures
            r == self@.enabled,
    {
        self.enabled
    }
}

/// The selection, hover and press state of a tool palette.
#[derive(Debug)]
pub struct ToolPalette {
    axis: Axis,
    name: String,
    items: Vec<ToolPaletteItem>,
    selected: Option<usize>,
    reader_value: Option<Option<usize>>,
    hovered: Option<usize>,
    pressed: Option<usize>,
    divider: bool,
}

/// The abstract state of a [`ToolPalette`]. `reader_value` is the value last
/// read from a bound selection reader (`None` when no reader is bound).
pub struct ToolPaletteView {
    pub axis: Axis,
    pub name: Seq<char>,
    pub items: Seq<ToolPaletteItem>,
    pub selected: Option<usize>,
    pub reader_value: Option<Option<usize>>,
    pub hovered: Option<usize>,
    pub pressed: Option<usize>,
    pub divider: bool,
}

impl View for ToolPalette {
    type V = ToolPaletteView;

    closed spec fn view(&self) -> ToolPaletteView {
        ToolPaletteView {
            axis: self.axis,
            name: self.name@,
            items: self.items@,
            selected: self.selected,
            reader_value: self.reader_value,
            hovered: self.hovered,
            pressed: self.pressed,
            divider: self.divider,
        }
    }
}

/// The notification a palette hands to its change listeners: the index and
/// label of the tool just chosen.
#[derive(Debug)]
pub struct SelectionChange {
    pub index: usize,
    pub label: String,
}

/// What a key press asks of the palette.
#[derive(Debug, Clone, Copy, PartialEq, Eq, Structural)]
pub enum PaletteKey {
    Previous,
    Next,
    First,
    Last,
    Activate,
}

/// The result of a key press: whether the palette consumed it, and the
/// selection change to announce, if any.
#[derive(Debug)]
pub struct KeyOutcome {
    pub handled: bool,
    pub change: Option<SelectionChange>,
}

/// Whether button `i` exists and is enabled.
pub open spec fn item_enabled(items: Seq<ToolPaletteItem>, i: int) -> bool {
    0 <= i < items.len() && items[i]@.enabled
}

/// `k` is the first enabled button at or after `lo`.
pub open spec fn is_first_enabled_from(items: Seq<ToolPaletteItem>, lo: int, k: int) -> bool {
    &&& lo <= k < items.len()
    &&& item_enabled(items, k)
    &&& forall|j: int| lo <= j < k ==> !item_enabled(items, j)
}

/// `k` is the last enabled button at or before `hi`.
pub open spec fn is_last_enabled_upto(items: Seq<ToolPaletteItem>, hi: int, k: int) -> bool {
    &&& 0 <= k <= hi
    &&& item_enabled(items, k)
    &&& forall|j: int| k < j <= hi ==> !item_enabled(items, j)
}

/// No button in `lo..=hi` is enabled.
pub open spec fn none_enabled_between(items: Seq<ToolPaletteItem>, lo: int, hi: int) -> bool {
    forall|j: int| lo <= j <= hi ==> !item_enabled(items, j)
}

/// A candidate selection kept only when it names an existing button.
pub open spec fn within_items(items: Seq<ToolPaletteItem>, candidate: Option<usize>) -> Option<
    usize,
> {
    match candidate {
        Some(i) => if i < items.len() {
            Some(i)
        } else {
            None
        },
        None => None,
    }
}

/// The tool the palette shows as selected: the bound reader's value when a
/// reader is bound, the stored selection otherwise, kept only when in range.
pub open spec fn spec_current_selected(v: ToolPaletteView) -> Option<usize> {
    within_items(
        v.items,
        match v.reader_value {
            Some(read) => read,
            None => v.selected,
        },
    )
}

/// What a key asks of a palette laid out along `axis`: arrows along the axis
/// step, Home and End jump, Enter and Space re-announce the selection.
pub open spec fn spec_key_command(axis: Axis, key: Seq<char>) -> Option<PaletteKey> {
    if key == "ArrowUp"@ && axis == Axis::Vertical {
        Some(PaletteKey::Previous)
    } else if key == "ArrowDown"@ && axis == Axis::Vertical {
        Some(PaletteKey::Next)
    } else if key == "ArrowLeft"@ && axis == Axis::Horizontal {
        Some(PaletteKey::Previous)
    } else if key == "ArrowRight"@ && axis == Axis::Horizontal {
        Some(PaletteKey::Next)
    } else if key == "Home"@ {
        Some(PaletteKey::First)
    } else if key == "End"@ {
        Some(PaletteKey::Last)
    } else if key == "Enter"@ || key == " "@ {
        Some(PaletteKey::Activate)
    } else {
        None
    }
}

/// Where stepping starts: the selected tool, or the first button.
pub open spec fn step_start(v: ToolPaletteView) -> int {
    match spec_current_selected(v) {
        Some(i) => i as int,
        None => 0,
    }
}

/// The first button a forward step looks at: the next one, or the last
/// button when already there.
pub open spec fn step_forward_from(v: ToolPaletteView) -> int {
    if step_start(v) + 1 < v.items.len() - 1 {
        step_start(v) + 1
    } else {
        v.items.len() - 1
    }
}

/// The first button a backward step looks at: the previous one, or the first
/// button when already there.
pub open spec fn step_backward_upto(v: ToolPaletteView) -> int {
    if step_start(v) > 0 {
        step_start(v) - 1
    } else {
        0
    }
}

/// Selecting button `index` turns `old` into `new` and announces `r`: an
/// enabled button becomes the stored selection and is announced; otherwise
/// nothing changes and nothing is announced.
pub open spec fn select_effect(
    old: ToolPaletteView,
    new: ToolPaletteView,
    index: int,
    r: Option<SelectionChange>,
) -> bool {
    if item_enabled(old.items, index) {
        &&& new == (ToolPaletteView { selected: Some(index as usize), ..old })
        &&& announces(r, old.items, index)
    } else {
        &&& new == old
        &&& r is None
    }
}

/// `new` is `old` with the announced button `c` stored as the selection.
pub open spec fn chose(old: ToolPaletteView, new: ToolPaletteView, c: SelectionChange) -> bool {
    &&& new == (ToolPaletteView { selected: Some(c.index), ..old })
    &&& c.label@ == old.items[c.index as int]@.label
}

/// One step forward or backward: the first enabled button in the stepping
/// direction (see [`step_forward_from`] and [`step_backward_upto`]) is
/// chosen; when there is none, or no buttons at all, nothing changes.
pub open spec fn step_effect(
    old: ToolPaletteView,
    new: ToolPaletteView,
    forward: bool,
    r: Option<SelectionChange>,
) -> bool {
    if old.items.len() == 0 {
        new == old && r is None
    } else if forward {
        match r {
            Some(c) => is_first_enabled_from(old.items, step_forward_from(old), c.index as int)
                && chose(old, new, c),
            None => none_enabled_between(old.items, step_forward_from(old), old.items.len() - 1)
                && new == old,
        }
    } else {
        match r {
            Some(c) => is_last_enabled_upto(old.items, step_backward_upto(old), c.index as int)
                && chose(old, new, c),
            None => none_enabled_between(old.items, 0, step_backward_upto(old)) && new == old,
        }
    }
}

/// Jumping to the first (or last) enabled button chooses it; when no button
/// is enabled nothing changes.
pub open spec fn jump_effect(
    old: ToolPaletteView,
    new: ToolPaletteView,
    to_first: bool,
    r: Option<SelectionChange>,
) -> bool {
    match r {
        Some(c) => (if to_first {
            is_first_enabled_from(old.items, 0, c.index as int)
        } else {
            is_last_enabled_upto(old.items, old.items.len() - 1, c.index as int)
        }) && chose(old, new, c),
        None => none_enabled_between(old.items, 0, old.items.len() - 1) && new == old,
    }
}

/// The effect of a key press on a palette: stepping, jumping, or announcing
/// the current selection again; any other key is left unhandled.
pub open spec fn key_effect(
    old: ToolPaletteView,
    new: ToolPaletteView,
    key: Seq<char>,
    r: KeyOutcome,
) -> bool {
    match spec_key_command(old.axis, key) {
        None => !r.handled && r.change is None && new == old,
        Some(PaletteKey::Previous) => r.handled && step_effect(old, new, false, r.change),
        Some(PaletteKey::Next) => r.handled && step_effect(old, new, true, r.change),
        Some(PaletteKey::First) => r.handled && jump_effect(old, new, true, r.change),
        Some(PaletteKey::Last) => r.handled && jump_effect(old, new, false, r.change),
        Some(PaletteKey::Activate) => r.handled && match spec_current_selected(old) {
            Some(i) => select_effect(old, new, i as int, r.change),
            None => new == old && r.change is None,
        },
    }
}

/// `r` announces button `index` of `items`.
pub open spec fn announces(r: Option<SelectionChange>, items: Seq<ToolPaletteItem>, index: int) -> bool {
    &&& r is Some
    &&& r->0.index == index
    &&& r->0.label@ == items[index]@.label
}

impl ToolPalette {
    /// An empty palette laid out along `axis`.
    pub fn new(axis: Axis, name: &str) -> (r: Self)
        ensures
            r@ == (ToolPaletteView {
                axis,
                name: name@,
                items: Seq::empty(),
                selected: None,
                reader_value: None,
                hovered: None,
                pressed: None,
                divider: true,
            }),
    {
        ToolPalette {
            axis,
            name: name.to_owned(),
            items: Vec::new(),
            selected: None,
            reader_value: None,
            hovered: None,
            pressed: None,
            divider: true,
        }
    }

    /// An empty palette whose buttons are stacked vertically.
    pub fn vertical(name: &str) -> (r: Self)
        ensures
            r@ == (ToolPaletteView {
                axis: Axis::Vertical,
                name: name@,
                items: Seq::empty(),
                selected: None,
                reader_value: None,
                hovered: None,
                pressed: None,
                divider: true,
            }),
    {
        Self::new(Axis::Vertical, name)
    }

    /// An empty palette whose buttons run horizontally.
    pub fn horizontal(name: &str) -> (r: Self)
        ensures
            r@ == (ToolPaletteView {
                axis: Axis::Horizontal,
                name: name@,
                items: Seq::empty(),
                selected: None,
                reader_value: None,
                hovered: None,
                pressed: None,
                divider: true,
            }),
    {
        Self::new(Axis::Horizontal, name)
    }

    /// Appends a button.
    pub fn item(self, item: ToolPaletteItem) -> (r: Self)
        ensures
            r@ == (ToolPaletteView { items: self@.items.push(item), ..self@ }),
    {
        let mut palette = self;
        palette.items.push(item);
        palette
    }

    /// Appends buttons in order.
    pub fn items(self, items: Vec<ToolPaletteItem>) -> (r: Self)
        ensures
            r@ == (ToolPaletteView { items: self@.items + items@, ..self@ }),
    {
        let mut palette = self;
        let mut items = items;
        palette.items.append(&mut items);
        palette
    }

    /// Stores `selected` as the selection and unbinds any selection reader.
    pub fn selected(self, selected: usize) -> (r: Self)
        ensures
            r@ == (ToolPaletteView { selected: Some(selected), reader_value: None, ..self@ }),
    {
        let mut palette = self;
        palette.selected = Some(selected);
        palette.reader_value = None;
        palette
    }

    /// Records what the bound selection reader currently reports.
    pub fn set_reader_selection(&mut self, value: Option<usize>)
        ensures
            final(self)@ == (ToolPaletteView { reader_value: Some(value), ..old(self)@ }),
    {
        self.reader_value = Some(value);
    }

    /// Whether a divider line is drawn along the palette's trailing edge.
    pub fn divider(self, divider: bool) -> (r: Self)
        ensures
            r@ == (ToolPaletteView { divider, ..self@ }),
    {
        let mut palette = self;
        palette.divider = divider;
        palette
    }

    /// Whether the divider line is drawn.
    pub fn has_divider(&self) -> (r: bool)
        ensures
            r == self@.divider,
    {
        self.divider
    }

    /// The palette's accessible name.
    pub fn name(&self) -> (r: &str)
        ensures
            r@ == self@.name,
    {
        self.name.as_str()
    }

    /// The layout axis.
    pub fn axis(&self) -> (r: Axis)
        ensures
            r == self@.axis,
    {
        self.axis
    }

    /// The buttons in order.
    pub fn item_list(&self) -> (r: &[ToolPaletteItem])
        ensures
            r@ == self@.items,
    {
        self.items.as_slice()
    }

    /// The hovered button, if any.
    pub fn hovered_index(&self) -> (r: Option<usize>)
        ensures
            r == self@.hovered,
    {
        self.hovered
    }

    /// The pressed button, if any.
    pub fn pressed_index(&self) -> (r: Option<usize>)
        ensures
            r == self@.pressed,
    {
        self.pressed
    }

    /// The selected tool, if it names an existing button.
    pub fn selected_index(&self) -> (r: Option<usize>)
        ensures
            r == spec_current_selected(self@),
    {
        self.current_selected()
    }

    /// The selected tool, if it names an existing button.
    pub fn current_selected(&self) -> (r: Option<usize>)
        ensures
            r == spec_current_selected(self@),
            r matches Some(i) ==> i < self@.items.len(),
    {
        let candidate = match self.reader_value {
            Some(read) => read,
            None => self.selected,
        };
        match candidate {
            Some(i) => if i < self.items.len() {
                Some(i)
            } else {
                None
            },
            None => None,
        }
    }

    /// Whether the palette takes keyboard focus: it does when any button is
    /// enabled.
    pub fn accepts_focus(&self) -> (r: bool)
        ensures
            r == exists|i: int| item_enabled(self@.items, i),
    {
        let mut i: usize = 0;
        while i < self.items.len()
            invariant
                i <= self.items.len(),
                forall|j: int| 0 <= j < i ==> !item_enabled(self@.items, j),
            decreases self.items.len() - i,
        {
            if self.items[i].enabled {
                assert(item_enabled(self@.items, i as int));
                return true;
            }
            i = i + 1;
        }
        false
    }

    /// Selects button `index` when it exists and is enabled, and returns the
    /// change to announce; otherwise changes nothing. Re-selecting the current
    /// tool announces it again.
    pub fn select(&mut self, index: usize) -> (r: Option<SelectionChange>)
        ensures
            select_effect(old(self)@, final(self)@, index as int, r),
    {
        if index >= self.items.len() {
            return None;
        }
        if !self.items[index].enabled {
            return None;
        }
        self.selected = Some(index);
        let label = self.items[index].label.clone();
        Some(SelectionChange { index, label })
    }

    /// The first enabled button at or after `lo`, if any.
    pub fn first_enabled_from(&self, lo: usize) -> (r: Option<usize>)
        ensures
            r matches Some(k) ==> is_first_enabled_from(self@.items, lo as int, k as int),
            r is None ==> none_enabled_between(self@.items, lo as int, self@.items.len() - 1),
    {
        let mut i = lo;
        while i < self.items.len()
            invariant
                lo <= i,
                forall|j: int| lo <= j < i ==> !item_enabled(self@.items, j),
            decreases self.items.len() - i,
        {
            if self.items[i].enabled {
                return Some(i);
            }
            i = i + 1;
        }
        None
    }

    /// The last enabled button at or before `hi`, if any.
    pub fn last_enabled_upto(&self, hi: usize) -> (r: Option<usize>)
        requires
            hi < self@.items.len(),
        ensures
            r matches Some(k) ==> is_last_enabled_upto(self@.items, hi as int, k as int),
            r is None ==> none_enabled_between(self@.items, 0, hi as int),
    {
        let mut i = hi;
        loop
            invariant
                i <= hi,
                hi < self@.items.len(),
                forall|j: int| i < j <= hi ==> !item_enabled(self@.items, j),
            decreases i,
        {
            if self.items[i].enabled {
                return Some(i);
            }
            if i == 0 {
                return None;
            }
            i = i - 1;
        }
    }

    /// Moves the selection by `delta` buttons from the current tool (the
    /// first button when none is selected): repeatedly steps by `delta`,
    /// clamped to the buttons, at most once per button, and selects (and
    /// announces) the first enabled button it lands on; it gives up on
    /// landing on a disabled first or last button. Stepping past an end
    /// re-checks the end button itself.
    pub fn move_selection(&mut self, delta: isize) -> (r: Option<SelectionChange>)
        ensures
            move_effect(old(self)@, final(self)@, delta as int, r),
            delta == 1 ==> step_effect(old(self)@, final(self)@, true, r),
            delta == -1 ==> step_effect(old(self)@, final(self)@, false, r),
    {
        let r = self.search_and_select(delta);
        proof {
            if delta == 1 {
                lemma_unit_move_is_step(old(self)@, self@, true, r);
            }
            if delta == -1 {
                lemma_unit_move_is_step(old(self)@, self@, false, r);
            }
        }
        r
    }

    /// The search of [`move_effect`]: steps by `delta` from the current tool
    /// and selects the first enabled button it lands on.
    fn search_and_select(&mut self, delta: isize) -> (r: Option<SelectionChange>)
        ensures
            move_effect(old(self)@, final(self)@, delta as int, r),
    {
        let n = self.items.len();
        if n == 0 {
            return None;
        }
        let start = match self.current_selected() {
            Some(i) => i,
            None => 0,
        };
        let ghost items = self@.items;
        let last = (n - 1) as i128;
        let step = delta as i128;
        let mut index = start as i128;
        let mut steps: usize = 0;
        while steps < n
            invariant
                self@ == old(self)@,
                items == self@.items,
                start as int == step_start(self@),
                n == items.len(),
                n > 0,
                last == n - 1,
                step == delta,
                0 <= index <= last,
                steps <= n,
                scan_enabled(items, start as int, step as int, n as nat) == scan_enabled(
                    items,
                    index as int,
                    step as int,
                    (n - steps) as nat,
                ),
            decreases n - steps,
        {
            let moved = index + step;
            let next = if moved < 0 {
                0
            } else if moved > last {
                last
            } else {
                moved
            };
            let slot = next as usize;
            if self.items[slot].enabled {
                return self.select(slot);
            }
            if next == 0 || next == last {
                return None;
            }
            index = next;
            steps = steps + 1;
        }
        None
    }
}

/// The button `index` moves to by a step of `delta`, clamped to the buttons
/// `0..=last`.
pub open spec fn clamp_step(index: int, delta: int, last: int) -> int {
    if index + delta < 0 {
        0
    } else if index + delta > last {
        last
    } else {
        index + delta
    }
}

/// The button a search stepping by `delta` from `index` selects, taking at
/// most `fuel` steps: the first enabled button it lands on; it stops without
/// a result on landing on a disabled first or last button.
pub open spec fn scan_enabled(items: Seq<ToolPaletteItem>, index: int, delta: int, fuel: nat) -> Option<
    int,
>
    decreases fuel,
{
    if fuel == 0 {
        None
    } else {
        let next = clamp_step(index, delta, items.len() - 1);
        if item_enabled(items, next) {
            Some(next)
        } else if next == 0 || next == items.len() - 1 {
            None
        } else {
            scan_enabled(items, next, delta, (fuel - 1) as nat)
        }
    }
}

/// Moving the selection by `delta`: the search of [`scan_enabled`] from the
/// current tool, taking at most one step per button, selects what it finds;
/// with no buttons, or when it finds nothing, nothing changes.
pub open spec fn move_effect(
    old: ToolPaletteView,
    new: ToolPaletteView,
    delta: int,
    r: Option<SelectionChange>,
) -> bool {
    if old.items.len() == 0 {
        new == old && r is None
    } else {
        match scan_enabled(old.items, step_start(old), delta, old.items.len()) {
            Some(k) => select_effect(old, new, k, r),
            None => new == old && r is None,
        }
    }
}

/// Moving the selection by a single button is a step: it selects the
/// nearest enabled tool in that direction (re-checking the end button when
/// already there), or changes nothing when there is none.
pub proof fn lemma_unit_move_is_step(
    old: ToolPaletteView,
    new: ToolPaletteView,
    forward: bool,
    r: Option<SelectionChange>,
)
    requires
        move_effect(old, new, if forward { 1 } else { -1 }, r),
    ensures
        step_effect(old, new, forward, r),
{
    if old.items.len() > 0 {
        if forward {
            lemma_scan_forward(old.items, step_start(old), old.items.len());
        } else {
            lemma_scan_backward(old.items, step_start(old), old.items.len());
        }
    }
}

/// A forward search by single steps finds the first enabled button from the
/// next one on (the last button when already there).
proof fn lemma_scan_forward(items: Seq<ToolPaletteItem>, index: int, fuel: nat)
    requires
        0 <= index < items.len(),
        fuel >= items.len() - index,
    ensures
        ({
            let lo = clamp_step(index, 1, items.len() - 1);
            match scan_enabled(items, index, 1, fuel) {
                Some(k) => is_first_enabled_from(items, lo, k),
                None => none_enabled_between(items, lo, items.len() - 1),
            }
        }),
    decreases fuel,
{
    let next = clamp_step(index, 1, items.len() - 1);
    if !item_enabled(items, next) && next != 0 && next != items.len() - 1 {
        lemma_scan_forward(items, next, (fuel - 1) as nat);
    }
}

/// A backward search by single steps finds the last enabled button up to
/// the previous one (the first button when already there).
proof fn lemma_scan_backward(items: Seq<ToolPaletteItem>, index: int, fuel: nat)
    requires
        0 <= index < items.len(),
        fuel >= index + 1,
    ensures
        ({
            let hi = clamp_step(index, -1, items.len() - 1);
            match scan_enabled(items, index, -1, fuel) {
                Some(k) => is_last_enabled_upto(items, hi, k),
                None => none_enabled_between(items, 0, hi),
            }
        }),
    decreases fuel,
{
    let next = clamp_step(index, -1, items.len() - 1);
    if !item_enabled(items, next) && next != 0 && next != items.len() - 1 {
        lemma_scan_backward(items, next, (fuel - 1) as nat);
    }
}

impl ToolPalette {
    /// What `key` asks of this palette, given its axis.
    pub fn key_command(&self, key: &str) -> (r: Option<PaletteKey>)
        ensures
            r == spec_key_command(self@.axis, key@),
    {
        let vertical = match self.axis {
            Axis::Vertical => true,
            Axis::Horizontal => false,
        };
        if str_equals(key, "ArrowUp") && vertical {
            Some(PaletteKey::Previous)
        } else if str_equals(key, "ArrowDown") && vertical {
            Some(PaletteKey::Next)
        } else if str_equals(key, "ArrowLeft") && !vertical {
            Some(PaletteKey::Previous)
        } else if str_equals(key, "ArrowRight") && !vertical {
            Some(PaletteKey::Next)
        } else if str_equals(key, "Home") {
            Some(PaletteKey::First)
        } else if str_equals(key, "End") {
            Some(PaletteKey::Last)
        } else if str_equals(key, "Enter") || str_equals(key, " ") {
            Some(PaletteKey::Activate)
        } else {
            None
        }
    }

    /// Handles a key pressed while the palette has focus.
    pub fn handle_key(&mut self, key: &str) -> (r: KeyOutcome)
        ensures
            key_effect(old(self)@, final(self)@, key@, r),
    {
        match self.key_command(key) {
            None => KeyOutcome { handled: false, change: None },
            Some(PaletteKey::Previous) => KeyOutcome { handled: true, change: self.move_selection(-1) },
            Some(PaletteKey::Next) => KeyOutcome { handled: true, change: self.move_selection(1) },
            Some(PaletteKey::First) => {
                let change = match self.first_enabled_from(0) {
                    Some(k) => self.select(k),
                    None => None,
                };
                KeyOutcome { handled: true, change }
            },
            Some(PaletteKey::Last) => {
                let n = self.items.len();
                let change = if n == 0 {
                    None
                } else {
                    match self.last_enabled_upto(n - 1) {
                        Some(k) => self.select(k),
                        None => None,
                    }
                };
                KeyOutcome { handled: true, change }
            },
            Some(PaletteKey::Activate) => {
                let change = match self.current_selected() {
                    Some(i) => self.select(i),
                    None => None,
                };
                KeyOutcome { handled: true, change }
            },
        }
    }
}

/// The accessibility record of the palette as a whole: its name, the label
/// of the selected tool as its value, and the focus and set-value actions.
#[derive(Debug)]
pub struct ToolPaletteSemantics {
    pub id: u64,
    pub name: String,
    pub value: Option<String>,
    pub focused: bool,
    pub actions: Vec<SemanticsAction>,
}

/// The accessibility record of one palette button (a button role).
#[derive(Debug)]
pub struct ToolPaletteItemSemantics {
    pub id: u64,
    pub parent: u64,
    pub name: String,
    pub value: String,
    pub disabled: bool,
    pub hovered: bool,
    pub selected: bool,
    pub actions: Vec<SemanticsAction>,
}

/// `k` is the first button that is enabled and under the pointer.
pub open spec fn is_first_hit(items: Seq<ToolPaletteItem>, contains: Seq<bool>, k: int) -> bool {
    &&& 0 <= k < items.len()
    &&& item_enabled(items, k) && contains[k]
    &&& forall|j: int| 0 <= j < k ==> !(item_enabled(items, j) && contains[j])
}

/// The button a press went down and came up on, if it is the same one.
pub open spec fn released_on(pressed: Option<usize>, hit: Option<usize>) -> Option<usize> {
    match (pressed, hit) {
        (Some(p), Some(h)) => if p == h {
            Some(p)
        } else {
            None
        },
        _ => None,
    }
}

/// Releasing the primary button over `hit` turns `old` into `new` and
/// announces `r`: a release on the button the press went down on selects it
/// (when enabled); the pointer then hovers `hit` and nothing stays pressed.
pub open spec fn pointer_up_effect(
    old: ToolPaletteView,
    new: ToolPaletteView,
    hit: Option<usize>,
    r: Option<SelectionChange>,
) -> bool {
    let after = ToolPaletteView { hovered: hit, pressed: None, ..old };
    match released_on(old.pressed, hit) {
        Some(i) => if item_enabled(old.items, i as int) {
            &&& announces(r, old.items, i as int)
            &&& new == (ToolPaletteView { selected: Some(i), ..after })
        } else {
            r is None && new == after
        },
        None => r is None && new == after,
    }
}

/// The label of the selected tool, if any.
pub open spec fn selected_label(v: ToolPaletteView) -> Option<Seq<char>> {
    match spec_current_selected(v) {
        Some(i) => Some(v.items[i as int]@.label),
        None => None,
    }
}

impl ToolPalette {
    /// The button the pointer is over: the first enabled button whose area
    /// contains the pointer (`contains[i]` tells whether button `i`'s area
    /// contains it).
    pub fn hit_index(&self, contains: &[bool]) -> (r: Option<usize>)
        requires
            contains@.len() == self@.items.len(),
        ensures
            r matches Some(k) ==> is_first_hit(self@.items, contains@, k as int),
            r is None ==> forall|j: int|
                0 <= j < self@.items.len() ==> !(item_enabled(self@.items, j) && contains@[j]),
    {
        let mut i: usize = 0;
        while i < self.items.len()
            invariant
                i <= self.items.len(),
                contains@.len() == self@.items.len(),
                forall|j: int| 0 <= j < i ==> !(item_enabled(self@.items, j) && contains@[j]),
            decreases self.items.len() - i,
        {
            if self.items[i].enabled && contains[i] {
                return Some(i);
            }
            i = i + 1;
        }
        None
    }

    /// Sets the hovered button; returns whether it changed.
    pub fn set_hovered(&mut self, hovered: Option<usize>) -> (changed: bool)
        ensures
            final(self)@ == (ToolPaletteView { hovered, ..old(self)@ }),
            changed == (old(self)@.hovered != hovered),
    {
        let same = match (self.hovered, hovered) {
            (Some(a), Some(b)) => a == b,
            (None, None) => true,
            _ => false,
        };
        self.hovered = hovered;
        !same
    }

    /// Sets the pressed button; returns whether it changed.
    pub fn set_pressed(&mut self, pressed: Option<usize>) -> (changed: bool)
        ensures
            final(self)@ == (ToolPaletteView { pressed, ..old(self)@ }),
            changed == (old(self)@.pressed != pressed),
    {
        let same = match (self.pressed, pressed) {
            (Some(a), Some(b)) => a == b,
            (None, None) => true,
            _ => false,
        };
        self.pressed = pressed;
        !same
    }

    /// The pointer moved: the button under it becomes the hovered one.
    pub fn pointer_move(&mut self, hit: Option<usize>) -> (changed: bool)
        ensures
            final(self)@ == (ToolPaletteView { hovered: hit, ..old(self)@ }),
            changed == (old(self)@.hovered != hit),
    {
        self.set_hovered(hit)
    }

    /// The primary button went down: the button under the pointer becomes
    /// hovered and pressed. Returns whether a button was pressed, in which
    /// case the palette takes focus, captures the pointer and consumes the
    /// event.
    pub fn pointer_down(&mut self, hit: Option<usize>) -> (grabbed: bool)
        ensures
            final(self)@ == (ToolPaletteView { hovered: hit, pressed: hit, ..old(self)@ }),
            grabbed == (hit is Some),
    {
        self.set_hovered(hit);
        self.set_pressed(hit);
        self.pressed.is_some()
    }

    /// The primary button went up: when it is released over the button it
    /// went down on, that button is selected (and announced). The pointer
    /// then hovers the button under it and nothing stays pressed; the
    /// palette always consumes the event and releases its capture.
    pub fn pointer_up(&mut self, hit: Option<usize>) -> (r: Option<SelectionChange>)
        ensures
            pointer_up_effect(old(self)@, final(self)@, hit, r),
    {
        let released_on = match (self.pressed, hit) {
            (Some(p), Some(h)) => if p == h {
                Some(p)
            } else {
                None
            },
            _ => None,
        };
        let change = match released_on {
            Some(i) => self.select(i),
            None => None,
        };
        self.set_hovered(hit);
        self.set_pressed(None);
        change
    }

    /// The pointer left the palette: nothing is hovered any more.
    pub fn pointer_leave(&mut self) -> (changed: bool)
        ensures
            final(self)@ == (ToolPaletteView { hovered: None, ..old(self)@ }),
            changed == (old(self)@.hovered is Some),
    {
        self.set_hovered(None)
    }

    /// The pointer gesture was cancelled: a pending press is dropped together
    /// with the hover. Returns whether a press was pending, in which case the
    /// palette consumes the event and releases its capture.
    pub fn pointer_cancel(&mut self) -> (handled: bool)
        ensures
            handled == (old(self)@.pressed is Some),
            handled ==> final(self)@ == (ToolPaletteView {
                hovered: None,
                pressed: None,
                ..old(self)@
            }),
            !handled ==> final(self)@ == old(self)@,
    {
        if self.pressed.is_some() {
            self.set_pressed(None);
            self.set_hovered(None);
            true
        } else {
            false
        }
    }

    /// The label of the selected tool, reported as the palette's value.
    pub fn selected_label(&self) -> (r: Option<String>)
        ensures
            match r {
                Some(s) => selected_label(self@) == Some(s@),
                None => selected_label(self@) is None,
            },
    {
        match self.current_selected() {
            Some(i) => Some(self.items[i].label.clone()),
            None => None,
        }
    }

    /// The palette's own accessibility record.
    pub fn palette_semantics(&self, id: u64, focused: bool) -> (r: ToolPaletteSemantics)
        ensures
            r.id == id,
            r.name@ == self@.name,
            match r.value {
                Some(s) => selected_label(self@) == Some(s@),
                None => selected_label(self@) is None,
            },
            r.focused == focused,
            r.actions@ == seq![SemanticsAction::Focus, SemanticsAction::SetValue],
    {
        let mut actions = Vec::new();
        actions.push(SemanticsAction::Focus);
        actions.push(SemanticsAction::SetValue);
        proof {
            assert(actions@ == seq![SemanticsAction::Focus, SemanticsAction::SetValue]);
        }
        ToolPaletteSemantics {
            id,
            name: self.name.clone(),
            value: self.selected_label(),
            focused,
            actions,
        }
    }

    /// The accessibility record of button `index`, placed under the palette
    /// node `parent`.
    pub fn item_semantics(&self, parent: u64, index: usize) -> (r: ToolPaletteItemSemantics)
        requires
            index < self@.items.len(),
        ensures
            r.id == spec_tool_palette_item_id(parent, index),
            r.parent == parent,
            r.name@ == self@.items[index as int]@.label,
            r.value@ == self@.items[index as int]@.label,
            r.disabled == !self@.items[index as int]@.enabled,
            r.hovered == (self@.hovered == Some(index)),
            r.selected == (spec_current_selected(self@) == Some(index)),
            r.actions@ == (if self@.items[index as int]@.enabled {
                seq![SemanticsAction::Activate]
            } else {
                Seq::<SemanticsAction>::empty()
            }),
    {
        // The button count is a `usize`, which keeps `index + 1` in range for
        // the identifier.
        let count = self.items.len();
        assert(index + 1 <= count);
        let item = &self.items[index];
        let mut actions = Vec::new();
        if item.enabled {
            actions.push(SemanticsAction::Activate);
        }
        proof {
            if item.enabled {
                assert(actions@ == seq![SemanticsAction::Activate]);
            } else {
                assert(actions@ == Seq::<SemanticsAction>::empty());
            }
        }
        let hovered = match self.hovered {
            Some(h) => h == index,
            None => false,
        };
        let selected = match self.current_selected() {
            Some(s) => s == index,
            None => false,
        };
        ToolPaletteItemSemantics {
            id: tool_palette_item_id(parent, index),
            parent,
            name: item.label.clone(),
            value: item.label.clone(),
            disabled: !item.enabled,
            hovered,
            selected,
            actions,
        }
    }
}

/// A key press changes nothing but the stored selection; when it announces
/// a change, the announced tool is the stored selection and is enabled.
pub proof fn lemma_key_press_selects_only_enabled_tools(
    old: ToolPaletteView,
    new: ToolPaletteView,
    key: Seq<char>,
    r: KeyOutcome,
)
    requires
        key_effect(old, new, key, r),
    ensures
        new == (ToolPaletteView { selected: new.selected, ..old }),
        r.change matches Some(c) ==> new.selected == Some(c.index) && item_enabled(
            new.items,
            c.index as int,
        ),
{
}

/// With no selection reader bound, stepping back right after a step forward
/// that moved past the (enabled) selected tool returns to that tool.
pub proof fn lemma_step_back_undoes_step_forward(
    v0: ToolPaletteView,
    v1: ToolPaletteView,
    c1: SelectionChange,
    v2: ToolPaletteView,
    r2: Option<SelectionChange>,
    k: usize,
)
    requires
        v0.reader_value is None,
        spec_current_selected(v0) == Some(k),
        item_enabled(v0.items, k as int),
        step_effect(v0, v1, true, Some(c1)),
        c1.index > k,
        step_effect(v1, v2, false, r2),
    ensures
        r2 matches Some(c2) && c2.index == k,
        v2 == (ToolPaletteView { selected: Some(k), ..v0 }),
{
    assert(spec_current_selected(v1) == Some(c1.index));
    assert(step_forward_from(v0) == k + 1);
    assert(step_backward_upto(v1) == c1.index - 1);
    match r2 {
        Some(c2) => {
            if c2.index < k {
                assert(item_enabled(v1.items, k as int));
            } else if c2.index > k {
                assert(!item_enabled(v0.items, c2.index as int));
            }
        },
        None => {
            assert(item_enabled(v1.items, k as int));
        },
    }
}

/// Enter and Space re-announce the selected tool whatever the palette's
/// axis, and Home and End jump on either axis; only the arrow keys depend on
/// the axis (up and down on a vertical palette, left and right on a
/// horizontal one, ignored across it).
pub proof fn lemma_palette_keys_and_axis(axis: Axis)
    ensures
        spec_key_command(axis, "Enter"@) == Some(PaletteKey::Activate),
        spec_key_command(axis, " "@) == Some(PaletteKey::Activate),
        spec_key_command(axis, "Home"@) == Some(PaletteKey::First),
        spec_key_command(axis, "End"@) == Some(PaletteKey::Last),
        spec_key_command(Axis::Vertical, "ArrowUp"@) == Some(PaletteKey::Previous),
        spec_key_command(Axis::Vertical, "ArrowDown"@) == Some(PaletteKey::Next),
        spec_key_command(Axis::Horizontal, "ArrowLeft"@) == Some(PaletteKey::Previous),
        spec_key_command(Axis::Horizontal, "ArrowRight"@) == Some(PaletteKey::Next),
        spec_key_command(Axis::Horizontal, "ArrowUp"@) is None,
        spec_key_command(Axis::Horizontal, "ArrowDown"@) is None,
        spec_key_command(Axis::Vertical, "ArrowLeft"@) is None,
        spec_key_command(Axis::Vertical, "ArrowRight"@) is None,
{
    reveal_strlit("Enter");
    reveal_strlit(" ");
    reveal_strlit("Home");
    reveal_strlit("End");
    reveal_strlit("ArrowUp");
    reveal_strlit("ArrowDown");
    reveal_strlit("ArrowLeft");
    reveal_strlit("ArrowRight");
    assert("Enter"@.len() == 5);
    assert(" "@.len() == 1);
    assert("Home"@.len() == 4);
    assert("End"@.len() == 3);
    assert("ArrowUp"@.len() == 7);
    assert("ArrowDown"@.len() == 9);
    assert("ArrowLeft"@.len() == 9);
    assert("ArrowRight"@.len() == 10);
    assert("ArrowDown"@[5] != "ArrowLeft"@[5]);
}

/// On a palette of either axis, Enter and Space are consumed and re-announce
/// the selected tool when it is enabled, leaving the selection where it is.
pub proof fn lemma_enter_reannounces_selected_tool(
    old: ToolPaletteView,
    new: ToolPaletteView,
    r: KeyOutcome,
    space: bool,
    i: usize,
)
    requires
        key_effect(old, new, if space { " "@ } else { "Enter"@ }, r),
        spec_current_selected(old) == Some(i),
        item_enabled(old.items, i as int),
    ensures
        r.handled,
        r.change matches Some(c) && c.index == i && c.label@ == old.items[i as int]@.label,
        new.selected == Some(i),
        new.items == old.items,
{
    lemma_palette_keys_and_axis(old.axis);
}

/// A press selects a tool only when it is released on the very button it
/// went down on: a release off the palette, on another button, or with
/// nothing pressed announces nothing and keeps the selection; a release on
/// the pressed, enabled button selects and announces exactly that button.
pub proof fn lemma_release_selects_only_pressed_button(
    old: ToolPaletteView,
    new: ToolPaletteView,
    hit: Option<usize>,
    r: Option<SelectionChange>,
)
    requires
        pointer_up_effect(old, new, hit, r),
    ensures
        (hit is None || old.pressed is None || hit != old.pressed) ==> (r is None && new.selected
            == old.selected),
        r matches Some(c) ==> (hit == Some(c.index) && old.pressed == Some(c.index) && item_enabled(
            old.items,
            c.index as int,
        ) && new.selected == Some(c.index)),
        (hit is Some && hit == old.pressed && item_enabled(old.items, hit->0 as int)) ==> (r
            matches Some(c) && c.index == hit->0 && new.selected == hit),
        new.pressed is None,
        new.hovered == hit,
{
}

} // verus!
