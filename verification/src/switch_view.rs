//! A switch view shows exactly one of its children: the one whose index is
//! selected. This module decides which child is active; the children
//! themselves live in the rendering layer, which tells it how many there are.
use vstd::prelude::*;

verus! {

/// Which child of a switch view is active.
#[derive(Debug)]
pub struct SwitchView {
    selected: usize,
    reader_value: Option<usize>,
    child_count: usize,
}

/// The abstract content of a [`SwitchView`]. `reader_value` is the index
/// last read from a bound reader or observable (`None` when none is bound).
pub struct SwitchViewView {
    pub selected: usize,
    pub reader_value: Option<usize>,
    pub child_count: usize,
}

impl View for SwitchView {
    type V = SwitchViewView;

    closed spec fn view(&self) -> SwitchViewView {
        SwitchViewView {
            selected: self.selected,
            reader_value: self.reader_value,
            child_count: self.child_count,
        }
    }
}

/// The active child: the bound source's index (or the stored one when no
/// source is bound), when a child with that index exists.
pub open spec fn spec_active_index(v: SwitchViewView) -> Option<usize> {
    let wanted = match v.reader_value {
        Some(read) => read,
        None => v.selected,
    };
    if wanted < v.child_count {
        Some(wanted)
    } else {
        None
    }
}

impl SwitchView {
    /// A switch view without children, selecting the first child.
    pub fn new() -> (r: Self)
        ensures
            r@ == (SwitchViewView { selected: 0, reader_value: None, child_count: 0 }),
    {
        SwitchView { selected: 0, reader_value: None, child_count: 0 }
    }

    /// Selects child `selected` and unbinds any reader or observable.
    pub fn selected(self, selected: usize) -> (r: Self)
        ensures
            r@ == (SwitchViewView { selected, reader_value: None, ..self@ }),
    {
        let mut view = self;
        view.selected = selected;
        view.reader_value = None;
        view
    }

    /// Binds the selection to an observable whose current value is
    /// `current`: that value is stored and followed from now on.
    pub fn selected_from(self, current: usize) -> (r: Self)
        ensures
            r@ == (SwitchViewView { selected: current, reader_value: Some(current), ..self@ }),
    {
        let mut view = self;
        view.selected = current;
        view.reader_value = Some(current);
        view
    }

    /// Records what the bound reader or observable currently reports.
    pub fn set_reader_selection(&mut self, value: usize)
        ensures
            final(self)@ == (SwitchViewView { reader_value: Some(value), ..old(self)@ }),
    {
        self.reader_value = Some(value);
    }

    /// Adds a child after the existing ones.
    pub fn with_child(self) -> (r: Self)
        requires
            self@.child_count < usize::MAX,
        ensures
            r@ == (SwitchViewView { child_count: (self@.child_count + 1) as usize, ..self@ }),
    {
        let mut view = self;
        view.child_count = view.child_count + 1;
        view
    }

    /// Adds a child after the existing ones.
    pub fn push(&mut self)
        requires
            old(self)@.child_count < usize::MAX,
        ensures
            final(self)@ == (SwitchViewView {
                child_count: (old(self)@.child_count + 1) as usize,
                ..old(self)@
            }),
    {
        self.child_count = self.child_count + 1;
    }

    /// The number of children.
    pub fn child_count(&self) -> (r: usize)
        ensures
            r == self@.child_count,
    {
        self.child_count
    }

    /// The active child, if the selected index names one.
    pub fn selected_index(&self) -> (r: Option<usize>)
        ensures
            r == spec_active_index(self@),
            r matches Some(i) ==> i < self@.child_count,
    {
        let wanted = match self.reader_value {
            Some(read) => read,
            None => self.selected,
        };
        if wanted < self.child_count {
            Some(wanted)
        } else {
            None
        }
    }
}

} // verus!
