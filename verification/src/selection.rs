//! A list of options of which at most one is highlighted, with cyclic
//! navigation. It knows how many options there are, not what they mean: its
//! owner resolves the highlighted index.

use vstd::prelude::*;

verus! {

/// The mathematical state of a selection list.
pub struct SelectionView {
    /// How many options the list has.
    pub len: nat,
    /// The index of the highlighted option, if any.
    pub selected: Option<nat>,
}

impl SelectionView {
    /// The highlighted index, if any, points at an option.
    pub open spec fn wf(self) -> bool {
        self.selected matches Some(i) ==> i < self.len
    }

    /// The list with nothing highlighted.
    pub open spec fn select_none(self) -> SelectionView {
        SelectionView { selected: None, ..self }
    }

    /// The list with its first option highlighted.
    pub open spec fn select_first(self) -> SelectionView {
        SelectionView {
            selected: if self.len == 0 {
                None
            } else {
                Some(0)
            },
            ..self
        }
    }

    /// The list with its last option highlighted.
    pub open spec fn select_last(self) -> SelectionView {
        SelectionView {
            selected: if self.len == 0 {
                None
            } else {
                Some((self.len - 1) as nat)
            },
            ..self
        }
    }

    /// The list with the highlight moved on by one: from the last option to
    /// the first, and from nothing to the first.
    pub open spec fn select_next(self) -> SelectionView {
        match self.selected {
            Some(i) if i + 1 < self.len => SelectionView { selected: Some(i + 1), ..self },
            _ => self.select_first(),
        }
    }

    /// The list with the highlight moved back by one: from the first option
    /// to the last, and from nothing to the last.
    pub open spec fn select_previous(self) -> SelectionView {
        match self.selected {
            Some(i) if 0 < i && i < self.len => SelectionView {
                selected: Some((i - 1) as nat),
                ..self
            },
            _ => self.select_last(),
        }
    }

    /// Navigation wraps around the ends: the next of the last option is the
    /// first, the previous of the first is the last, and from no highlight
    /// the next is the first.
    pub proof fn lemma_cyclic_navigation(self)
        requires
            self.wf(),
            self.len > 0,
        ensures
            self.select_last().select_next().selected == Some(0nat),
            self.select_first().select_previous().selected == Some((self.len - 1) as nat),
            self.select_none().select_next().selected == Some(0nat),
            self.selected == Some((self.len - 1) as nat) ==> self.select_next().selected == Some(
                0nat,
            ),
            self.selected == Some(0nat) ==> self.select_previous().selected == Some(
                (self.len - 1) as nat,
            ),
    {
    }

    /// Moving on and then back, or back and then on, returns to the option
    /// that was highlighted.
    pub proof fn lemma_next_previous_inverse(self)
        requires
            self.wf(),
            self.selected is Some,
        ensures
            self.select_next().select_previous() == self,
            self.select_previous().select_next() == self,
    {
    }

    /// Every operation keeps the highlight inside the list and the number of
    /// options unchanged.
    pub proof fn lemma_navigation_wf(self)
        requires
            self.wf(),
        ensures
            self.select_none().wf() && self.select_none().len == self.len,
            self.select_first().wf() && self.select_first().len == self.len,
            self.select_last().wf() && self.select_last().len == self.len,
            self.select_next().wf() && self.select_next().len == self.len,
            self.select_previous().wf() && self.select_previous().len == self.len,
    {
    }
}

/// A selection list over `len` options.
#[derive(Debug, Clone, Copy)]
pub struct SelectionList {
    len: usize,
    selected: Option<usize>,
}

impl View for SelectionList {
    type V = SelectionView;

    closed spec fn view(&self) -> SelectionView {
        SelectionView {
            len: self.len as nat,
            selected: match self.selected {
                Some(i) => Some(i as nat),
                None => None,
            },
        }
    }
}

impl SelectionList {
    /// A list over `len` options, none of them highlighted.
    pub fn new(len: usize) -> (list: Self)
        ensures
            list@ == (SelectionView { len: len as nat, selected: None }),
            list@.wf(),
    {
        Self { len, selected: None }
    }

    /// How many options the list has.
    pub fn len(&self) -> (len: usize)
        ensures
            len == self@.len,
    {
        self.len
    }

    /// The index of the highlighted option, if any.
    pub fn selected(&self) -> (selected: Option<usize>)
        ensures
            selected is Some <==> self@.selected is Some,
            selected matches Some(i) ==> self@.selected == Some(i as nat),
    {
        self.selected
    }

    pub fn select_none(&mut self)
        requires
            old(self)@.wf(),
        ensures
            final(self)@ == old(self)@.select_none(),
            final(self)@.wf(),
    {
        self.selected = None;
    }

    pub fn select_first(&mut self)
        requires
            old(self)@.wf(),
        ensures
            final(self)@ == old(self)@.select_first(),
            final(self)@.wf(),
    {
        self.selected = if self.len == 0 {
            None
        } else {
            Some(0)
        };
    }

    pub fn select_last(&mut self)
        requires
            old(self)@.wf(),
        ensures
            final(self)@ == old(self)@.select_last(),
            final(self)@.wf(),
    {
        self.selected = if self.len == 0 {
            None
        } else {
            Some(self.len - 1)
        };
    }

    pub fn select_next(&mut self)
        requires
            old(self)@.wf(),
        ensures
            final(self)@ == old(self)@.select_next(),
            final(self)@.wf(),
    {
        match self.selected {
            Some(i) if i + 1 < self.len => {
                self.selected = Some(i + 1);
            },
            _ => {
                self.select_first();
            },
        }
    }

    pub fn select_previous(&mut self)
        requires
            old(self)@.wf(),
        ensures
            final(self)@ == old(self)@.select_previous(),
            final(self)@.wf(),
    {
        match self.selected {
            Some(i) if 0 < i && i < self.len => {
                self.selected = Some(i - 1);
            },
            _ => {
                self.select_last();
            },
        }
    }
}

} // verus!
