//! The overlay shown while an attempt is paused.

use crate::selection::{SelectionList, SelectionView};
use vstd::prelude::*;
use vstd::string::StringExecFns;

verus! {

/// The options of the pause overlay.
#[derive(Debug, Clone, Copy, PartialEq, Eq, Structural)]
pub enum PauseOptions {
    Resume,
    Quit,
}

impl PauseOptions {
    /// The label under which the option is shown.
    pub open spec fn label(self) -> Seq<char> {
        match self {
            PauseOptions::Resume => "Resume"@,
            PauseOptions::Quit => "Quit"@,
        }
    }

    /// The label under which the option is shown.
    pub fn to_string(&self) -> (label: String)
        ensures
            label@ == self.label(),
    {
        match self {
            PauseOptions::Resume => String::from_str("Resume"),
            PauseOptions::Quit => String::from_str("Quit"),
        }
    }
}

/// The mathematical state of the pause overlay.
pub struct PauseView {
    pub options: Seq<PauseOptions>,
    pub selection: SelectionView,
}

impl PauseView {
    /// The selection ranges over the options.
    pub open spec fn wf(self) -> bool {
        self.selection.wf() && self.selection.len == self.options.len()
    }

    /// The highlighted option, if any.
    pub open spec fn selected_option(self) -> Option<PauseOptions> {
        match self.selection.selected {
            Some(i) => Some(self.options[i as int]),
            None => None,
        }
    }

    /// The overlay as it is first shown: `Resume` above `Quit`, `Resume`
    /// highlighted.
    pub open spec fn initial() -> PauseView {
        PauseView {
            options: seq![PauseOptions::Resume, PauseOptions::Quit],
            selection: SelectionView { len: 2, selected: Some(0) },
        }
    }
}

/// The pause overlay: its options and which of them is highlighted.
#[derive(Debug)]
pub struct Pause {
    options: Vec<PauseOptions>,
    current_selection: SelectionList,
}

impl View for Pause {
    type V = PauseView;

    closed spec fn view(&self) -> PauseView {
        PauseView { options: self.options@, selection: self.current_selection@ }
    }
}

impl Pause {
    pub fn new() -> (pause: Self)
        ensures
            pause@ == PauseView::initial(),
            pause@.wf(),
    {
        // initialize state as the first item in the overlay
        let mut state = SelectionList::new(2);
        state.select_first();
        let mut options: Vec<PauseOptions> = Vec::new();
        options.push(PauseOptions::Resume);
        options.push(PauseOptions::Quit);
        assert(options@ =~= seq![PauseOptions::Resume, PauseOptions::Quit]);
        Self { options, current_selection: state }
    }

    /// The options in the order in which they are shown.
    pub fn options(&self) -> (options: &Vec<PauseOptions>)
        ensures
            options@ == self@.options,
    {
        &self.options
    }

    /// The index of the highlighted option, if any.
    pub fn selected(&self) -> (selected: Option<usize>)
        ensures
            selected is Some <==> self@.selection.selected is Some,
            selected matches Some(i) ==> self@.selection.selected == Some(i as nat),
    {
        self.current_selection.selected()
    }

    /// The highlighted option, if any.
    pub fn selected_option(&self) -> (option: Option<PauseOptions>)
        requires
            self@.wf(),
        ensures
            option == self@.selected_option(),
    {
        match self.current_selection.selected() {
            Some(x) => Some(self.options[x]),
            None => None,
        }
    }

    pub fn select_none(&mut self)
        requires
            old(self)@.wf(),
        ensures
            final(self)@ == (PauseView { selection: old(self)@.selection.select_none(), ..old(self)@ }),
            final(self)@.wf(),
    {
        self.current_selection.select_none();
    }

    pub fn select_next(&mut self)
        requires
            old(self)@.wf(),
        ensures
            final(self)@ == (PauseView { selection: old(self)@.selection.select_next(), ..old(self)@ }),
            final(self)@.wf(),
    {
        self.current_selection.select_next();
    }

    pub fn select_previous(&mut self)
        requires
            old(self)@.wf(),
        ensures
            final(self)@ == (PauseView {
                selection: old(self)@.selection.select_previous(),
                ..old(self)@
            }),
            final(self)@.wf(),
    {
        self.current_selection.select_previous();
    }

    pub fn select_first(&mut self)
        requires
            old(self)@.wf(),
        ensures
            final(self)@ == (PauseView { selection: old(self)@.selection.select_first(), ..old(self)@ }),
            final(self)@.wf(),
    {
        self.current_selection.select_first();
    }

    pub fn select_last(&mut self)
        requires
            old(self)@.wf(),
        ensures
            final(self)@ == (PauseView { selection: old(self)@.selection.select_last(), ..old(self)@ }),
            final(self)@.wf(),
    {
        self.current_selection.select_last();
    }
}

} // verus!
