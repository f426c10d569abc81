//! The main menu.

use crate::selection::{SelectionList, SelectionView};
use vstd::prelude::*;
use vstd::string::StringExecFns;

verus! {

/// The options of the main menu.
#[derive(Debug, Clone, Copy, PartialEq, Eq, Structural)]
pub enum MenuOptions {
    Type,
    Quit,
}

impl MenuOptions {
    /// The label under which the option is shown.
    pub open spec fn label(self) -> Seq<char> {
        match self {
            MenuOptions::Type => "Type"@,
            MenuOptions::Quit => "Quit"@,
        }
    }

    /// The label under which the option is shown.
    pub fn to_string(&self) -> (label: String)
        ensures
            label@ == self.label(),
    {
        match self {
            MenuOptions::Type => String::from_str("Type"),
            MenuOptions::Quit => String::from_str("Quit"),
        }
    }
}

/// The mathematical state of the menu.
pub struct MenuView {
    pub options: Seq<MenuOptions>,
    pub selection: SelectionView,
}

impl MenuView {
    /// The selection ranges over the options.
    pub open spec fn wf(self) -> bool {
        self.selection.wf() && self.selection.len == self.options.len()
    }

    /// The highlighted option, if any.
    pub open spec fn selected_option(self) -> Option<MenuOptions> {
        match self.selection.selected {
            Some(i) => Some(self.options[i as int]),
            None => None,
        }
    }

    /// The menu as it is first shown: `Type` above `Quit`, `Type`
    /// highlighted.
    pub open spec fn initial() -> MenuView {
        MenuView {
            options: seq![MenuOptions::Type, MenuOptions::Quit],
            selection: SelectionView { len: 2, selected: Some(0) },
        }
    }
}

/// The main menu: its options and which of them is highlighted.
#[derive(Debug)]
pub struct Menu {
    options: Vec<MenuOptions>,
    current_selection: SelectionList,
}

impl View for Menu {
    type V = MenuView;

    closed spec fn view(&self) -> MenuView {
        MenuView { options: self.options@, selection: self.current_selection@ }
    }
}

impl Menu {
    pub fn new() -> (menu: Self)
        ensures
            menu@ == MenuView::initial(),
            menu@.wf(),
    {
        // initialize state as the first item in the menu
        let mut state = SelectionList::new(2);
        state.select_first();
        let mut options: Vec<MenuOptions> = Vec::new();
        options.push(MenuOptions::Type);
        options.push(MenuOptions::Quit);
        assert(options@ =~= seq![MenuOptions::Type, MenuOptions::Quit]);
        Self { options, current_selection: state }
    }

    /// The options in the order in which they are shown.
    pub fn options(&self) -> (options: &Vec<MenuOptions>)
        ensures
            options@ == self@.options,
    {
        &self.options
    }

    /// The index of the highlighted option, if any.
    pub fn selected(&self) -> (selected: Option<usize>)
        ensures
            selected is Some <==> self@.selection.selected is Some,
            selected matches Some(i) ==> self@.selection.selected == Some(i as nat),
    {
        self.current_selection.selected()
    }

    /// The highlighted option, if any.
    pub fn selected_option(&self) -> (option: Option<MenuOptions>)
        requires
            self@.wf(),
        ensures
            option == self@.selected_option(),
    {
        match self.current_selection.selected() {
            Some(x) => Some(self.options[x]),
            None => None,
        }
    }

    pub fn select_none(&mut self)
        requires
            old(self)@.wf(),
        ensures
            final(self)@ == (MenuView { selection: old(self)@.selection.select_none(), ..old(self)@ }),
            final(self)@.wf(),
    {
        self.current_selection.select_none();
    }

    pub fn select_next(&mut self)
        requires
            old(self)@.wf(),
        ensures
            final(self)@ == (MenuView { selection: old(self)@.selection.select_next(), ..old(self)@ }),
            final(self)@.wf(),
    {
        self.current_selection.select_next();
    }

    pub fn select_previous(&mut self)
        requires
            old(self)@.wf(),
        ensures
            final(self)@ == (MenuView {
                selection: old(self)@.selection.select_previous(),
                ..old(self)@
            }),
            final(self)@.wf(),
    {
        self.current_selection.select_previous();
    }

    pub fn select_first(&mut self)
        requires
            old(self)@.wf(),
        ensures
            final(self)@ == (MenuView { selection: old(self)@.selection.select_first(), ..old(self)@ }),
            final(self)@.wf(),
    {
        self.current_selection.select_first();
    }

    pub fn select_last(&mut self)
        requires
            old(self)@.wf(),
        ensures
            final(self)@ == (MenuView { selection: old(self)@.selection.select_last(), ..old(self)@ }),
            final(self)@.wf(),
    {
        self.current_selection.select_last();
    }
}

} // verus!
