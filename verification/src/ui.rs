use vstd::prelude::*;

verus! {

/// Which popup is open.
#[derive(Debug, Clone, Copy, PartialEq, Eq, Structural, Default)]
pub enum ActivePopup {
    #[default]
    Closed,
    Downloading,
    NewList,
}

/// The open popup.
#[derive(Debug)]
pub struct Popup {
    pub active: ActivePopup,
}

/// Which text input has the keyboard.
#[derive(Debug, Clone, Copy, PartialEq, Eq, Structural, Default)]
pub enum InputActive {
    #[default]
    Idle,
    Search,
    NewListName,
    NewListUrl,
}

/// The text inputs: which one is active and the text each holds.
#[derive(Debug)]
pub struct Inputs {
    pub active: InputActive,
    pub search: String,
    pub new_list_name: String,
    pub new_list_url: String,
}

/// The selection state of a list widget: the highlighted row, if any, and
/// the first row shown.
#[derive(Debug, Clone, Copy, PartialEq, Eq, Structural, Default)]
pub struct ListSelection {
    pub offset: usize,
    pub selected: Option<usize>,
}

/// What the user interface remembers between frames.
#[derive(Debug)]
pub struct UiState {
    pub lists: ListSelection,
    pub items_in_list: ListSelection,
    pub input: Inputs,
    pub popup: Popup,
}

/// Whether the application should stop.
#[derive(Debug, Clone, Copy, PartialEq, Eq, Structural, Default)]
pub struct AppState {
    pub should_quit: bool,
}

impl Popup {
    pub fn new() -> (r: Popup)
        ensures
            r.active == ActivePopup::Closed,
    {
        Popup { active: ActivePopup::Closed }
    }

    /// Opens the given popup.
    pub fn open(&mut self, popup: ActivePopup)
        ensures
            final(self).active == popup,
    {
        self.active = popup;
    }

    /// Closes whatever popup is open.
    pub fn close(&mut self)
        ensures
            final(self).active == ActivePopup::Closed,
    {
        self.active = ActivePopup::Closed;
    }
}

impl Inputs {
    pub fn new() -> (r: Inputs)
        ensures
            r.active == InputActive::Idle,
            r.search@ == Seq::<char>::empty(),
            r.new_list_name@ == Seq::<char>::empty(),
            r.new_list_url@ == Seq::<char>::empty(),
    {
        Inputs {
            active: InputActive::Idle,
            search: String::new(),
            new_list_name: String::new(),
            new_list_url: String::new(),
        }
    }
}

impl ListSelection {
    pub fn new() -> (r: ListSelection)
        ensures
            r.offset == 0,
            r.selected is None,
    {
        ListSelection { offset: 0, selected: None }
    }

    pub open spec fn select_spec(self, index: Option<usize>) -> ListSelection {
        ListSelection {
            selected: index,
            offset: if index is None {
                0
            } else {
                self.offset
            },
        }
    }

    /// The highlighted row.
    pub fn selected(&self) -> (r: Option<usize>)
        ensures
            r == self.selected,
    {
        self.selected
    }

    /// Highlights the given row, or none (which also scrolls to the top).
    pub fn select(&mut self, index: Option<usize>)
        ensures
            *final(self) == old(self).select_spec(index),
    {
        self.selected = index;
        if index.is_none() {
            self.offset = 0;
        }
    }

    /// Highlights the next row, or the first when none is.
    pub fn select_next(&mut self)
        ensures
            *final(self) == old(self).select_spec(
                Some(
                    match old(self).selected {
                        Some(i) => if i < usize::MAX {
                            (i + 1) as usize
                        } else {
                            usize::MAX
                        },
                        None => 0usize,
                    },
                ),
            ),
    {
        let next = match self.selected {
            Some(i) => i.saturating_add(1),
            None => 0,
        };
        self.select(Some(next));
    }

    /// Highlights the previous row; with none highlighted it asks for the
    /// last one (`usize::MAX`, which drawing brings back onto the list).
    pub fn select_previous(&mut self)
        ensures
            *final(self) == old(self).select_spec(
                Some(
                    match old(self).selected {
                        Some(i) => if i > 0 {
                            (i - 1) as usize
                        } else {
                            0usize
                        },
                        None => usize::MAX,
                    },
                ),
            ),
    {
        let previous = match self.selected {
            Some(i) => i.saturating_sub(1),
            None => usize::MAX,
        };
        self.select(Some(previous));
    }

    /// Highlights the first row.
    pub fn select_first(&mut self)
        ensures
            *final(self) == old(self).select_spec(Some(0usize)),
    {
        self.select(Some(0));
    }
}

impl UiState {
    pub fn new() -> (r: UiState)
        ensures
            r.lists == (ListSelection { offset: 0, selected: None }),
            r.items_in_list == (ListSelection { offset: 0, selected: None }),
            r.input.active == InputActive::Idle,
            r.input.search@ == Seq::<char>::empty(),
            r.input.new_list_name@ == Seq::<char>::empty(),
            r.input.new_list_url@ == Seq::<char>::empty(),
            r.popup.active == ActivePopup::Closed,
    {
        UiState {
            lists: ListSelection::new(),
            items_in_list: ListSelection::new(),
            input: Inputs::new(),
            popup: Popup::new(),
        }
    }

    /// Closes the new-list popup, releases the keyboard and empties both of
    /// its inputs.
    pub fn close_new_list_popup(&mut self)
        ensures
            final(self).popup.active == ActivePopup::Closed,
            final(self).input.active == InputActive::Idle,
            final(self).input.new_list_name@ == Seq::<char>::empty(),
            final(self).input.new_list_url@ == Seq::<char>::empty(),
            final(self).input.search == old(self).input.search,
            final(self).lists == old(self).lists,
            final(self).items_in_list == old(self).items_in_list,
    {
        self.popup.active = ActivePopup::Closed;
        self.input.active = InputActive::Idle;
        self.input.new_list_name = String::new();
        self.input.new_list_url = String::new();
    }
}

} // verus!
