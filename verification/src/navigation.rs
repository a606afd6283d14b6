use vstd::prelude::*;

verus! {

/// Which kind of list the left panel shows.
#[derive(Debug, Clone, Copy, PartialEq, Eq, Structural, Default)]
pub enum ListsView {
    #[default]
    Lists,
    LocalLists,
}

/// Whether the lists or the items of one list have the focus.
#[derive(Debug, Clone, Copy, PartialEq, Eq, Structural, Default)]
pub enum View {
    #[default]
    Lists,
    Items,
}

/// Where the user is: which kind of list, which panel, which list is open.
#[derive(Debug)]
pub struct Navigation {
    pub list_view: ListsView,
    pub view: View,
    pub current_list_path: Option<String>,
    pub current_local_list_path: Option<String>,
}

/// The other kind of list.
pub open spec fn other_view(v: ListsView) -> ListsView {
    match v {
        ListsView::Lists => ListsView::LocalLists,
        ListsView::LocalLists => ListsView::Lists,
    }
}

impl Navigation {
    pub fn new() -> (r: Navigation)
        ensures
            r.list_view == ListsView::Lists,
            r.view == View::Lists,
            r.current_list_path is None,
            r.current_local_list_path is None,
    {
        Navigation {
            list_view: ListsView::Lists,
            view: View::Lists,
            current_list_path: None,
            current_local_list_path: None,
        }
    }

    /// Switches to the other kind of list.
    pub fn next_view(&mut self)
        ensures
            final(self).list_view == other_view(old(self).list_view),
            final(self).view == old(self).view,
            final(self).current_list_path == old(self).current_list_path,
            final(self).current_local_list_path == old(self).current_local_list_path,
    {
        match self.list_view {
            ListsView::Lists => self.list_view = ListsView::LocalLists,
            ListsView::LocalLists => self.list_view = ListsView::Lists,
        }
    }

    /// Switches to the other kind of list (there are two, so this is the
    /// same move as `next_view`).
    pub fn prev_view(&mut self)
        ensures
            final(self).list_view == other_view(old(self).list_view),
            final(self).view == old(self).view,
            final(self).current_list_path == old(self).current_list_path,
            final(self).current_local_list_path == old(self).current_local_list_path,
    {
        match self.list_view {
            ListsView::Lists => self.list_view = ListsView::LocalLists,
            ListsView::LocalLists => self.list_view = ListsView::Lists,
        }
    }
}

/// Switching kind of list twice, in either direction, comes back to where it
/// started; `prev_view` undoes `next_view` and the other way round.
pub proof fn lemma_view_switch_round_trip(v: ListsView)
    ensures
        other_view(other_view(v)) == v,
        other_view(v) != v,
{
}

} // verus!
