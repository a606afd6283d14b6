use vstd::prelude::*;
use crate::commands::{CommandLists, selected_for};
use crate::config::AppConfig;
use crate::data::{
    AppData,
    ListItem,
    Search,
    contains_name,
    copy_items,
    names_contain,
    table_get,
    table_insert,
    table_lookup,
    table_store,
};
use crate::favorite::{Favorite, FavoriteEntry, is_favorite_in, toggled};
use crate::navigation::{ListsView, Navigation};
use crate::paths::{
    file_name,
    file_stem,
    has_json_extension,
    is_json_path,
    path_file_name,
    path_file_stem,
};
use crate::scroll::{Scroll, random_below};
use crate::text::{
    contains_ignore_case,
    contains_spec,
    cut_at,
    cut_at_spec,
    lowercase,
    owned,
    sanitize_filename,
    sanitize_spec,
};
use crate::ui::{AppState, InputActive, Inputs, ListSelection, UiState};

verus! {

/// The whole state of the browser.
#[derive(Debug)]
pub struct App {
    pub commands: CommandLists,
    pub config: AppConfig,
    pub data: AppData,
    pub favorite: Favorite,
    pub navigation: Navigation,
    pub state: AppState,
    pub ui: UiState,
    pub scroll: Scroll,
    pub search: Search,
}

/// The items of `items` that are favorites of list `list`.
pub open spec fn favorites_only(
    items: Seq<ListItem>,
    favs: Seq<crate::favorite::FavoriteEntry>,
    list: Seq<char>,
) -> Seq<ListItem>
    decreases items.len(),
{
    if items.len() == 0 {
        items
    } else {
        let rest = favorites_only(items.drop_last(), favs, list);
        if is_favorite_in(favs, list, items.last().item@) {
            rest.push(items.last())
        } else {
            rest
        }
    }
}

/// The indices, in order, of the lists whose stem contains `query`, case
/// ignored.
pub open spec fn matching_lists(lists: Seq<String>, query: Seq<char>) -> Seq<usize>
    decreases lists.len(),
{
    if lists.len() == 0 {
        Seq::empty()
    } else {
        let rest = matching_lists(lists.drop_last(), query);
        match path_file_stem(lists.last()@) {
            Some(stem) => if contains_spec(lowercase(stem), lowercase(query)) {
                rest.push((lists.len() - 1) as usize)
            } else {
                rest
            },
            None => rest,
        }
    }
}

/// The indices, in order, of the items whose title contains `query`, case
/// ignored.
pub open spec fn matching_items(items: Seq<ListItem>, query: Seq<char>) -> Seq<usize>
    decreases items.len(),
{
    if items.len() == 0 {
        Seq::empty()
    } else {
        let rest = matching_items(items.drop_last(), query);
        if contains_spec(lowercase(items.last().item@), lowercase(query)) {
            rest.push((items.len() - 1) as usize)
        } else {
            rest
        }
    }
}

pub open spec fn unknown_name() -> Seq<char> {
    "unknown"@
}

impl App {
    /// The highlighted row of the lists panel (the first when none is).
    pub open spec fn lists_row(self) -> int {
        match self.ui.lists.selected {
            Some(i) => i as int,
            None => 0,
        }
    }

    /// The local folder that is open: the one recorded, else the one
    /// highlighted.
    pub open spec fn local_path_spec(self) -> Option<Seq<char>> {
        match self.navigation.current_local_list_path {
            Some(p) => Some(p@),
            None => if self.lists_row() < self.data.local_lists@.len() {
                Some(self.data.local_lists@[self.lists_row()]@)
            } else {
                None
            },
        }
    }

    /// The name of the open local folder, or `unknown`.
    pub open spec fn local_list_name_spec(self) -> Seq<char> {
        match self.local_path_spec() {
            Some(p) => match path_file_name(p) {
                Some(n) => n,
                None => unknown_name(),
            },
            None => unknown_name(),
        }
    }

    /// The name of the open list: the stem of its file, the name of the
    /// local folder, or `unknown`.
    pub open spec fn list_name_spec(self) -> Seq<char> {
        if self.navigation.list_view == ListsView::LocalLists {
            self.local_list_name_spec()
        } else {
            match self.navigation.current_list_path {
                Some(p) => match path_file_stem(p@) {
                    Some(s) => s,
                    None => unknown_name(),
                },
                None => unknown_name(),
            }
        }
    }

    /// The items of the open local folder that were read from disk.
    pub open spec fn local_items_spec(self) -> Seq<ListItem> {
        match self.local_path_spec() {
            Some(p) => match table_get(self.data.items_in_local_list@, p) {
                Some(v) => v@,
                None => Seq::empty(),
            },
            None => Seq::empty(),
        }
    }

    /// The items shown for the open list: the local folder's entries, or the
    /// list's items (only its favorites in favorites mode).
    pub open spec fn items_spec(self) -> Seq<ListItem> {
        if self.navigation.list_view == ListsView::LocalLists {
            self.local_items_spec()
        } else {
            match self.navigation.current_list_path {
                Some(p) => match table_get(self.data.items_in_list@, p@) {
                    Some(v) => if self.favorite.in_favorites {
                        favorites_only(v@, self.favorite.list_favorites@, self.list_name_spec())
                    } else {
                        v@
                    },
                    None => Seq::empty(),
                },
                None => Seq::empty(),
            }
        }
    }

    /// The highlighted list file when it is a `.json` file.
    pub open spec fn selected_json_spec(self) -> Option<String> {
        if self.lists_row() < self.data.lists@.len() && is_json_path(
            self.data.lists@[self.lists_row()]@,
        ) {
            Some(self.data.lists@[self.lists_row()])
        } else {
            None
        }
    }

    /// A search over the lists is under way and has text.
    pub open spec fn searching_lists(self) -> bool {
        &&& self.navigation.view == crate::navigation::View::Lists
        &&& self.ui.input.active == InputActive::Search
        &&& self.ui.input.search@.len() > 0
    }

    /// The list file that the highlighted search result stands for.
    pub open spec fn searched_list_spec(self) -> Option<String> {
        match self.ui.lists.selected {
            Some(si) => if self.searching_lists() && si < self.search.lists_query@.len()
                && self.search.lists_query@[si as int] < self.data.lists@.len() {
                Some(self.data.lists@[self.search.lists_query@[si as int] as int])
            } else {
                None
            },
            None => None,
        }
    }

    /// The list that `reload_data` opens, if it opens one.
    pub open spec fn reload_target(self) -> Option<String> {
        match self.searched_list_spec() {
            Some(p) => Some(p),
            None => self.selected_json_spec(),
        }
    }

    /// The name of the open list: the stem of its file (or the name of the
    /// open local folder), `unknown` when there is none.
    pub fn current_list_name(&self) -> (r: String)
        ensures
            r@ == self.list_name_spec(),
    {
        if self.navigation.list_view == ListsView::LocalLists {
            return self.current_local_list_name();
        }
        match &self.navigation.current_list_path {
            Some(p) => match file_stem(p.as_str()) {
                Some(s) => s,
                None => owned("unknown"),
            },
            None => owned("unknown"),
        }
    }

    fn local_path(&self) -> (r: Option<&String>)
        ensures
            match r {
                Some(p) => self.local_path_spec() == Some(p@),
                None => self.local_path_spec() is None,
            },
    {
        match &self.navigation.current_local_list_path {
            Some(p) => Some(p),
            None => {
                let selected = match self.ui.lists.selected {
                    Some(i) => i,
                    None => 0,
                };
                if selected < self.data.local_lists.len() {
                    Some(&self.data.local_lists[selected])
                } else {
                    None
                }
            },
        }
    }

    /// The name of the open local folder, `unknown` when there is none.
    pub fn current_local_list_name(&self) -> (r: String)
        ensures
            r@ == self.local_list_name_spec(),
    {
        match self.local_path() {
            Some(p) => match file_name(p.as_str()) {
                Some(n) => n,
                None => owned("unknown"),
            },
            None => owned("unknown"),
        }
    }

    /// The entries of the open local folder, as read from disk when the
    /// folders were loaded; empty when the folder was not read.
    pub fn get_current_local_list_items(&self) -> (r: Vec<ListItem>)
        ensures
            r@ == self.local_items_spec(),
    {
        match self.local_path() {
            Some(p) => match table_lookup(&self.data.items_in_local_list, p) {
                Some(v) => copy_items(v),
                None => Vec::new(),
            },
            None => Vec::new(),
        }
    }

    /// The open local folder when its entries have not been read: the
    /// folder whose entries must be read from disk before they can be shown.
    pub fn local_folder_to_read(&self) -> (r: Option<String>)
        ensures
            match r {
                Some(p) => self.local_path_spec() == Some(p@) && table_get(
                    self.data.items_in_local_list@,
                    p@,
                ) is None,
                None => match self.local_path_spec() {
                    Some(p) => table_get(self.data.items_in_local_list@, p) is Some,
                    None => true,
                },
            },
    {
        match self.local_path() {
            Some(p) => match table_lookup(&self.data.items_in_local_list, p) {
                Some(_) => None,
                None => Some(p.clone()),
            },
            None => None,
        }
    }

    /// The items shown for the open list.
    pub fn get_current_list_items(&self) -> (r: Vec<ListItem>)
        ensures
            r@ == self.items_spec(),
    {
        if self.navigation.list_view == ListsView::LocalLists {
            return self.get_current_local_list_items();
        }
        match &self.navigation.current_list_path {
            Some(p) => match table_lookup(&self.data.items_in_list, p) {
                Some(items) => {
                    if self.favorite.in_favorites {
                        let list = self.current_list_name();
                        let mut out: Vec<ListItem> = Vec::new();
                        let n = items.len();
                        let mut i: usize = 0;
                        while i < n
                            invariant
                                0 <= i <= n,
                                n == items@.len(),
                                list@ == self.list_name_spec(),
                                out@ == favorites_only(
                                    items@.take(i as int),
                                    self.favorite.list_favorites@,
                                    list@,
                                ),
                            decreases n - i,
                        {
                            assert(items@.take(i + 1).drop_last() =~= items@.take(i as int));
                            if self.favorite.is_favorite(list.as_str(), items[i].item.as_str()) {
                                out.push(items[i].copy());
                            }
                            i = i + 1;
                        }
                        assert(items@.take(n as int) =~= items@);
                        out
                    } else {
                        copy_items(items)
                    }
                },
                None => Vec::new(),
            },
            None => Vec::new(),
        }
    }

    /// How many items the open list shows.
    pub fn get_current_list_items_count(&self) -> (r: usize)
        ensures
            r == self.items_spec().len(),
    {
        if self.navigation.list_view == ListsView::LocalLists {
            return self.get_current_local_list_items_count();
        }
        self.get_current_list_items().len()
    }

    /// How many entries the open local folder holds.
    pub fn get_current_local_list_items_count(&self) -> (r: usize)
        ensures
            r == self.local_items_spec().len(),
    {
        self.get_current_local_list_items().len()
    }

    /// The highlighted list file, when it is a `.json` file.
    pub fn selected_json_path(&self) -> (r: Option<String>)
        ensures
            r == self.selected_json_spec(),
    {
        let selected = match self.ui.lists.selected {
            Some(i) => i,
            None => 0,
        };
        if selected >= self.data.lists.len() {
            return None;
        }
        let path = self.data.lists[selected].clone();
        if has_json_extension(path.as_str()) {
            Some(path)
        } else {
            None
        }
    }
}


impl App {
    /// The state with `path` recorded as the open list.
    pub open spec fn with_list_path(self, path: String) -> App {
        App { navigation: Navigation { current_list_path: Some(path), ..self.navigation }, ..self }
    }

    /// The state after `load_current_commands`: the command list named like
    /// the open list (up to a `(`) is selected, with its first command.
    pub open spec fn load_commands_spec(self) -> App {
        App {
            commands: CommandLists {
                selected_list: selected_for(
                    self.commands.lists@,
                    cut_at_spec(self.list_name_spec(), '('),
                ),
                selected_command: 0,
                ..self.commands
            },
            ..self
        }
    }

    /// The state after `reload_data`.
    pub open spec fn reload_spec(self) -> App {
        match self.reload_target() {
            Some(p) => self.with_list_path(p).load_commands_spec(),
            None => self.load_commands_spec(),
        }
    }

    /// The search text is being typed and is not empty.
    pub open spec fn search_active(self) -> bool {
        self.ui.input.active == InputActive::Search && self.ui.input.search@.len() > 0
    }

    /// The state after `update_selected_list_from_search`.
    pub open spec fn follow_search_spec(self) -> App {
        let s1 = match self.ui.lists.selected {
            Some(si) => if self.searching_lists() && si < self.search.lists_query@.len() {
                let ri = self.search.lists_query@[si as int];
                App {
                    commands: CommandLists { selected_list: ri, ..self.commands },
                    navigation: Navigation {
                        current_list_path: if ri < self.data.lists@.len() {
                            Some(self.data.lists@[ri as int])
                        } else {
                            self.navigation.current_list_path
                        },
                        ..self.navigation
                    },
                    search: Search { saved_list_selection: Some(ri), ..self.search },
                    ..self
                }
            } else {
                self
            },
            None => self,
        };
        if s1.navigation.view == crate::navigation::View::Items && s1.search_active()
            && s1.scroll.index() < s1.search.items_query@.len() {
            App {
                search: Search {
                    saved_item_selection: Some(s1.search.items_query@[s1.scroll.index()]),
                    ..s1.search
                },
                ..s1
            }
        } else {
            s1
        }
    }

    /// What `update_selected_list_from_search` needs to run without fault.
    pub open spec fn follow_search_defined(self) -> bool {
        self.navigation.view == crate::navigation::View::Items && self.search_active()
            ==> self.scroll.start + self.scroll.selected <= usize::MAX
    }

    /// Records the list file at `path` as the open list.
    pub fn load_list(&mut self, path: &String)
        ensures
            *final(self) == old(self).with_list_path(*path),
    {
        self.navigation.current_list_path = Some(path.clone());
    }

    /// Selects the command list named like the open list (the part of its
    /// name before a `(`), and its first command.
    pub fn load_current_commands(&mut self)
        ensures
            *final(self) == old(self).load_commands_spec(),
    {
        let list = self.current_list_name();
        let clean_list = cut_at(list.as_str(), '(');
        self.commands.select_list_named(&clean_list);
    }

    fn search_text_present(&self) -> (b: bool)
        ensures
            b == (self.ui.input.search@.len() > 0),
    {
        !self.ui.input.search.as_str().is_empty()
    }

    /// Opens the list that the lists panel points at (through the search
    /// results while searching), then selects its commands.
    pub fn reload_data(&mut self)
        ensures
            *final(self) == old(self).reload_spec(),
    {
        let mut target: Option<String> = None;
        if self.navigation.view == crate::navigation::View::Lists && self.ui.input.active
            == InputActive::Search && self.search_text_present() {
            if let Some(si) = self.ui.lists.selected {
                if si < self.search.lists_query.len() {
                    let ri = self.search.lists_query[si];
                    if ri < self.data.lists.len() {
                        target = Some(self.data.lists[ri].clone());
                    }
                }
            }
        }
        match target {
            Some(p) => {
                self.navigation.current_list_path = Some(p);
            },
            None => {
                if let Some(path) = self.selected_json_path() {
                    self.load_list(&path);
                }
            },
        }
        self.load_current_commands();
    }

    /// Collects the lists whose name contains the search text.
    pub fn search_lists(&mut self)
        ensures
            final(self).search.lists_query@ == matching_lists(
                old(self).data.lists@,
                old(self).ui.input.search@,
            ),
            *final(self) == (App {
                search: Search { lists_query: final(self).search.lists_query, ..old(self).search },
                ..*old(self)
            }),
    {
        let mut out: Vec<usize> = Vec::new();
        let n = self.data.lists.len();
        let mut i: usize = 0;
        while i < n
            invariant
                0 <= i <= n,
                n == self.data.lists@.len(),
                out@ == matching_lists(self.data.lists@.take(i as int), self.ui.input.search@),
            decreases n - i,
        {
            assert(self.data.lists@.take(i + 1).drop_last() =~= self.data.lists@.take(i as int));
            match file_stem(self.data.lists[i].as_str()) {
                Some(stem) => {
                    if contains_ignore_case(stem.as_str(), self.ui.input.search.as_str()) {
                        out.push(i);
                    }
                },
                None => {},
            }
            i = i + 1;
        }
        assert(self.data.lists@.take(n as int) =~= self.data.lists@);
        self.search.lists_query = out;
    }

    /// Collects the items of the open list whose title contains the search
    /// text.
    pub fn search_items(&mut self)
        ensures
            final(self).search.items_query@ == matching_items(
                old(self).items_spec(),
                old(self).ui.input.search@,
            ),
            *final(self) == (App {
                search: Search { items_query: final(self).search.items_query, ..old(self).search },
                ..*old(self)
            }),
    {
        let items = self.get_current_list_items();
        let mut out: Vec<usize> = Vec::new();
        let n = items.len();
        let mut i: usize = 0;
        while i < n
            invariant
                0 <= i <= n,
                n == items@.len(),
                out@ == matching_items(items@.take(i as int), self.ui.input.search@),
            decreases n - i,
        {
            assert(items@.take(i + 1).drop_last() =~= items@.take(i as int));
            if contains_ignore_case(items[i].item.as_str(), self.ui.input.search.as_str()) {
                out.push(i);
            }
            i = i + 1;
        }
        assert(items@.take(n as int) =~= items@);
        self.search.items_query = out;
    }

    /// While searching, makes the highlighted search result the open list
    /// (or remembers the highlighted item) so that it is kept when the
    /// search ends.
    pub fn update_selected_list_from_search(&mut self)
        requires
            old(self).follow_search_defined(),
        ensures
            *final(self) == old(self).follow_search_spec(),
    {
        if self.navigation.view == crate::navigation::View::Lists && self.ui.input.active
            == InputActive::Search && self.search_text_present() {
            if let Some(si) = self.ui.lists.selected {
                if si < self.search.lists_query.len() {
                    let ri = self.search.lists_query[si];
                    self.commands.selected_list = ri;
                    if ri < self.data.lists.len() {
                        self.navigation.current_list_path = Some(self.data.lists[ri].clone());
                    }
                    self.search.saved_list_selection = Some(ri);
                }
            }
        }
        if self.navigation.view == crate::navigation::View::Items && self.ui.input.active
            == InputActive::Search && self.search_text_present() {
            let selected_index = self.scroll.index_in_list();
            if selected_index < self.search.items_query.len() {
                self.search.saved_item_selection = Some(self.search.items_query[selected_index]);
            }
        }
    }
}


/// The row before `sel` (the last row when none is highlighted), as a
/// list widget computes it.
pub open spec fn previous_row(sel: Option<usize>) -> usize {
    match sel {
        Some(i) => if i > 0 {
            (i - 1) as usize
        } else {
            0
        },
        None => usize::MAX,
    }
}

/// The row after `sel` (the first when none is highlighted).
pub open spec fn next_row(sel: Option<usize>) -> usize {
    match sel {
        Some(i) => if i < usize::MAX {
            (i + 1) as usize
        } else {
            usize::MAX
        },
        None => 0,
    }
}

impl App {
    pub open spec fn with_lists_selection(self, sel: ListSelection) -> App {
        App { ui: UiState { lists: sel, ..self.ui }, ..self }
    }

    pub open spec fn with_scroll(self, sc: Scroll) -> App {
        App { scroll: sc, ..self }
    }

    /// After moving in the lists panel: follow the search results, and
    /// reopen the list now highlighted.
    pub open spec fn after_move_spec(self) -> App {
        let s = self.follow_search_spec();
        if self.navigation.view == crate::navigation::View::Lists {
            s.reload_spec()
        } else {
            s
        }
    }

    pub open spec fn is_items_view(self) -> bool {
        self.navigation.view == crate::navigation::View::Items
    }

    pub open spec fn move_up_spec(self) -> App {
        if self.is_items_view() {
            self.with_scroll(self.scroll.move_up_spec()).after_move_spec()
        } else {
            self.with_lists_selection(
                self.ui.lists.select_spec(Some(previous_row(self.ui.lists.selected))),
            ).after_move_spec()
        }
    }

    pub open spec fn move_down_spec(self) -> App {
        if self.is_items_view() {
            self.with_scroll(self.scroll.move_down_spec()).after_move_spec()
        } else {
            self.with_lists_selection(
                self.ui.lists.select_spec(Some(next_row(self.ui.lists.selected))),
            ).after_move_spec()
        }
    }

    pub open spec fn first_item_spec(self) -> App {
        if self.is_items_view() {
            self.with_scroll(self.scroll.select_first_spec()).after_move_spec()
        } else {
            self.with_lists_selection(self.ui.lists.select_spec(Some(0usize))).after_move_spec()
        }
    }

    pub open spec fn last_item_spec(self) -> App {
        let len = self.data.lists@.len();
        if len == 0 {
            self
        } else if self.is_items_view() {
            self.with_scroll(self.scroll.select_last_spec()).after_move_spec()
        } else {
            self.with_lists_selection(self.ui.lists.select_spec(Some((len - 1) as usize))).after_move_spec()
        }
    }

    /// The state after jumping, given the row `r` drawn for the lists panel
    /// and the item `t` drawn for the items panel.
    pub open spec fn random_spec(self, r: usize, t: usize) -> App {
        if self.data.lists@.len() == 0 {
            self
        } else if self.is_items_view() {
            let sc = if self.scroll.total == 0 {
                self.scroll
            } else {
                self.scroll.select_at_spec(t)
            };
            self.with_scroll(sc).after_move_spec()
        } else {
            self.with_lists_selection(self.ui.lists.select_spec(Some(r))).after_move_spec()
        }
    }

    /// Moving up in the items panel only lowers the highlighted position, so
    /// it can be computed whenever the position before could.
    pub open spec fn position_fits(self) -> bool {
        self.scroll.start + self.scroll.selected <= usize::MAX
    }

    /// Moves the highlight up in the focused panel.
    pub fn move_up(&mut self)
        requires
            old(self).position_fits(),
        ensures
            *final(self) == old(self).move_up_spec(),
    {
        match self.navigation.view {
            crate::navigation::View::Lists => self.ui.lists.select_previous(),
            crate::navigation::View::Items => self.scroll.move_up(),
        }
        self.update_selected_list_from_search();
        if self.navigation.view == crate::navigation::View::Lists {
            self.reload_data();
        }
    }

    /// Moves the highlight down in the focused panel.
    pub fn move_down(&mut self)
        requires
            old(self).is_items_view() ==> old(self).scroll.move_down_defined() && old(
                self,
            ).scroll.move_down_spec().start + old(self).scroll.move_down_spec().selected
                <= usize::MAX,
        ensures
            *final(self) == old(self).move_down_spec(),
    {
        match self.navigation.view {
            crate::navigation::View::Lists => self.ui.lists.select_next(),
            crate::navigation::View::Items => self.scroll.move_down(),
        }
        self.update_selected_list_from_search();
        if self.navigation.view == crate::navigation::View::Lists {
            self.reload_data();
        }
    }

    /// Highlights the first entry of the focused panel.
    pub fn go_to_first_item(&mut self)
        ensures
            *final(self) == old(self).first_item_spec(),
    {
        match self.navigation.view {
            crate::navigation::View::Lists => self.ui.lists.select_first(),
            crate::navigation::View::Items => self.scroll.select_first(),
        }
        self.update_selected_list_from_search();
        if self.navigation.view == crate::navigation::View::Lists {
            self.reload_data();
        }
    }

    /// Highlights the last entry of the focused panel; nothing happens when
    /// there are no lists.
    pub fn go_to_last_item(&mut self)
        requires
            old(self).is_items_view() && old(self).data.lists@.len() > 0 ==> old(self).scroll.total
                >= old(self).scroll.visible && old(self).scroll.visible > 0,
        ensures
            *final(self) == old(self).last_item_spec(),
    {
        let len = self.data.lists.len();
        if len > 0 {
            match self.navigation.view {
                crate::navigation::View::Lists => self.ui.lists.select(Some(len - 1)),
                crate::navigation::View::Items => self.scroll.select_last(),
            }
            self.update_selected_list_from_search();
            if self.navigation.view == crate::navigation::View::Lists {
                self.reload_data();
            }
        }
    }

    /// Highlights a random entry of the focused panel; nothing happens when
    /// there are no lists.
    pub fn jump_to_random(&mut self)
        requires
            old(self).data.lists@.len() > 0 && old(self).scroll.total == 0 ==> old(
                self,
            ).follow_search_defined(),
        ensures
            old(self).data.lists@.len() > 0 ==> exists|r: usize, t: usize|
                r < old(self).data.lists@.len() && (t < old(self).scroll.total || old(
                    self,
                ).scroll.total == 0) && *final(self) == #[trigger] old(self).random_spec(r, t),
            old(self).data.lists@.len() == 0 ==> *final(self) == *old(self),
    {
        let len = self.data.lists.len();
        if len > 0 {
            let random_index = random_below(len);
            let ghost mut t: usize = 0;
            match self.navigation.view {
                crate::navigation::View::Lists => self.ui.lists.select(Some(random_index)),
                crate::navigation::View::Items => {
                    if self.scroll.total > 0 {
                        let target = random_below(self.scroll.total);
                        proof {
                            t = target;
                        }
                        assert(self.scroll.select_at_spec(target).index() <= target);
                        self.scroll.select_at(target);
                    }
                },
            }
            self.update_selected_list_from_search();
            if self.navigation.view == crate::navigation::View::Lists {
                self.reload_data();
            }
            assert(*self == old(self).random_spec(random_index, t));
        }
    }
}


impl App {
    /// The state after `open_list`: the items panel has the focus, the
    /// window knows how many items there are, and the list's commands are
    /// selected.
    pub open spec fn open_list_spec(self) -> App {
        App {
            navigation: Navigation { view: crate::navigation::View::Items, ..self.navigation },
            scroll: Scroll { total: self.items_spec().len() as usize, ..self.scroll },
            ..self
        }.load_commands_spec()
    }

    /// The state after `go_back` from the items panel.
    pub open spec fn go_back_spec(self) -> App {
        if !self.is_items_view() {
            self
        } else {
            App {
                scroll: Scroll { total: 0, ..self.scroll.select_first_spec() },
                navigation: Navigation { view: crate::navigation::View::Lists, ..self.navigation },
                ..self
            }.reload_spec()
        }
    }

    /// The state with the given search text and result vectors, and no
    /// saved selections: what `clear_search` leaves.
    pub open spec fn cleared(self, text: String, lq: Vec<usize>, iq: Vec<usize>) -> App {
        App {
            ui: UiState { input: Inputs { search: text, ..self.ui.input }, ..self.ui },
            search: Search {
                lists_query: lq,
                items_query: iq,
                saved_list_selection: None,
                saved_item_selection: None,
            },
            ..self
        }
    }

    pub open spec fn with_lists_query(self, lq: Vec<usize>) -> App {
        App { search: Search { lists_query: lq, ..self.search }, ..self }
    }

    pub open spec fn with_items_query(self, iq: Vec<usize>) -> App {
        App { search: Search { items_query: iq, ..self.search }, ..self }
    }

    /// The items of the open list without the favorites filter.
    pub open spec fn items_slice_spec(self) -> Seq<ListItem> {
        if self.navigation.list_view == ListsView::LocalLists {
            self.local_items_spec()
        } else {
            match self.navigation.current_list_path {
                Some(p) => match table_get(self.data.items_in_list@, p@) {
                    Some(v) => v@,
                    None => Seq::empty(),
                },
                None => Seq::empty(),
            }
        }
    }

    /// Focuses the items of the open list.
    pub fn open_list(&mut self)
        ensures
            *final(self) == old(self).open_list_spec(),
    {
        self.navigation.view = crate::navigation::View::Items;
        let items = self.get_current_list_items();
        self.scroll.total = items.len();
        self.load_current_commands();
    }

    /// Goes back from the items to the lists panel, resetting the window.
    pub fn go_back(&mut self)
        ensures
            *final(self) == old(self).go_back_spec(),
    {
        if self.navigation.view == crate::navigation::View::Lists {
            return;
        }
        self.scroll.select_first();
        self.scroll.total = 0;
        self.navigation.view = crate::navigation::View::Lists;
        self.reload_data();
    }

    /// In the items panel, selects the next command of the list.
    pub fn next_command(&mut self)
        requires
            old(self).is_items_view() ==> old(self).commands.current_range().0 <= old(
                self,
            ).commands.current_range().1,
            old(self).is_items_view() && old(self).commands.current_count() > 0 ==> old(
                self,
            ).commands.selected_command < usize::MAX,
        ensures
            *final(self) == (if old(self).is_items_view() {
                App {
                    commands: CommandLists {
                        selected_command: old(self).commands.next_index(),
                        ..old(self).commands
                    },
                    ..*old(self)
                }
            } else {
                *old(self)
            }),
    {
        if self.navigation.view != crate::navigation::View::Items {
            return;
        }
        self.commands.next_command();
    }

    /// In the items panel, selects the previous command of the list.
    pub fn prev_command(&mut self)
        requires
            old(self).is_items_view() ==> old(self).commands.current_range().0 <= old(
                self,
            ).commands.current_range().1,
        ensures
            *final(self) == (if old(self).is_items_view() {
                App {
                    commands: CommandLists {
                        selected_command: old(self).commands.prev_index(),
                        ..old(self).commands
                    },
                    ..*old(self)
                }
            } else {
                *old(self)
            }),
    {
        if self.navigation.view != crate::navigation::View::Items {
            return;
        }
        self.commands.prev_command();
    }

    /// Empties the search text and results and forgets the saved
    /// selections.
    pub fn clear_search(&mut self)
        ensures
            final(self).ui.input.search@.len() == 0,
            final(self).search.lists_query@.len() == 0,
            final(self).search.items_query@.len() == 0,
            *final(self) == old(self).cleared(
                final(self).ui.input.search,
                final(self).search.lists_query,
                final(self).search.items_query,
            ),
    {
        self.ui.input.search = String::new();
        self.search.lists_query.clear();
        self.search.items_query.clear();
        self.search.saved_list_selection = None;
        self.search.saved_item_selection = None;
    }

    /// The state after `start_search`, given the result vector of the
    /// focused panel.
    pub open spec fn start_search_spec(self, q: Vec<usize>) -> App {
        if self.is_items_view() {
            App {
                ui: UiState {
                    input: Inputs { active: InputActive::Search, ..self.ui.input },
                    ..self.ui
                },
                search: Search {
                    saved_item_selection: Some(self.scroll.index() as usize),
                    items_query: q,
                    ..self.search
                },
                scroll: self.scroll.select_first_spec(),
                ..self
            }
        } else {
            App {
                ui: UiState {
                    input: Inputs { active: InputActive::Search, ..self.ui.input },
                    lists: self.ui.lists.select_spec(Some(0usize)),
                    ..self.ui
                },
                search: Search {
                    saved_list_selection: self.ui.lists.selected,
                    lists_query: q,
                    ..self.search
                },
                ..self
            }
        }
    }

    /// Starts a search in the focused panel: remembers the highlighted
    /// entry, filters by the current text and highlights the first result.
    pub fn start_search(&mut self)
        requires
            old(self).is_items_view() ==> old(self).position_fits(),
        ensures
            old(self).is_items_view() ==> final(self).search.items_query@ == matching_items(
                old(self).items_spec(),
                old(self).ui.input.search@,
            ) && *final(self) == old(self).start_search_spec(final(self).search.items_query),
            !old(self).is_items_view() ==> final(self).search.lists_query@ == matching_lists(
                old(self).data.lists@,
                old(self).ui.input.search@,
            ) && *final(self) == old(self).start_search_spec(final(self).search.lists_query),
    {
        self.ui.input.active = InputActive::Search;
        match self.navigation.view {
            crate::navigation::View::Lists => {
                self.search.saved_list_selection = self.ui.lists.selected();
            },
            crate::navigation::View::Items => {
                self.search.saved_item_selection = Some(self.scroll.index_in_list());
            },
        }
        match self.navigation.view {
            crate::navigation::View::Lists => {
                self.search_lists();
                self.ui.lists.select_first();
            },
            crate::navigation::View::Items => {
                self.search_items();
                self.scroll.select_first();
            },
        }
    }

    /// The items of the open list, without the favorites filter.
    pub fn get_current_list_items_slice(&self) -> (r: &[ListItem])
        ensures
            r@ == self.items_slice_spec(),
    {
        if self.navigation.list_view == ListsView::LocalLists {
            return match self.local_path() {
                Some(p) => match table_lookup(&self.data.items_in_local_list, p) {
                    Some(v) => v.as_slice(),
                    None => &[],
                },
                None => &[],
            };
        }
        match &self.navigation.current_list_path {
            Some(p) => match table_lookup(&self.data.items_in_list, p) {
                Some(v) => v.as_slice(),
                None => &[],
            },
            None => &[],
        }
    }

    /// Whether an item of the open list has been downloaded: its sanitised
    /// title is among the files of the list's download folder.
    pub open spec fn downloaded_spec(self, item_name: Seq<char>) -> bool {
        match self.navigation.current_list_path {
            Some(p) => match table_get(self.data.downloaded_items@, p@) {
                Some(names) => names_contain(names@, sanitize_spec(item_name)),
                None => false,
            },
            None => false,
        }
    }

    /// Whether the item called `item_name` of the open list was downloaded.
    pub fn is_downloaded(&self, item_name: &str) -> (b: bool)
        ensures
            b == self.downloaded_spec(item_name@),
    {
        if let Some(path) = &self.navigation.current_list_path {
            if let Some(downloaded) = table_lookup(&self.data.downloaded_items, path) {
                let clean_filename = sanitize_filename(item_name);
                return contains_name(downloaded, &clean_filename);
            }
        }
        false
    }

    /// An item counts as downloaded exactly when a file of the open list's
    /// download folder carries its sanitised title, the name it is stored
    /// under; so two titles with the same sanitised form get the same
    /// answer, and a title gets the answer its sanitised form gets.
    pub proof fn lemma_downloaded_under_stored_name(self, title: Seq<char>, other: Seq<char>)
        ensures
            self.downloaded_spec(title) <==> (exists|names: Vec<String>, i: int|
                self.navigation.current_list_path is Some && table_get(
                    self.data.downloaded_items@,
                    self.navigation.current_list_path->0@,
                ) == Some(names) && 0 <= i < names@.len() && (#[trigger] names@[i])@
                    == sanitize_spec(title)),
            sanitize_spec(title) == sanitize_spec(other) ==> self.downloaded_spec(title)
                == self.downloaded_spec(other),
            self.downloaded_spec(title) == self.downloaded_spec(sanitize_spec(title)),
    {
        crate::text::lemma_sanitized_name_is_safe(title);
        if self.downloaded_spec(title) {
            let names = table_get(
                self.data.downloaded_items@,
                self.navigation.current_list_path->0@,
            )->0;
            let i = choose|i: int| 0 <= i < names@.len() && (#[trigger] names@[i])@ == sanitize_spec(
                title,
            );
            assert(names@[i]@ == sanitize_spec(title));
        }
    }

    /// Bytes downloaded for the open list, as measured when lists were
    /// loaded (0 when unknown).
    pub fn get_current_list_downloaded_size(&self) -> (r: u64)
        ensures
            r == match self.navigation.current_list_path {
                Some(p) => match table_get(self.data.list_downloaded_sizes@, p@) {
                    Some(n) => n,
                    None => 0u64,
                },
                None => 0u64,
            },
    {
        if let Some(path) = &self.navigation.current_list_path {
            return match table_lookup(&self.data.list_downloaded_sizes, path) {
                Some(n) => *n,
                None => 0,
            };
        }
        0
    }

    /// Records, for the open list, the bytes downloaded and the names of
    /// the downloaded files as measured again; without an open list nothing
    /// changes.
    pub fn refresh_current_list_size(&mut self, size: u64, downloaded: Vec<String>)
        ensures
            match old(self).navigation.current_list_path {
                Some(p) => *final(self) == (App {
                    data: AppData {
                        list_downloaded_sizes: final(self).data.list_downloaded_sizes,
                        downloaded_items: final(self).data.downloaded_items,
                        ..old(self).data
                    },
                    ..*old(self)
                }) && final(self).data.list_downloaded_sizes@ == table_insert(
                    old(self).data.list_downloaded_sizes@,
                    p,
                    size,
                ) && final(self).data.downloaded_items@ == table_insert(
                    old(self).data.downloaded_items@,
                    p,
                    downloaded,
                ),
                None => *final(self) == *old(self),
            },
    {
        if let Some(path) = &self.navigation.current_list_path {
            let key = path.clone();
            table_store(&mut self.data.list_downloaded_sizes, key.clone(), size);
            table_store(&mut self.data.downloaded_items, key, downloaded);
        }
    }
}


impl App {
    /// The state when a search ends and nothing is restored.
    pub open spec fn stop_search_base(self) -> App {
        App {
            ui: UiState { input: Inputs { active: InputActive::Idle, ..self.ui.input }, ..self.ui },
            scroll: Scroll { total: self.items_slice_spec().len() as usize, ..self.scroll },
            ..self
        }
    }

    /// What restoring the saved selection needs to run without fault.
    pub open spec fn restore_defined(self) -> bool {
        self.is_items_view() ==> match self.search.saved_item_selection {
            Some(saved) => self.scroll.restore_defined(saved),
            None => true,
        }
    }

    /// The state after restoring the saved selection, given the emptied
    /// search text and result vectors that clearing the search leaves.
    pub open spec fn restore_spec(self, text: String, lq: Vec<usize>, iq: Vec<usize>) -> App {
        if self.is_items_view() {
            match self.search.saved_item_selection {
                Some(saved) => {
                    let r = self.cleared(text, lq, iq).reload_spec();
                    r.with_scroll(r.scroll.restore_spec(saved))
                },
                None => self,
            }
        } else {
            match self.search.saved_list_selection {
                Some(saved) => self.cleared(text, lq, iq).with_lists_selection(
                    self.ui.lists.select_spec(Some(saved)),
                ).reload_spec(),
                None => self,
            }
        }
    }

    /// Whether `restore_selection` has anything to restore.
    pub open spec fn has_saved_selection(self) -> bool {
        if self.is_items_view() {
            self.search.saved_item_selection is Some
        } else {
            self.search.saved_list_selection is Some
        }
    }

    fn restore_selection(&mut self)
        requires
            old(self).restore_defined(),
        ensures
            old(self).has_saved_selection() ==> final(self).ui.input.search@.len() == 0
                && final(self).search.lists_query@.len() == 0
                && final(self).search.items_query@.len() == 0,
            *final(self) == old(self).restore_spec(
                final(self).ui.input.search,
                final(self).search.lists_query,
                final(self).search.items_query,
            ),
    {
        match self.navigation.view {
            crate::navigation::View::Lists => {
                if let Some(saved) = self.search.saved_list_selection {
                    self.clear_search();
                    self.ui.lists.select(Some(saved));
                    self.reload_data();
                }
            },
            crate::navigation::View::Items => {
                if let Some(saved) = self.search.saved_item_selection {
                    self.clear_search();
                    self.reload_data();
                    self.scroll.restore_index(saved);
                }
            },
        }
    }

    /// Ends the search: releases the keyboard, counts the items again and
    /// goes back to the entry highlighted when the search started, dropping
    /// the search text and results.
    pub fn stop_search(&mut self)
        requires
            old(self).stop_search_base().restore_defined(),
        ensures
            old(self).has_saved_selection() ==> final(self).ui.input.search@.len() == 0
                && final(self).search.lists_query@.len() == 0
                && final(self).search.items_query@.len() == 0,
            *final(self) == old(self).stop_search_base().restore_spec(
                final(self).ui.input.search,
                final(self).search.lists_query,
                final(self).search.items_query,
            ),
    {
        self.ui.input.active = InputActive::Idle;
        let n = self.get_current_list_items_slice().len();
        self.scroll.total = n;
        self.restore_selection();
    }

    /// Starting a search on the lists panel and ending it without moving
    /// highlights again the list that was highlighted before, reopens it
    /// when it is a list file, and drops the search: the text, the results
    /// and the saved selections.
    pub proof fn lemma_list_search_round_trip(
        self,
        q: Vec<usize>,
        text: String,
        lq: Vec<usize>,
        iq: Vec<usize>,
    )
        requires
            !self.is_items_view(),
            self.ui.lists.selected is Some,
        ensures
            ({
                let s = self.start_search_spec(q).stop_search_base().restore_spec(text, lq, iq);
                &&& s.ui.lists.selected == self.ui.lists.selected
                &&& s.ui.input.active == InputActive::Idle
                &&& s.ui.input.search == text
                &&& s.search == (Search {
                    lists_query: lq,
                    items_query: iq,
                    saved_list_selection: None,
                    saved_item_selection: None,
                })
                &&& s.navigation.current_list_path == match self.selected_json_spec() {
                    Some(p) => Some(p),
                    None => self.navigation.current_list_path,
                }
                &&& s.navigation.view == self.navigation.view
                &&& s.data == self.data
                &&& s.favorite == self.favorite
            }),
    {
    }

    /// While the search text filters the items panel and the highlight is on
    /// result row `k`, the selection kept for the end of the search is
    /// `items_query[k]`, the position in the whole list of the item that
    /// result stands for; ending the search then highlights that item.
    pub proof fn lemma_search_keeps_found_item(
        self,
        text: String,
        lq: Vec<usize>,
        iq: Vec<usize>,
    )
        requires
            self.navigation.view == crate::navigation::View::Items,
            self.ui.input.active == InputActive::Search,
            self.ui.input.search@.len() > 0,
            self.scroll.start + self.scroll.selected < self.search.items_query@.len(),
        ensures
            self.follow_search_spec().search.saved_item_selection == Some(
                self.search.items_query@[self.scroll.start + self.scroll.selected],
            ),
            self.follow_search_spec().stop_search_base().restore_defined() ==> self.follow_search_spec().stop_search_base().restore_spec(
                text,
                lq,
                iq,
            ).scroll.start + self.follow_search_spec().stop_search_base().restore_spec(
                text,
                lq,
                iq,
            ).scroll.selected == self.search.items_query@[self.scroll.start
                + self.scroll.selected],
    {
        let k = self.search.items_query@[self.scroll.start + self.scroll.selected];
        let s2 = self.follow_search_spec().stop_search_base();
        if s2.restore_defined() {
            let r = s2.cleared(text, lq, iq).reload_spec();
            crate::scroll::lemma_restore_highlights_saved(r.scroll, k);
        }
    }

    /// Starting a search on the items panel and ending it without moving
    /// highlights again the item that was highlighted before, and drops the
    /// search.
    pub proof fn lemma_item_search_round_trip(
        self,
        q: Vec<usize>,
        text: String,
        lq: Vec<usize>,
        iq: Vec<usize>,
    )
        requires
            self.is_items_view(),
            self.position_fits(),
            self.start_search_spec(q).stop_search_base().restore_defined(),
        ensures
            ({
                let s = self.start_search_spec(q).stop_search_base().restore_spec(text, lq, iq);
                &&& s.scroll.index() == self.scroll.index()
                &&& s.scroll.end == s.scroll.start + s.scroll.visible
                &&& s.ui.input.active == InputActive::Idle
                &&& s.ui.input.search == text
                &&& s.search.saved_item_selection is None
                &&& s.search.saved_list_selection is None
                &&& s.navigation.view == self.navigation.view
                &&& s.data == self.data
            }),
    {
        let s2 = self.start_search_spec(q).stop_search_base();
        let r = s2.cleared(text, lq, iq).reload_spec();
        crate::scroll::lemma_restore_highlights_saved(r.scroll, self.scroll.index() as usize);
    }

    /// The state after `update_search`, given the new result vector of the
    /// focused panel.
    pub open spec fn update_search_spec(self, q: Vec<usize>) -> App {
        if self.ui.input.active != InputActive::Search {
            self
        } else if self.is_items_view() {
            let s = self.with_items_query(q);
            s.with_scroll(s.scroll.select_first_spec()).follow_search_spec()
        } else {
            let s = self.with_lists_query(q);
            let s2 = s.with_lists_selection(s.ui.lists.select_spec(Some(0usize)));
            s2.with_scroll(s2.scroll.select_first_spec()).follow_search_spec().reload_spec()
        }
    }

    /// Filters again after the search text changed and highlights the first
    /// result.
    pub fn update_search(&mut self)
        ensures
            old(self).ui.input.active == InputActive::Search && old(self).is_items_view()
                ==> final(self).search.items_query@ == matching_items(
                old(self).items_spec(),
                old(self).ui.input.search@,
            ) && *final(self) == old(self).update_search_spec(final(self).search.items_query),
            old(self).ui.input.active == InputActive::Search && !old(self).is_items_view()
                ==> final(self).search.lists_query@ == matching_lists(
                old(self).data.lists@,
                old(self).ui.input.search@,
            ) && *final(self) == old(self).update_search_spec(final(self).search.lists_query),
            old(self).ui.input.active != InputActive::Search ==> *final(self) == *old(self),
    {
        if self.ui.input.active == InputActive::Search {
            match self.navigation.view {
                crate::navigation::View::Lists => {
                    self.search_lists();
                    self.ui.lists.select_first();
                    self.scroll.select_first();
                    self.update_selected_list_from_search();
                    self.reload_data();
                },
                crate::navigation::View::Items => {
                    self.search_items();
                    self.scroll.select_first();
                    self.update_selected_list_from_search();
                },
            }
        }
    }

    /// The favorite entry for the highlighted item of the open list.
    pub open spec fn highlighted_entry_is(self, e: FavoriteEntry) -> bool {
        &&& e.list@ == self.list_name_spec()
        &&& e.item == self.items_spec()[self.scroll.index()].item
        &&& e.url == self.items_spec()[self.scroll.index()].url
    }

    /// Marks the highlighted item of the open list as a favorite, or
    /// unmarks it when it is one.  Nothing happens in the lists panel or
    /// when the list shows no items.
    pub fn toggle_favorite(&mut self)
        requires
            old(self).is_items_view() && old(self).items_spec().len() > 0 ==> old(
                self,
            ).scroll.index() < old(self).items_spec().len(),
        ensures
            !old(self).is_items_view() || old(self).items_spec().len() == 0 ==> *final(self)
                == *old(self),
            old(self).is_items_view() && old(self).items_spec().len() > 0 ==> exists|e: FavoriteEntry|
                #[trigger] old(self).highlighted_entry_is(e) && final(self).favorite.list_favorites@
                    == toggled(old(self).favorite.list_favorites@, e) && *final(self) == (App {
                    favorite: Favorite {
                        list_favorites: final(self).favorite.list_favorites,
                        ..old(self).favorite
                    },
                    ..*old(self)
                }),
    {
        if self.navigation.view == crate::navigation::View::Lists {
            return;
        }
        let items = self.get_current_list_items();
        if items.len() == 0 {
            return;
        }
        let index = self.scroll.index_in_list();
        let entry = FavoriteEntry {
            list: self.current_list_name(),
            item: items[index].item.clone(),
            url: items[index].url.clone(),
        };
        assert(old(self).highlighted_entry_is(entry));
        self.favorite.toggle(entry);
    }

    /// Switches favorites mode, highlighting the first item when entering
    /// it.
    pub fn toggle_favorites_mode(&mut self)
        ensures
            *final(self) == (App {
                favorite: Favorite {
                    in_favorites: !old(self).favorite.in_favorites,
                    ..old(self).favorite
                },
                ui: UiState {
                    items_in_list: if old(self).favorite.in_favorites {
                        old(self).ui.items_in_list
                    } else {
                        old(self).ui.items_in_list.select_spec(Some(0usize))
                    },
                    ..old(self).ui
                },
                ..*old(self)
            }),
    {
        if !self.favorite.in_favorites {
            self.ui.items_in_list.select_first();
        }
        self.favorite.in_favorites = !self.favorite.in_favorites;
    }
}


impl App {
    /// A browser with the given configuration and nothing loaded yet.
    pub fn new(config: AppConfig) -> (r: App)
        ensures
            r.config == config,
            r.data.lists@.len() == 0,
            r.commands.lists@.len() == 0,
            r.favorite.list_favorites@.len() == 0,
            !r.favorite.in_favorites,
            r.navigation.view == crate::navigation::View::Lists,
            r.navigation.list_view == ListsView::Lists,
            r.navigation.current_list_path is None,
            r.navigation.current_local_list_path is None,
            !r.state.should_quit,
            r.ui.lists.selected is None,
            r.ui.input.active == InputActive::Idle,
            r.scroll == Scroll::default_spec(),
            r.search.lists_query@.len() == 0,
            r.search.items_query@.len() == 0,
    {
        App {
            commands: CommandLists::new(),
            config,
            data: AppData::new(),
            favorite: Favorite::new(),
            navigation: Navigation::new(),
            state: AppState { should_quit: false },
            ui: UiState::new(),
            scroll: Scroll::zero(),
            search: Search::new(),
        }
    }

    /// Takes the lists read from disk, sorts the list files, highlights the
    /// first one and opens it.
    pub fn init_lists(&mut self, data: AppData)
        ensures
            crate::order::sorted_by_text(final(self).data.lists@),
            final(self).data.lists@.to_multiset() == data.lists@.to_multiset(),
            final(self).data.items_in_list == data.items_in_list,
            final(self).data.list_downloaded_sizes == data.list_downloaded_sizes,
            final(self).data.downloaded_items == data.downloaded_items,
            final(self).data.local_lists == data.local_lists,
            final(self).data.items_in_local_list == data.items_in_local_list,
            final(self).data.local_list_downloaded_sizes == data.local_list_downloaded_sizes,
            final(self).ui.lists == old(self).ui.lists.select_spec(Some(0usize)),
            final(self).navigation.current_list_path == (if final(self).data.lists@.len() > 0 {
                Some(final(self).data.lists@[0])
            } else {
                old(self).navigation.current_list_path
            }),
            final(self).navigation.view == old(self).navigation.view,
            final(self).navigation.list_view == old(self).navigation.list_view,
            final(self).navigation.current_local_list_path == old(
                self,
            ).navigation.current_local_list_path,
            final(self).commands == old(self).commands,
            final(self).config == old(self).config,
            final(self).favorite == old(self).favorite,
            final(self).search == old(self).search,
            final(self).scroll == old(self).scroll,
            final(self).state == old(self).state,
            final(self).ui.input == old(self).ui.input,
            final(self).ui.items_in_list == old(self).ui.items_in_list,
            final(self).ui.popup == old(self).ui.popup,
    {
        let sorted = crate::order::sort_texts(&data.lists);
        self.data = data;
        self.data.lists = sorted;
        self.ui.lists.select_first();
        if self.data.lists.len() > 0 {
            let first = self.data.lists[0].clone();
            self.load_list(&first);
        }
    }

    /// Takes the command lists read from disk, builds the flat command
    /// sequence and selects the commands of the open list.
    pub fn init_command_lists(&mut self, lists: Vec<crate::commands::CommandList>)
        requires
            crate::commands::flatten(lists@).len() <= usize::MAX,
        ensures
            final(self).commands.lists == lists,
            final(self).commands.flat_ok(),
            final(self).commands.selected_list == selected_for(
                lists@,
                cut_at_spec(old(self).list_name_spec(), '('),
            ),
            final(self).commands.selected_command == 0,
            final(self).navigation == old(self).navigation,
            final(self).data == old(self).data,
            final(self).ui == old(self).ui,
    {
        self.commands.lists = lists;
        self.commands.build_flat_commands();
        self.load_current_commands();
    }

    /// Records where the favorites live and takes those read from there.
    pub fn init_favorites(&mut self, loaded: Option<Vec<FavoriteEntry>>)
        ensures
            final(self).favorite.favorites_path@ == crate::favorite::favorites_path_spec(
                old(self).config.base_dir@,
            ),
            final(self).favorite.list_favorites@ == (match loaded {
                Some(v) => v@,
                None => old(self).favorite.list_favorites@,
            }),
            final(self).favorite.in_favorites == old(self).favorite.in_favorites,
            final(self).navigation == old(self).navigation,
            final(self).data == old(self).data,
    {
        self.favorite.init_favorites(self.config.base_dir.as_str(), loaded);
    }
}

} // verus!
