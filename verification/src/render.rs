use vstd::prelude::*;
use crate::app::App;
use crate::data::{ListItem, table_get, table_lookup};
use crate::launch::download_dir;
use crate::launch::download_dir_spec;
use crate::navigation::ListsView;
use crate::paths::{extract_list_name, join, join_spec, list_name_spec};
use crate::text::{sanitize_filename, sanitize_spec};
use crate::ui::InputActive;

verus! {

/// The icon in front of an item row.
#[derive(Debug, Clone, Copy, PartialEq, Eq, Structural)]
pub enum RowIcon {
    Item,
    Downloaded,
    Favorite,
    FavoriteDownloaded,
}

/// The colours of an item row.
#[derive(Debug, Clone, Copy, PartialEq, Eq, Structural)]
pub enum RowStyle {
    Normal,
    Selected,
    Favorite,
    FavoriteSelected,
}

/// The unit a size is shown in.
#[derive(Debug, Clone, Copy, PartialEq, Eq, Structural)]
pub enum SizeUnit {
    Bytes,
    Kilobytes,
    Megabytes,
    Gigabytes,
}

/// The icon of the status bar.
#[derive(Debug, Clone, Copy, PartialEq, Eq, Structural)]
pub enum StatusIcon {
    Folder,
    List,
    Item,
}

/// A size to show, or where on disk to measure it.
#[derive(Debug)]
pub enum SizeQuery {
    /// Known already.
    Known(u64),
    /// The length of the regular file at this path (0 if it is not one).
    File(String),
    /// The length of whatever is at this path (0 if nothing is).
    Entry(String),
    /// The total size of the files under this folder (0 if it is missing).
    Folder(String),
    /// When this folder exists: the cached size if any, else its measured
    /// size; 0 when it does not exist.
    FolderIfExists(String, Option<u64>),
}

/// What a size query asks for, with paths as texts.
pub enum SizeModel {
    Known(u64),
    File(Seq<char>),
    Entry(Seq<char>),
    Folder(Seq<char>),
    FolderIfExists(Seq<char>, Option<u64>),
}

impl View for SizeQuery {
    type V = SizeModel;

    open spec fn view(&self) -> SizeModel {
        match self {
            SizeQuery::Known(n) => SizeModel::Known(*n),
            SizeQuery::File(p) => SizeModel::File(p@),
            SizeQuery::Entry(p) => SizeModel::Entry(p@),
            SizeQuery::Folder(p) => SizeModel::Folder(p@),
            SizeQuery::FolderIfExists(p, c) => SizeModel::FolderIfExists(p@, *c),
        }
    }
}

/// The icon of an item row: a heart for favorites, a disc for downloaded
/// items.
pub open spec fn row_icon_spec(is_favorite: bool, is_downloaded: bool) -> RowIcon {
    if is_favorite {
        if is_downloaded {
            RowIcon::FavoriteDownloaded
        } else {
            RowIcon::Favorite
        }
    } else if is_downloaded {
        RowIcon::Downloaded
    } else {
        RowIcon::Item
    }
}

/// The colours of an item row: highlighted only when selected while the
/// items panel has the focus.
pub open spec fn row_style_spec(selected: bool, is_favorite: bool, in_list: bool) -> RowStyle {
    if is_favorite {
        if selected && in_list {
            RowStyle::FavoriteSelected
        } else {
            RowStyle::Favorite
        }
    } else if selected && in_list {
        RowStyle::Selected
    } else {
        RowStyle::Normal
    }
}

/// Icon and colours of an item row.
pub fn item_row(selected: bool, is_favorite: bool, in_list: bool, is_downloaded: bool) -> (r: (
    RowIcon,
    RowStyle,
))
    ensures
        r.0 == row_icon_spec(is_favorite, is_downloaded),
        r.1 == row_style_spec(selected, is_favorite, in_list),
{
    match (selected, is_favorite, in_list, is_downloaded) {
        (true, true, true, false) => (RowIcon::Favorite, RowStyle::FavoriteSelected),
        (true, true, true, true) => (RowIcon::FavoriteDownloaded, RowStyle::FavoriteSelected),
        (_, true, _, false) => (RowIcon::Favorite, RowStyle::Favorite),
        (_, true, _, true) => (RowIcon::FavoriteDownloaded, RowStyle::Favorite),
        (true, false, true, false) => (RowIcon::Item, RowStyle::Selected),
        (true, false, true, true) => (RowIcon::Downloaded, RowStyle::Selected),
        (_, _, _, true) => (RowIcon::Downloaded, RowStyle::Normal),
        (_, _, _, _) => (RowIcon::Item, RowStyle::Normal),
    }
}

/// The unit for a number of bytes: GB from 2^30, MB from 2^20, KB from
/// 2^10, else bytes.
pub open spec fn size_unit_spec(bytes: u64) -> SizeUnit {
    if bytes >= 0x4000_0000 {
        SizeUnit::Gigabytes
    } else if bytes >= 0x10_0000 {
        SizeUnit::Megabytes
    } else if bytes >= 1024 {
        SizeUnit::Kilobytes
    } else {
        SizeUnit::Bytes
    }
}

pub fn size_unit(bytes: u64) -> (r: SizeUnit)
    ensures
        r == size_unit_spec(bytes),
{
    if bytes >= 1024 * 1024 * 1024 {
        SizeUnit::Gigabytes
    } else if bytes >= 1024 * 1024 {
        SizeUnit::Megabytes
    } else if bytes >= 1024 {
        SizeUnit::Kilobytes
    } else {
        SizeUnit::Bytes
    }
}

/// The status bar icon: a folder for local folders, else the focused panel.
pub fn status_icon(list_view: ListsView, view: crate::navigation::View) -> (r: StatusIcon)
    ensures
        list_view == ListsView::LocalLists ==> r == StatusIcon::Folder,
        list_view != ListsView::LocalLists && view == crate::navigation::View::Lists ==> r
            == StatusIcon::List,
        list_view != ListsView::LocalLists && view == crate::navigation::View::Items ==> r
            == StatusIcon::Item,
{
    if list_view == ListsView::LocalLists {
        StatusIcon::Folder
    } else {
        match view {
            crate::navigation::View::Lists => StatusIcon::List,
            crate::navigation::View::Items => StatusIcon::Item,
        }
    }
}

/// One command of the selected list as a tab: the selected one shows its
/// name, the others their number from 1.
#[derive(Debug)]
pub struct CommandTab {
    pub selected: bool,
    pub name: Option<String>,
    pub number: usize,
}

impl App {
    /// The search text filters the panel `view`.
    pub open spec fn filtering(self, view: crate::navigation::View) -> bool {
        self.ui.input.active == InputActive::Search && self.ui.input.search@.len() > 0
            && self.navigation.view == view
    }

    /// The position in the open list of the highlighted row: through the
    /// search results while searching, `None` when that position is out of
    /// the results.
    pub open spec fn highlighted_position(self) -> Option<int> {
        if self.ui.input.active == InputActive::Search {
            if self.scroll.index() < self.search.items_query@.len() {
                Some(self.search.items_query@[self.scroll.index()] as int)
            } else {
                None
            }
        } else {
            Some(self.scroll.index())
        }
    }

    fn highlighted_position_exec(&self) -> (r: Option<usize>)
        requires
            self.scroll.start + self.scroll.selected <= usize::MAX,
        ensures
            match r {
                Some(i) => self.highlighted_position() == Some(i as int),
                None => self.highlighted_position() is None,
            },
    {
        let selected = self.scroll.index_in_list();
        if self.ui.input.active == InputActive::Search {
            if selected < self.search.items_query.len() {
                Some(self.search.items_query[selected])
            } else {
                None
            }
        } else {
            Some(selected)
        }
    }

    /// The item the highlighted row stands for, if any.
    pub open spec fn row_item(self) -> Option<ListItem> {
        match self.highlighted_position() {
            Some(i) => if 0 <= i < self.items_spec().len() {
                Some(self.items_spec()[i])
            } else {
                None
            },
            None => None,
        }
    }

    fn row_item_exec(&self) -> (r: Option<ListItem>)
        requires
            self.scroll.start + self.scroll.selected <= usize::MAX,
        ensures
            r == self.row_item(),
    {
        match self.highlighted_position_exec() {
            Some(i) => {
                let items = self.get_current_list_items();
                if i < items.len() {
                    Some(items[i].copy())
                } else {
                    None
                }
            },
            None => None,
        }
    }

    /// The size query for the highlighted item's download.
    pub open spec fn item_download_size_spec(self) -> SizeModel {
        match self.row_item() {
            Some(item) => SizeModel::File(
                join_spec(
                    download_dir_spec(self.config.base_dir@, self.list_name_spec()),
                    sanitize_spec(item.item@),
                ),
            ),
            None => SizeModel::Known(0),
        }
    }

    /// The size query for the highlighted entry of a local folder.
    pub open spec fn local_item_size_spec(self) -> SizeModel {
        match self.row_item() {
            Some(item) => if item.url@.len() == 0 {
                match self.navigation.current_local_list_path {
                    Some(p) => SizeModel::FolderIfExists(
                        join_spec(p@, item.item@),
                        table_get(
                            self.data.local_list_downloaded_sizes@,
                            join_spec(p@, item.item@),
                        ),
                    ),
                    None => SizeModel::Known(0),
                }
            } else {
                SizeModel::Entry(item.url@)
            },
            None => SizeModel::Known(0),
        }
    }

    /// The size query for the open local folder.
    pub open spec fn local_folder_size_spec(self) -> SizeModel {
        match self.navigation.current_local_list_path {
            Some(p) => match table_get(self.data.local_list_downloaded_sizes@, p@) {
                Some(n) => SizeModel::Known(n),
                None => SizeModel::Folder(p@),
            },
            None => if self.lists_row() < self.data.local_lists@.len() {
                match table_get(
                    self.data.local_list_downloaded_sizes@,
                    self.data.local_lists@[self.lists_row()]@,
                ) {
                    Some(n) => SizeModel::Known(n),
                    None => SizeModel::Known(0),
                }
            } else {
                SizeModel::Known(0)
            },
        }
    }

    /// What to measure for the downloaded size of the highlighted item: the
    /// file named after its sanitised title in the list's download folder.
    pub fn get_current_item_downloaded_size(&self) -> (r: SizeQuery)
        requires
            self.scroll.start + self.scroll.selected <= usize::MAX,
        ensures
            r@ == self.item_download_size_spec(),
    {
        match self.row_item_exec() {
            Some(item) => {
                let list = self.current_list_name();
                let dir = download_dir(self.config.base_dir.as_str(), list.as_str());
                let clean = sanitize_filename(item.item.as_str());
                SizeQuery::File(join(dir.as_str(), clean.as_str()))
            },
            None => SizeQuery::Known(0),
        }
    }

    /// What to measure for the size of the highlighted entry of a local
    /// folder: a file's length, or a subfolder's size (cached when known).
    pub fn get_current_local_item_size(&self) -> (r: SizeQuery)
        requires
            self.scroll.start + self.scroll.selected <= usize::MAX,
        ensures
            r@ == self.local_item_size_spec(),
    {
        match self.row_item_exec() {
            Some(item) => {
                if item.url.as_str().is_empty() {
                    match &self.navigation.current_local_list_path {
                        Some(p) => {
                            let folder = join(p.as_str(), item.item.as_str());
                            let cached = match table_lookup(
                                &self.data.local_list_downloaded_sizes,
                                &folder,
                            ) {
                                Some(n) => Some(*n),
                                None => None,
                            };
                            SizeQuery::FolderIfExists(folder, cached)
                        },
                        None => SizeQuery::Known(0),
                    }
                } else {
                    SizeQuery::Entry(item.url)
                }
            },
            None => SizeQuery::Known(0),
        }
    }

    /// What to show for the size of the open local folder: its cached size,
    /// or a measurement when it was not cached.
    pub fn get_current_local_folder_size(&self) -> (r: SizeQuery)
        ensures
            r@ == self.local_folder_size_spec(),
    {
        match &self.navigation.current_local_list_path {
            Some(p) => match table_lookup(&self.data.local_list_downloaded_sizes, p) {
                Some(n) => SizeQuery::Known(*n),
                None => SizeQuery::Folder(p.clone()),
            },
            None => {
                let selected = match self.ui.lists.selected {
                    Some(i) => i,
                    None => 0,
                };
                if selected < self.data.local_lists.len() {
                    match table_lookup(
                        &self.data.local_list_downloaded_sizes,
                        &self.data.local_lists[selected],
                    ) {
                        Some(n) => SizeQuery::Known(*n),
                        None => SizeQuery::Known(0),
                    }
                } else {
                    SizeQuery::Known(0)
                }
            },
        }
    }

    /// The size the status bar shows: for local folders the highlighted
    /// entry or the folder, else the highlighted item or the open list.
    pub fn status_size(&self) -> (r: SizeQuery)
        requires
            self.scroll.start + self.scroll.selected <= usize::MAX,
        ensures
            self.navigation.list_view == ListsView::LocalLists && self.is_items_view() ==> r@
                == self.local_item_size_spec(),
            self.navigation.list_view == ListsView::LocalLists && !self.is_items_view() ==> r@
                == self.local_folder_size_spec(),
            self.navigation.list_view != ListsView::LocalLists && self.is_items_view() ==> r@
                == self.item_download_size_spec(),
            self.navigation.list_view != ListsView::LocalLists && !self.is_items_view() ==> r@
                == SizeModel::Known(
                match self.navigation.current_list_path {
                    Some(p) => match table_get(self.data.list_downloaded_sizes@, p@) {
                        Some(n) => n,
                        None => 0u64,
                    },
                    None => 0u64,
                },
            ),
    {
        if self.navigation.list_view == ListsView::LocalLists {
            if self.navigation.view == crate::navigation::View::Items {
                self.get_current_local_item_size()
            } else {
                self.get_current_local_folder_size()
            }
        } else {
            match self.navigation.view {
                crate::navigation::View::Lists => SizeQuery::Known(
                    self.get_current_list_downloaded_size(),
                ),
                crate::navigation::View::Items => self.get_current_item_downloaded_size(),
            }
        }
    }

    /// The number of rows the items panel shows.
    pub open spec fn items_total(self) -> int {
        if self.filtering(crate::navigation::View::Items) {
            self.search.items_query@.len() as int
        } else {
            self.items_spec().len() as int
        }
    }

    /// Fits the window to a panel `height` rows high and returns the range
    /// of rows to draw.
    pub fn prepare_items_view(&mut self, height: usize) -> (r: (usize, usize))
        requires
            height == 0 ==> old(self).scroll.selected == 0,
        ensures
            r.0 == old(self).scroll.start,
            r.1 == if old(self).scroll.end < old(self).items_total() {
                old(self).scroll.end as int
            } else {
                old(self).items_total()
            },
            final(self).scroll.visible == height,
            final(self).scroll.end == if old(self).scroll.end == 0 {
                height
            } else {
                old(self).scroll.end
            },
            final(self).scroll.selected == if old(self).scroll.selected > height {
                (height - 1) as usize
            } else {
                old(self).scroll.selected
            },
            final(self).scroll.start == old(self).scroll.start,
            final(self).scroll.total == old(self).scroll.total,
            *final(self) == (App { scroll: final(self).scroll, ..*old(self) }),
    {
        let total = if self.ui.input.active == InputActive::Search
            && !self.ui.input.search.as_str().is_empty() && self.navigation.view
            == crate::navigation::View::Items {
            self.search.items_query.len()
        } else {
            self.get_current_list_items().len()
        };
        let start = self.scroll.start;
        let end = if self.scroll.end < total {
            self.scroll.end
        } else {
            total
        };
        self.scroll.visible = height;
        if self.scroll.end == 0 {
            self.scroll.end = self.scroll.visible;
        }
        if self.scroll.selected > self.scroll.visible {
            self.scroll.selected = self.scroll.visible - 1;
        }
        (start, end)
    }

    /// The positions in the open list of the rows `start..end` of the items
    /// panel: through the search results while the search text filters the
    /// panel, else the rows themselves.
    pub fn items_rows(&self, start: usize, end: usize) -> (r: Vec<usize>)
        requires
            start <= end <= self.items_total(),
        ensures
            r@.len() == end - start,
            forall|i: int|
                0 <= i < r@.len() ==> #[trigger] r@[i] == if self.filtering(
                    crate::navigation::View::Items,
                ) {
                    self.search.items_query@[start + i] as int
                } else {
                    start + i
                },
    {
        let searching = self.ui.input.active == InputActive::Search
            && !self.ui.input.search.as_str().is_empty() && self.navigation.view
            == crate::navigation::View::Items;
        proof {
            if !searching {
                assert(self.items_total() == self.items_spec().len());
            }
        }
        let mut r: Vec<usize> = Vec::new();
        let mut k: usize = start;
        while k < end
            invariant
                start <= k <= end,
                end <= self.items_total(),
                searching == self.filtering(crate::navigation::View::Items),
                r@.len() == k - start,
                forall|i: int|
                    0 <= i < r@.len() ==> #[trigger] r@[i] == if searching {
                        self.search.items_query@[start + i] as int
                    } else {
                        start + i
                    },
            decreases end - k,
        {
            if searching {
                r.push(self.search.items_query[k]);
            } else {
                r.push(k);
            }
            k = k + 1;
        }
        r
    }

    /// The names the lists panel shows: of the search results while
    /// searching the lists, else of all list files.
    pub open spec fn shown_names_spec(self) -> Seq<Seq<char>> {
        if self.filtering(crate::navigation::View::Lists) {
            Seq::new(
                self.search.lists_query@.len(),
                |i: int| list_name_spec(self.data.lists@[self.search.lists_query@[i] as int]@),
            )
        } else {
            Seq::new(self.data.lists@.len(), |i: int| list_name_spec(self.data.lists@[i]@))
        }
    }

    /// The names shown in the lists panel.
    pub fn shown_list_names(&self) -> (r: Vec<String>)
        requires
            self.filtering(crate::navigation::View::Lists) ==> forall|i: int|
                0 <= i < self.search.lists_query@.len() ==> #[trigger] self.search.lists_query@[i]
                    < self.data.lists@.len(),
        ensures
            r@.len() == self.shown_names_spec().len(),
            forall|i: int| 0 <= i < r@.len() ==> (#[trigger] r@[i])@ == self.shown_names_spec()[i],
    {
        let mut out: Vec<String> = Vec::new();
        if self.ui.input.active == InputActive::Search && !self.ui.input.search.as_str().is_empty()
            && self.navigation.view == crate::navigation::View::Lists {
            let n = self.search.lists_query.len();
            let mut i: usize = 0;
            while i < n
                invariant
                    0 <= i <= n,
                    n == self.search.lists_query@.len(),
                    self.filtering(crate::navigation::View::Lists),
                    forall|k: int|
                        0 <= k < n ==> #[trigger] self.search.lists_query@[k] < self.data.lists@.len(),
                    out@.len() == i,
                    forall|k: int| 0 <= k < i ==> (#[trigger] out@[k])@ == self.shown_names_spec()[k],
                decreases n - i,
            {
                let index = self.search.lists_query[i];
                out.push(extract_list_name(self.data.lists[index].as_str()));
                i = i + 1;
            }
        } else {
            let n = self.data.lists.len();
            let mut i: usize = 0;
            while i < n
                invariant
                    0 <= i <= n,
                    n == self.data.lists@.len(),
                    !self.filtering(crate::navigation::View::Lists),
                    out@.len() == i,
                    forall|k: int| 0 <= k < i ==> (#[trigger] out@[k])@ == self.shown_names_spec()[k],
                decreases n - i,
            {
                out.push(extract_list_name(self.data.lists[i].as_str()));
                i = i + 1;
            }
        }
        out
    }

    /// The tabs of the selected command list.
    pub fn command_tabs(&self) -> (r: Vec<CommandTab>)
        ensures
            self.commands.selected_list >= self.commands.lists@.len() ==> r@.len() == 0,
            self.commands.selected_list < self.commands.lists@.len() ==> {
                let cmds = self.commands.lists@[self.commands.selected_list as int].commands@;
                &&& r@.len() == cmds.len()
                &&& forall|i: int|
                    0 <= i < r@.len() ==> {
                        &&& (#[trigger] r@[i]).selected == (i == self.commands.selected_command)
                        &&& r@[i].number == i + 1
                        &&& r@[i].selected ==> r@[i].name == Some(cmds[i].name)
                        &&& !r@[i].selected ==> r@[i].name is None
                    }
            },
    {
        let mut out: Vec<CommandTab> = Vec::new();
        if self.commands.selected_list < self.commands.lists.len() {
            let cmds = &self.commands.lists[self.commands.selected_list].commands;
            let n = cmds.len();
            let mut i: usize = 0;
            while i < n
                invariant
                    0 <= i <= n,
                    n == cmds@.len(),
                    self.commands.selected_list < self.commands.lists@.len(),
                    *cmds == self.commands.lists@[self.commands.selected_list as int].commands,
                    out@.len() == i,
                    forall|k: int|
                        0 <= k < i ==> {
                            &&& (#[trigger] out@[k]).selected == (k == self.commands.selected_command)
                            &&& out@[k].number == k + 1
                            &&& out@[k].selected ==> out@[k].name == Some(cmds@[k].name)
                            &&& !out@[k].selected ==> out@[k].name is None
                        },
                decreases n - i,
            {
                let selected = i == self.commands.selected_command;
                let name = if selected {
                    Some(cmds[i].name.clone())
                } else {
                    None
                };
                out.push(CommandTab { selected, name, number: i + 1 });
                i = i + 1;
            }
        }
        out
    }
}

} // verus!
