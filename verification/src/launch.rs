use vstd::prelude::*;
use vstd::utf8::encode_utf8;
use crate::app::App;
use crate::data::ListItem;
use crate::navigation::ListsView;
use crate::paths::{file_stem, join, join_spec, path_file_stem};
use crate::text::{
    clean_all,
    clean_all_spec,
    append_str,
    owned,
    replace_all,
    replace_spec,
    sanitize_filename,
    sanitize_spec,
};
use crate::ui::ActivePopup;
use crate::urlcode::{percent_encode, url_encode};

verus! {

/// What fetching the highlighted item involves.
#[derive(Debug)]
pub enum DownloadStep {
    /// Nothing to fetch (lists panel, or no items).
    Nothing,
    /// The item is on disk already (a local folder): run the selected
    /// command on it.
    RunCommand,
    /// Fetch `url` into `destination` inside `download_dir`; when the
    /// destination exists already, run the selected command instead.
    Fetch { url: String, destination: String, download_dir: String, list_name: String },
}

/// The folder that holds what was downloaded for a list.
pub open spec fn download_dir_spec(base_dir: Seq<char>, list: Seq<char>) -> Seq<char> {
    join_spec(join_spec(base_dir, "downloads"@), list)
}

/// The cookies file that may come with a list.
pub open spec fn cookies_file_spec(base_dir: Seq<char>, list: Seq<char>) -> Seq<char> {
    join_spec(join_spec(join_spec(base_dir, "lists-configs"@), list), "cookies.txt"@)
}

/// The text appended to every command so that it runs detached and
/// silent.
pub open spec fn detach_suffix() -> Seq<char> {
    " >/dev/null 2>&1 &"@
}

/// The command line for a command template: `$EMUX` becomes the base
/// directory, then `$ITEM` the item's path, and the line is detached.
pub open spec fn command_line_of(template: Seq<char>, app_path: Seq<char>, item_path: Seq<char>) -> Seq<char> {
    replace_spec(replace_spec(template, "$EMUX"@, app_path), "$ITEM"@, item_path) + detach_suffix()
}

/// The image search page for a query.
pub open spec fn search_url_prefix() -> Seq<char> {
    "https://www.google.com/search?tbm=isch&q="@
}

/// The folder for a list's downloads: `<base_dir>/downloads/<list>`.
pub fn download_dir(base_dir: &str, list: &str) -> (r: String)
    ensures
        r@ == download_dir_spec(base_dir@, list@),
{
    let d = join(base_dir, "downloads");
    join(d.as_str(), list)
}

/// The name a list file's downloads are kept under: the stem of its file
/// name, or `unknown`.
pub open spec fn list_stem_or_unknown(list_path: Seq<char>) -> Seq<char> {
    match path_file_stem(list_path) {
        Some(s) => s,
        None => "unknown"@,
    }
}

/// The folder that holds what was downloaded for the list file at
/// `list_path`.
pub fn list_download_dir(base_dir: &str, list_path: &str) -> (r: String)
    ensures
        r@ == download_dir_spec(base_dir@, list_stem_or_unknown(list_path@)),
{
    let name = match file_stem(list_path) {
        Some(s) => s,
        None => owned("unknown"),
    };
    download_dir(base_dir, name.as_str())
}

/// What a planned step comes to once it is known whether the file to fetch
/// is on disk already: such a file is not fetched again, the selected
/// command runs on it instead; every other step stays as planned.
pub fn fetch_step(step: DownloadStep, destination_exists: bool) -> (r: DownloadStep)
    ensures
        step is Fetch && destination_exists ==> r is RunCommand,
        !(step is Fetch && destination_exists) ==> r == step,
{
    match step {
        DownloadStep::Fetch { .. } => {
            if destination_exists {
                DownloadStep::RunCommand
            } else {
                step
            }
        },
        _ => step,
    }
}

/// The cookies file a list may come with:
/// `<base_dir>/lists-configs/<list>/cookies.txt`.
pub fn cookies_file(list_name: &str, base_dir: &str) -> (r: String)
    ensures
        r@ == cookies_file_spec(base_dir@, list_name@),
{
    let a = join(base_dir, "lists-configs");
    let b = join(a.as_str(), list_name);
    join(b.as_str(), "cookies.txt")
}

/// The cookies file for a list when it exists (`exists` tells whether the
/// file at `cookies_file(list_name, base_dir)` is there).
pub fn get_cookies_path(list_name: &str, base_dir: &str, exists: bool) -> (r: Option<String>)
    ensures
        match r {
            Some(p) => exists && p@ == cookies_file_spec(base_dir@, list_name@),
            None => !exists,
        },
{
    if exists {
        Some(cookies_file(list_name, base_dir))
    } else {
        None
    }
}

/// The arguments of the `curl` call that fetches `url` into
/// `destination`, following redirects, with the cookies file if any.
pub fn download_args(url: &String, destination: &String, cookies: Option<String>) -> (r: Vec<String>)
    ensures
        r@.len() == if cookies is Some {
            6int
        } else {
            4int
        },
        r@[0]@ == "-L"@,
        r@[1]@ == "-o"@,
        r@[2] == *destination,
        r@[3] == *url,
        cookies matches Some(c) ==> r@[4]@ == "-b"@ && r@[5] == c,
{
    let mut v: Vec<String> = Vec::new();
    v.push(owned("-L"));
    v.push(owned("-o"));
    v.push(destination.clone());
    v.push(url.clone());
    if let Some(c) = cookies {
        v.push(owned("-b"));
        v.push(c);
    }
    v
}

impl App {
    /// The highlighted item of the open list.
    pub open spec fn highlighted_item(self) -> ListItem {
        self.items_spec()[self.scroll.index()]
    }

    /// The highlighted item can be read: the window position is on an item.
    pub open spec fn highlight_on_item(self) -> bool {
        self.scroll.start + self.scroll.selected < self.items_spec().len()
    }

    /// Where the highlighted item is on disk: its own path in a local
    /// folder, else its sanitised title in the list's download folder.
    pub open spec fn item_path_spec(self) -> Seq<char> {
        if self.navigation.list_view == ListsView::LocalLists {
            self.highlighted_item().url@
        } else {
            join_spec(
                download_dir_spec(self.config.base_dir@, self.list_name_spec()),
                sanitize_spec(self.highlighted_item().item@),
            )
        }
    }

    /// Whether `execute_command` builds a command line.
    pub open spec fn runs_command(self, download_done: bool) -> bool {
        &&& self.is_items_view()
        &&& self.items_spec().len() > 0
        &&& self.commands.current_count() > 0
        &&& !(self.ui.popup.active == ActivePopup::Downloading && !download_done)
    }

    /// The command line `execute_command` runs.
    pub open spec fn command_line_spec(self) -> Seq<char> {
        command_line_of(
            self.commands.lists@[self.commands.selected_list as int].commands@[self.commands.selected_command as int].command@,
            self.config.base_dir@,
            self.item_path_spec(),
        )
    }

    /// What `execute_command` needs to run without fault.
    pub open spec fn execute_defined(self, download_done: bool) -> bool {
        &&& self.is_items_view() && self.items_spec().len() > 0 ==> self.commands.current_range().0
            <= self.commands.current_range().1
        &&& self.runs_command(download_done) ==> {
            &&& self.highlight_on_item()
            &&& self.commands.selected_list < self.commands.lists@.len()
            &&& self.commands.selected_command
                < self.commands.lists@[self.commands.selected_list as int].commands@.len()
        }
    }

    fn highlighted(&self) -> (r: ListItem)
        requires
            self.highlight_on_item(),
        ensures
            r == self.highlighted_item(),
    {
        let items = self.get_current_list_items();
        assert(items@.len() == items.len());
        let i = self.scroll.index_in_list();
        items[i].copy()
    }

    fn item_path(&self, item: &ListItem) -> (r: String)
        requires
            self.highlight_on_item(),
            *item == self.highlighted_item(),
        ensures
            r@ == self.item_path_spec(),
    {
        if self.navigation.list_view == ListsView::LocalLists {
            item.url.clone()
        } else {
            let list = self.current_list_name();
            let dir = download_dir(self.config.base_dir.as_str(), list.as_str());
            let clean_title = sanitize_filename(item.item.as_str());
            join(dir.as_str(), clean_title.as_str())
        }
    }

    /// Builds the command line for the selected command on the highlighted
    /// item, and closes the popup.  `download_done` tells whether a running
    /// download has reached 100%; while the download popup shows an
    /// unfinished download, nothing is run.  `None` when nothing is to be
    /// run.
    pub fn execute_command(&mut self, download_done: bool) -> (r: Option<String>)
        requires
            old(self).execute_defined(download_done),
        ensures
            match r {
                Some(line) => old(self).runs_command(download_done) && line@
                    == old(self).command_line_spec() && *final(self) == (App {
                    ui: crate::ui::UiState {
                        popup: crate::ui::Popup { active: ActivePopup::Closed },
                        ..old(self).ui
                    },
                    ..*old(self)
                }),
                None => !old(self).runs_command(download_done) && *final(self) == *old(self),
            },
    {
        if self.navigation.view == crate::navigation::View::Lists
            || self.get_current_list_items_count() == 0 {
            return None;
        }
        let command_count = self.commands.get_current_list_commands_count();
        if command_count == 0 {
            return None;
        }
        if self.ui.popup.active == ActivePopup::Downloading && !download_done {
            return None;
        }
        let item = self.highlighted();
        let template = self.commands.lists[self.commands.selected_list].commands[self.commands.selected_command].command.clone();
        let app_path = self.config.base_dir.clone();
        let item_path = self.item_path(&item);
        proof {
            reveal_strlit("$EMUX");
            reveal_strlit("$ITEM");
        }
        let a = replace_all(template.as_str(), "$EMUX", app_path.as_str());
        let b = replace_all(a.as_str(), "$ITEM", item_path.as_str());
        let line = append_str(b.as_str(), " >/dev/null 2>&1 &");
        self.ui.popup.close();
        Some(line)
    }

    /// The download the highlighted item calls for.
    pub open spec fn download_step_is(self, s: DownloadStep) -> bool {
        if !self.is_items_view() || self.items_spec().len() == 0 {
            s is Nothing
        } else if self.navigation.list_view == ListsView::LocalLists {
            s is RunCommand
        } else {
            match s {
                DownloadStep::Fetch { url, destination, download_dir, list_name } => {
                    &&& url == self.highlighted_item().url
                    &&& list_name@ == self.list_name_spec()
                    &&& download_dir@ == download_dir_spec(self.config.base_dir@, list_name@)
                    &&& destination@ == self.item_path_spec()
                },
                _ => false,
            }
        }
    }

    /// Decides what fetching the highlighted item involves.
    pub fn download_item(&self) -> (r: DownloadStep)
        requires
            self.is_items_view() && self.items_spec().len() > 0
                && self.navigation.list_view != ListsView::LocalLists ==> self.highlight_on_item(),
        ensures
            self.download_step_is(r),
    {
        if self.navigation.view == crate::navigation::View::Lists
            || self.get_current_list_items_count() == 0 {
            return DownloadStep::Nothing;
        }
        if self.navigation.list_view == ListsView::LocalLists {
            return DownloadStep::RunCommand;
        }
        let item = self.highlighted();
        let list = self.current_list_name();
        let dir = download_dir(self.config.base_dir.as_str(), list.as_str());
        let destination = self.item_path(&item);
        DownloadStep::Fetch { url: item.url, destination, download_dir: dir, list_name: list }
    }

    /// Where the highlighted item is: in a local folder, the entry's own
    /// path (its url); otherwise its sanitised title inside
    /// `<base_dir>/downloads/<list name>`.  In a local folder the command
    /// line has that path for `$ITEM`.
    pub proof fn lemma_item_path_of_highlight(self)
        ensures
            self.navigation.list_view == ListsView::LocalLists ==> self.item_path_spec()
                == self.items_spec()[self.scroll.start + self.scroll.selected].url@,
            self.navigation.list_view != ListsView::LocalLists ==> self.item_path_spec()
                == join_spec(
                join_spec(join_spec(self.config.base_dir@, "downloads"@), self.list_name_spec()),
                sanitize_spec(self.items_spec()[self.scroll.start + self.scroll.selected].item@),
            ),
            self.navigation.list_view == ListsView::LocalLists ==> self.command_line_spec()
                == replace_spec(
                replace_spec(
                    self.commands.lists@[self.commands.selected_list as int].commands@[self.commands.selected_command as int].command@,
                    "$EMUX"@,
                    self.config.base_dir@,
                ),
                "$ITEM"@,
                self.items_spec()[self.scroll.start + self.scroll.selected].url@,
            ) + " >/dev/null 2>&1 &"@,
    {
    }

    /// What Enter on an item comes to: nothing on the lists panel or an
    /// empty list; in a local folder, running the selected command on the
    /// highlighted entry; otherwise fetching the highlighted item's url into
    /// its sanitised title inside the list's download folder.
    pub proof fn lemma_download_plan(self, s: DownloadStep)
        requires
            self.download_step_is(s),
        ensures
            self.navigation.view != crate::navigation::View::Items ==> s is Nothing,
            self.items_spec().len() == 0 ==> s is Nothing,
            self.navigation.view == crate::navigation::View::Items && self.items_spec().len() > 0
                && self.navigation.list_view == ListsView::LocalLists ==> s is RunCommand,
            self.navigation.view == crate::navigation::View::Items && self.items_spec().len() > 0
                && self.navigation.list_view != ListsView::LocalLists ==> s is Fetch && s->url
                == self.items_spec()[self.scroll.start + self.scroll.selected].url && s->destination@
                == join_spec(
                join_spec(join_spec(self.config.base_dir@, "downloads"@), self.list_name_spec()),
                sanitize_spec(self.items_spec()[self.scroll.start + self.scroll.selected].item@),
            ),
    {
    }

    /// Enter: focuses the items of the highlighted list while the lists
    /// panel has the focus; on the items panel, decides how to fetch the
    /// highlighted item and changes nothing.
    pub fn open_file(&mut self) -> (r: DownloadStep)
        requires
            old(self).is_items_view() && old(self).items_spec().len() > 0
                && old(self).navigation.list_view != ListsView::LocalLists ==> old(
                self,
            ).highlight_on_item(),
        ensures
            !old(self).is_items_view() ==> *final(self) == old(self).open_list_spec()
                && r is Nothing,
            old(self).is_items_view() ==> *final(self) == *old(self) && old(self).download_step_is(
                r,
            ),
    {
        if self.navigation.view == crate::navigation::View::Lists {
            self.open_list();
            return DownloadStep::Nothing;
        }
        self.download_item()
    }

    /// The image search URL for the highlighted item: its cleaned title and
    /// the cleaned list name, percent-encoded.
    pub open spec fn browser_url_spec(self) -> Seq<char> {
        search_url_prefix() + percent_encode(
            encode_utf8(
                clean_all_spec(self.highlighted_item().item@) + seq![' '] + clean_all_spec(
                    self.list_name_spec(),
                ),
            ),
        )
    }

    /// The image search to open for the highlighted item; `None` in the
    /// lists panel or when the list shows no items.
    pub fn open_browser_search(&self) -> (r: Option<String>)
        requires
            self.is_items_view() && self.items_spec().len() > 0 ==> self.highlight_on_item(),
        ensures
            match r {
                Some(u) => self.is_items_view() && self.items_spec().len() > 0 && u@
                    == self.browser_url_spec(),
                None => !self.is_items_view() || self.items_spec().len() == 0,
            },
    {
        if self.navigation.view == crate::navigation::View::Lists
            || self.get_current_list_items_count() == 0 {
            return None;
        }
        let item = self.highlighted();
        let list = self.current_list_name();
        let clean_title = clean_all(item.item.as_str());
        let clean_list = clean_all(list.as_str());
        proof {
            reveal_strlit(" ");
        }
        let with_space = append_str(clean_title.as_str(), " ");
        let query = append_str(with_space.as_str(), clean_list.as_str());
        assert(query@ =~= clean_all_spec(self.highlighted_item().item@) + seq![' '] + clean_all_spec(
            self.list_name_spec(),
        ));
        let encoded = url_encode(query.as_str());
        Some(append_str("https://www.google.com/search?tbm=isch&q=", encoded.as_str()))
    }
}

} // verus!
