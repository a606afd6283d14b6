use emux::app::App;
use emux::commands::{Command, CommandList};
use emux::config::AppConfig;
use emux::data::{table_store, AppData, ListItem};
use emux::launch::{
    cookies_file, download_args, download_dir, fetch_step, get_cookies_path, list_download_dir,
    DownloadStep,
};
use emux::navigation::{ListsView, View};
use emux::render::{SizeQuery};
use emux::ui::{ActivePopup, InputActive};

const NES: &str = "/b/lists/Nintendo - NES (Clean).json";
const SEGA: &str = "/b/lists/Sega - Genesis.json";
const README: &str = "/b/lists/readme.txt";

fn item(name: &str, url: &str) -> ListItem {
    ListItem::new(name.to_string(), url.to_string())
}

fn sample_app() -> App {
    let mut app = App::new(AppConfig::load("/b".to_string()));
    let mut data = AppData::new();
    data.lists = vec![SEGA.to_string(), NES.to_string(), README.to_string()];
    table_store(
        &mut data.items_in_list,
        NES.to_string(),
        vec![
            item("Super Mario Bros. (World).zip", "http://h/Super%20Mario.zip"),
            item("Zelda (USA).zip", "http://h/Zelda.zip"),
            item("Metroid.zip", "http://h/Metroid.zip"),
        ],
    );
    table_store(&mut data.items_in_list, SEGA.to_string(), vec![item("Sonic.zip", "http://h/s.zip")]);
    table_store(&mut data.downloaded_items, NES.to_string(), vec!["Zelda (USA).zip".to_string()]);
    table_store(&mut data.list_downloaded_sizes, NES.to_string(), 4096);
    app.init_lists(data);
    app.init_command_lists(vec![CommandList {
        list: "Nintendo - NES".to_string(),
        commands: vec![
            Command::new("Play".to_string(), "$EMUX/bin/nes \"$ITEM\"".to_string()),
            Command::new("Info".to_string(), "info $ITEM".to_string()),
        ],
    }]);
    app
}

fn open_items(app: &mut App) {
    app.open_list();
    app.prepare_items_view(10);
}

#[test]
fn init_sorts_lists_and_opens_the_first() {
    let app = sample_app();
    assert_eq!(app.data.lists, vec![NES.to_string(), SEGA.to_string(), README.to_string()]);
    assert_eq!(app.navigation.current_list_path, Some(NES.to_string()));
    assert_eq!(app.ui.lists.selected, Some(0));
    assert_eq!(app.current_list_name(), "Nintendo - NES (Clean)");
    assert_eq!(app.commands.selected_list, 0);
    assert_eq!(app.commands.selected_command, 0);
    assert_eq!(app.get_current_list_items_count(), 3);
}

#[test]
fn moving_in_the_lists_panel_opens_the_highlighted_json_list() {
    let mut app = sample_app();
    app.move_down();
    assert_eq!(app.ui.lists.selected, Some(1));
    assert_eq!(app.navigation.current_list_path, Some(SEGA.to_string()));
    assert_eq!(app.current_list_name(), "Sega - Genesis");
    app.move_down();
    assert_eq!(app.navigation.current_list_path, Some(SEGA.to_string()));
    app.move_up();
    app.move_up();
    assert_eq!(app.navigation.current_list_path, Some(NES.to_string()));
    app.go_to_last_item();
    assert_eq!(app.ui.lists.selected, Some(2));
    app.go_to_first_item();
    assert_eq!(app.ui.lists.selected, Some(0));
}

#[test]
fn search_over_lists_ignores_case_and_restores_selection() {
    let mut app = sample_app();
    app.ui.input.search = "NES".to_string();
    app.search_lists();
    assert_eq!(app.search.lists_query, vec![0, 1]);
    app.start_search();
    assert_eq!(app.ui.input.active, InputActive::Search);
    assert_eq!(app.search.saved_list_selection, Some(0));
    app.ui.input.search = "sega".to_string();
    app.update_search();
    assert_eq!(app.search.lists_query, vec![1]);
    assert_eq!(app.navigation.current_list_path, Some(SEGA.to_string()));
    assert_eq!(app.search.saved_list_selection, Some(1));
    app.stop_search();
    assert_eq!(app.ui.input.active, InputActive::Idle);
    assert_eq!(app.ui.input.search, "");
    assert!(app.search.lists_query.is_empty());
    assert_eq!(app.ui.lists.selected, Some(1));
    assert_eq!(app.navigation.current_list_path, Some(SEGA.to_string()));
}

#[test]
fn search_over_items() {
    let mut app = sample_app();
    open_items(&mut app);
    app.ui.input.search = "ZEL".to_string();
    app.search_items();
    assert_eq!(app.search.items_query, vec![1]);
    app.ui.input.search = "".to_string();
    app.search_items();
    assert_eq!(app.search.items_query, vec![0, 1, 2]);
}

#[test]
fn opening_a_list_counts_its_items() {
    let mut app = sample_app();
    open_items(&mut app);
    assert_eq!(app.navigation.view, View::Items);
    assert_eq!(app.scroll.total, 3);
    assert_eq!((app.scroll.visible, app.scroll.end), (10, 10));
    app.move_down();
    assert_eq!(app.scroll.index_in_list(), 1);
    app.go_back();
    assert_eq!(app.navigation.view, View::Lists);
    assert_eq!(app.scroll.total, 0);
    assert_eq!(app.scroll.index_in_list(), 0);
}

#[test]
fn favorites_mode_shows_only_favorites() {
    let mut app = sample_app();
    open_items(&mut app);
    app.move_down();
    app.move_down();
    app.toggle_favorite();
    assert!(app.favorite.is_favorite("Nintendo - NES (Clean)", "Metroid.zip"));
    app.toggle_favorites_mode();
    assert!(app.favorite.in_favorites);
    assert_eq!(app.ui.items_in_list.selected, Some(0));
    let items = app.get_current_list_items();
    assert_eq!(items.len(), 1);
    assert_eq!(items[0].item, "Metroid.zip");
    assert_eq!(app.get_current_list_items_slice().len(), 3);
    app.toggle_favorites_mode();
    assert_eq!(app.get_current_list_items_count(), 3);
    app.move_up();
    app.toggle_favorite();
    assert!(app.favorite.is_favorite("Nintendo - NES (Clean)", "Zelda (USA).zip"));
    app.move_down();
    app.toggle_favorite();
    assert!(!app.favorite.is_favorite("Nintendo - NES (Clean)", "Metroid.zip"));
}

#[test]
fn command_line_for_highlighted_item() {
    let mut app = sample_app();
    assert_eq!(app.execute_command(true), None);
    open_items(&mut app);
    app.move_down();
    let line = app.execute_command(false).unwrap();
    assert_eq!(
        line,
        "/b/bin/nes \"/b/downloads/Nintendo - NES (Clean)/Zelda (USA).zip\" >/dev/null 2>&1 &"
    );
    app.next_command();
    assert_eq!(app.commands.selected_command, 1);
    app.ui.popup.open(ActivePopup::Downloading);
    assert_eq!(app.execute_command(false), None);
    assert_eq!(app.ui.popup.active, ActivePopup::Downloading);
    let line = app.execute_command(true).unwrap();
    assert_eq!(line, "info /b/downloads/Nintendo - NES (Clean)/Zelda (USA).zip >/dev/null 2>&1 &");
    assert_eq!(app.ui.popup.active, ActivePopup::Closed);
    app.prev_command();
    assert_eq!(app.commands.selected_command, 0);
}

#[test]
fn commands_only_move_in_the_items_panel() {
    let mut app = sample_app();
    app.next_command();
    assert_eq!(app.commands.selected_command, 0);
}

#[test]
fn download_plan_for_highlighted_item() {
    let mut app = sample_app();
    assert!(matches!(app.download_item(), DownloadStep::Nothing));
    open_items(&mut app);
    app.move_down();
    match app.download_item() {
        DownloadStep::Fetch { url, destination, download_dir, list_name } => {
            assert_eq!(url, "http://h/Zelda.zip");
            assert_eq!(destination, "/b/downloads/Nintendo - NES (Clean)/Zelda (USA).zip");
            assert_eq!(download_dir, "/b/downloads/Nintendo - NES (Clean)");
            assert_eq!(list_name, "Nintendo - NES (Clean)");
        }
        _ => panic!("expected a fetch"),
    }
    app.navigation.list_view = ListsView::LocalLists;
    assert!(matches!(app.download_item(), DownloadStep::Nothing));
}

#[test]
fn download_helpers() {
    assert_eq!(download_dir("/b", "L"), "/b/downloads/L");
    assert_eq!(cookies_file("L", "/b"), "/b/lists-configs/L/cookies.txt");
    assert_eq!(get_cookies_path("L", "/b", true), Some("/b/lists-configs/L/cookies.txt".to_string()));
    assert_eq!(get_cookies_path("L", "/b", false), None);
    let args = download_args(&"u".to_string(), &"d".to_string(), Some("c".to_string()));
    assert_eq!(args, vec!["-L", "-o", "d", "u", "-b", "c"]);
    let args = download_args(&"u".to_string(), &"d".to_string(), None);
    assert_eq!(args, vec!["-L", "-o", "d", "u"]);
}

#[test]
fn browser_search_url_is_percent_encoded() {
    let mut app = sample_app();
    assert_eq!(app.open_browser_search(), None);
    open_items(&mut app);
    app.move_down();
    assert_eq!(
        app.open_browser_search().unwrap(),
        "https://www.google.com/search?tbm=isch&q=Zelda%20Nintendo%20-%20NES"
    );
    app.move_up();
    assert_eq!(
        app.open_browser_search().unwrap(),
        "https://www.google.com/search?tbm=isch&q=Super%20Mario%20Bros%20Nintendo%20-%20NES"
    );
}

#[test]
fn downloaded_items_and_sizes() {
    let mut app = sample_app();
    assert!(app.is_downloaded("Zelda (USA).zip"));
    assert!(!app.is_downloaded("Metroid.zip"));
    assert_eq!(app.get_current_list_downloaded_size(), 4096);
    assert!(matches!(app.status_size(), SizeQuery::Known(4096)));
    open_items(&mut app);
    app.move_down();
    match app.status_size() {
        SizeQuery::File(p) => {
            assert_eq!(p, "/b/downloads/Nintendo - NES (Clean)/Zelda (USA).zip")
        }
        _ => panic!("expected a file to measure"),
    }
}

#[test]
fn new_list_job() {
    let mut app = sample_app();
    assert!(app.create_list().is_none());
    app.ui.input.new_list_name = "Mine".to_string();
    assert!(app.create_list().is_none());
    app.ui.input.new_list_url = "-s http://h/".to_string();
    let job = app.create_list().unwrap();
    assert_eq!(job.input_name, "Mine");
    assert_eq!(job.curl_command, "curl -s http://h/");
    assert_eq!(job.output_path, "/b/lists/Mine.json");
}

#[test]
fn local_folders() {
    let mut app = sample_app();
    app.data.local_lists = vec!["/b/local/Roms".to_string()];
    table_store(
        &mut app.data.items_in_local_list,
        "/b/local/Roms".to_string(),
        vec![item("a.iso", "/b/local/Roms/a.iso"), item("sub", "")],
    );
    table_store(&mut app.data.local_list_downloaded_sizes, "/b/local/Roms".to_string(), 77);
    app.navigation.list_view = ListsView::LocalLists;
    assert_eq!(app.current_list_name(), "Roms");
    assert_eq!(app.current_local_list_name(), "Roms");
    assert_eq!(app.get_current_local_list_items_count(), 2);
    assert!(matches!(app.get_current_local_folder_size(), SizeQuery::Known(77)));
    app.navigation.current_local_list_path = Some("/b/local/..".to_string());
    assert_eq!(app.current_local_list_name(), "unknown");
    app.navigation.current_local_list_path = Some("/b/local/Games/".to_string());
    assert_eq!(app.current_local_list_name(), "Games");
    app.navigation.current_local_list_path = None;
    app.ui.lists.selected = Some(4);
    assert_eq!(app.current_local_list_name(), "unknown");
    assert_eq!(app.get_current_list_items_count(), 0);
}

#[test]
fn enter_opens_the_list_then_plans_the_download() {
    let mut app = sample_app();
    assert!(matches!(app.open_file(), DownloadStep::Nothing));
    assert_eq!(app.navigation.view, View::Items);
    app.prepare_items_view(10);
    app.move_down();
    match app.open_file() {
        DownloadStep::Fetch { url, destination, .. } => {
            assert_eq!(url, "http://h/Zelda.zip");
            assert_eq!(destination, "/b/downloads/Nintendo - NES (Clean)/Zelda (USA).zip");
        }
        _ => panic!("expected a fetch"),
    }
    assert_eq!(app.navigation.view, View::Items);
}

#[test]
fn refreshing_the_open_list_size() {
    let mut app = sample_app();
    app.refresh_current_list_size(8192, vec!["Metroid.zip".to_string()]);
    assert_eq!(app.get_current_list_downloaded_size(), 8192);
    assert!(app.is_downloaded("Metroid.zip"));
    assert!(!app.is_downloaded("Zelda (USA).zip"));
    let mut closed = App::new(AppConfig::load("/b".to_string()));
    closed.refresh_current_list_size(1, vec![]);
    assert_eq!(closed.get_current_list_downloaded_size(), 0);
    assert!(closed.data.list_downloaded_sizes.is_empty());
}

#[test]
fn search_started_and_stopped_keeps_the_highlighted_list() {
    let mut app = sample_app();
    app.move_down();
    assert_eq!(app.ui.lists.selected, Some(1));
    app.start_search();
    assert_eq!(app.ui.lists.selected, Some(0));
    app.stop_search();
    assert_eq!(app.ui.lists.selected, Some(1));
    assert_eq!(app.navigation.current_list_path, Some(SEGA.to_string()));
    assert_eq!(app.ui.input.active, InputActive::Idle);
    assert_eq!(app.search.saved_list_selection, None);
}

#[test]
fn search_started_and_stopped_keeps_the_highlighted_item() {
    let mut app = sample_app();
    open_items(&mut app);
    app.move_down();
    app.move_down();
    assert_eq!(app.scroll.index_in_list(), 2);
    app.start_search();
    assert_eq!(app.scroll.index_in_list(), 0);
    app.stop_search();
    assert_eq!(app.scroll.index_in_list(), 2);
    assert_eq!(app.scroll.end, app.scroll.start + app.scroll.visible);
    assert_eq!(app.search.saved_item_selection, None);
}

#[test]
fn a_file_on_disk_is_not_fetched_again() {
    let plan = DownloadStep::Fetch {
        url: "http://h/Zelda.zip".to_string(),
        destination: "/b/downloads/N/Zelda.zip".to_string(),
        download_dir: "/b/downloads/N".to_string(),
        list_name: "N".to_string(),
    };
    assert!(matches!(fetch_step(plan, true), DownloadStep::RunCommand));
    let plan = DownloadStep::Fetch {
        url: "http://h/Zelda.zip".to_string(),
        destination: "/b/downloads/N/Zelda.zip".to_string(),
        download_dir: "/b/downloads/N".to_string(),
        list_name: "N".to_string(),
    };
    match fetch_step(plan, false) {
        DownloadStep::Fetch { url, .. } => assert_eq!(url, "http://h/Zelda.zip"),
        _ => panic!("expected the fetch to stay"),
    }
    assert!(matches!(fetch_step(DownloadStep::Nothing, true), DownloadStep::Nothing));
    assert!(matches!(fetch_step(DownloadStep::RunCommand, false), DownloadStep::RunCommand));
}

#[test]
fn download_folder_of_a_list_file() {
    assert_eq!(list_download_dir("/b", NES), "/b/downloads/Nintendo - NES (Clean)");
    assert_eq!(list_download_dir("/b", "/b/lists/a.tar.json"), "/b/downloads/a.tar");
    assert_eq!(list_download_dir("/b", "/"), "/b/downloads/unknown");
}

#[test]
fn rows_of_the_items_panel() {
    let mut app = sample_app();
    open_items(&mut app);
    assert_eq!(app.items_rows(0, 3), vec![0, 1, 2]);
    assert_eq!(app.items_rows(1, 3), vec![1, 2]);
    app.ui.input.search = "o".to_string();
    app.start_search();
    assert_eq!(app.search.items_query, vec![0, 2]);
    assert_eq!(app.items_rows(0, 2), vec![0, 2]);
    app.ui.input.search = "zel".to_string();
    app.update_search();
    assert_eq!(app.search.items_query, vec![1]);
    assert_eq!(app.items_rows(0, 1), vec![1]);
    assert_eq!(app.items_rows(1, 1), Vec::<usize>::new());
}

#[test]
fn random_jump_on_a_window_with_no_rows() {
    let mut app = sample_app();
    open_items(&mut app);
    app.scroll.visible = 0;
    app.scroll.start = 0;
    app.scroll.end = 0;
    app.scroll.selected = 0;
    for _ in 0..20 {
        app.jump_to_random();
        assert!(app.scroll.index_in_list() < 3);
    }
}

#[test]
fn a_local_folder_not_read_yet_is_asked_for() {
    let mut app = sample_app();
    app.data.local_lists = vec!["/b/local/Roms".to_string(), "/b/local/Games".to_string()];
    table_store(&mut app.data.items_in_local_list, "/b/local/Roms/".to_string(), vec![]);
    app.navigation.list_view = ListsView::LocalLists;
    assert_eq!(app.local_folder_to_read(), None);
    app.ui.lists.selected = Some(1);
    assert_eq!(app.local_folder_to_read(), Some("/b/local/Games".to_string()));
    app.ui.lists.selected = Some(5);
    assert_eq!(app.local_folder_to_read(), None);
    app.navigation.current_local_list_path = Some("/b/other".to_string());
    assert_eq!(app.local_folder_to_read(), Some("/b/other".to_string()));
}

#[test]
fn nothing_to_run_from_the_lists_panel_whatever_the_ranges() {
    let mut app = sample_app();
    app.commands.list_ranges = vec![(5, 1)];
    assert_eq!(app.execute_command(true), None);
    let before = app.commands.selected_command;
    app.next_command();
    app.prev_command();
    assert_eq!(app.commands.selected_command, before);
}
