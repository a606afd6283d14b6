use emux::events::{key_action, Action, Key};
use emux::links::collect_links;
use emux::navigation::View;
use emux::order::{local_entry, sort_local_items, sort_texts};
use emux::render::{item_row, size_unit, status_icon, RowIcon, RowStyle, SizeUnit, StatusIcon};
use emux::navigation::ListsView;
use emux::ui::{ActivePopup, InputActive};

#[test]
fn keys_in_the_download_popup() {
    let p = ActivePopup::Downloading;
    assert_eq!(key_action(p, InputActive::Idle, Key::Esc), Action::ClosePopup);
    assert_eq!(key_action(p, InputActive::Idle, Key::Enter), Action::ExecuteCommand);
    assert_eq!(key_action(p, InputActive::Search, Key::Tab), Action::NextCommand);
    assert_eq!(key_action(p, InputActive::Idle, Key::BackTab), Action::PrevCommand);
    assert_eq!(key_action(p, InputActive::Idle, Key::Char('q')), Action::Nothing);
}

#[test]
fn keys_while_searching() {
    let p = ActivePopup::Closed;
    let s = InputActive::Search;
    assert_eq!(key_action(p, s, Key::Esc), Action::StopSearch);
    assert_eq!(key_action(p, s, Key::Enter), Action::StopSearch);
    assert_eq!(key_action(p, s, Key::Up), Action::MoveUp);
    assert_eq!(key_action(p, s, Key::Down), Action::MoveDown);
    assert_eq!(key_action(p, s, Key::Char('q')), Action::EditSearch);
    assert_eq!(key_action(p, s, Key::Backspace), Action::EditSearch);
}

#[test]
fn keys_while_browsing() {
    let p = ActivePopup::Closed;
    let i = InputActive::Idle;
    let table = [
        (Key::Up, Action::MoveUp),
        (Key::Down, Action::MoveDown),
        (Key::Right, Action::OpenList),
        (Key::Left, Action::GoBack),
        (Key::Enter, Action::OpenFile),
        (Key::Backspace, Action::GoBack),
        (Key::Tab, Action::NextCommand),
        (Key::BackTab, Action::PrevCommand),
        (Key::Char('/'), Action::StartSearch),
        (Key::Char('b'), Action::BrowserSearch),
        (Key::Char('F'), Action::ToggleFavoritesMode),
        (Key::Char('f'), Action::ToggleFavorite),
        (Key::Char('g'), Action::FirstItem),
        (Key::Char('G'), Action::LastItem),
        (Key::Char('x'), Action::RandomItem),
        (Key::Char('q'), Action::Quit),
        (Key::Char('z'), Action::Nothing),
        (Key::Esc, Action::Nothing),
    ];
    for (k, a) in table {
        assert_eq!(key_action(p, i, k), a);
    }
}

#[test]
fn item_rows() {
    assert_eq!(item_row(true, true, true, false), (RowIcon::Favorite, RowStyle::FavoriteSelected));
    assert_eq!(item_row(true, true, false, true), (RowIcon::FavoriteDownloaded, RowStyle::Favorite));
    assert_eq!(item_row(true, false, true, true), (RowIcon::Downloaded, RowStyle::Selected));
    assert_eq!(item_row(true, false, false, false), (RowIcon::Item, RowStyle::Normal));
    assert_eq!(item_row(false, false, true, true), (RowIcon::Downloaded, RowStyle::Normal));
}

#[test]
fn size_units() {
    assert_eq!(size_unit(0), SizeUnit::Bytes);
    assert_eq!(size_unit(1023), SizeUnit::Bytes);
    assert_eq!(size_unit(1024), SizeUnit::Kilobytes);
    assert_eq!(size_unit(1024 * 1024 - 1), SizeUnit::Kilobytes);
    assert_eq!(size_unit(1024 * 1024), SizeUnit::Megabytes);
    assert_eq!(size_unit(1024 * 1024 * 1024), SizeUnit::Gigabytes);
    assert_eq!(status_icon(ListsView::LocalLists, View::Items), StatusIcon::Folder);
    assert_eq!(status_icon(ListsView::Lists, View::Lists), StatusIcon::List);
    assert_eq!(status_icon(ListsView::Lists, View::Items), StatusIcon::Item);
}

#[test]
fn links_from_curl_output() {
    let out = "http://x/a%20b.zip\r\n\nhttp://x/readme.txt\nhttp://x/C.ISO";
    let scan = collect_links(out);
    let items: Vec<(String, String)> =
        scan.items.iter().map(|l| (l.item.clone(), l.url.clone())).collect();
    assert_eq!(
        items,
        vec![
            ("a b.zip".to_string(), "http://x/a%20b.zip".to_string()),
            ("C.ISO".to_string(), "http://x/C.ISO".to_string()),
        ]
    );
    let progress: Vec<(usize, usize, usize)> =
        scan.progress.iter().map(|p| (p.current, p.total, p.found)).collect();
    assert_eq!(progress, vec![(0, 4, 1), (2, 4, 1), (3, 4, 2)]);
}

#[test]
fn links_keep_undecodable_names() {
    let scan = collect_links("  http://x/%FF.7z  \n");
    assert_eq!(scan.items.len(), 1);
    assert_eq!(scan.items[0].item, "%FF.7z");
    assert_eq!(scan.items[0].url, "http://x/%FF.7z");
    assert!(collect_links("").items.is_empty());
    assert!(collect_links("").progress.is_empty());
    let plain = collect_links("game.rar");
    assert_eq!(plain.items[0].item, "game.rar");
}

#[test]
fn sorting_texts_and_local_entries() {
    let v = vec!["b".to_string(), "B".to_string(), "a".to_string(), "ab".to_string()];
    assert_eq!(sort_texts(&v), vec!["B", "a", "ab", "b"]);
    let entries = vec![
        local_entry("zeta".to_string(), "/l/zeta".to_string(), true),
        local_entry("Beta.iso".to_string(), "/l/Beta.iso".to_string(), false),
        local_entry("alpha".to_string(), "/l/alpha".to_string(), true),
        local_entry("alpha.iso".to_string(), "/l/alpha.iso".to_string(), false),
    ];
    let sorted = sort_local_items(&entries);
    let names: Vec<&str> = sorted.iter().map(|e| e.item.as_str()).collect();
    assert_eq!(names, vec!["alpha.iso", "Beta.iso", "alpha", "zeta"]);
    assert_eq!(sorted[2].url, "");
}

#[test]
fn local_entries_that_rank_the_same_keep_their_order() {
    let entries = vec![
        local_entry("ROM.iso".to_string(), "/l/ROM.iso".to_string(), false),
        local_entry("dir".to_string(), "/l/dir".to_string(), true),
        local_entry("rom.iso".to_string(), "/l/rom.iso".to_string(), false),
        local_entry("Rom.iso".to_string(), "/l/Rom.iso".to_string(), false),
    ];
    let sorted = sort_local_items(&entries);
    let names: Vec<&str> = sorted.iter().map(|e| e.item.as_str()).collect();
    assert_eq!(names, vec!["ROM.iso", "rom.iso", "Rom.iso", "dir"]);
}
