use emux::commands::{Command, CommandList, CommandLists};
use emux::config::AppConfig;
use emux::data::{contains_name, table_lookup, table_store};
use emux::favorite::{Favorite, FavoriteEntry};

fn cmd(name: &str) -> Command {
    Command::new(name.to_string(), format!("run-{name} $ITEM"))
}

fn lists() -> CommandLists {
    let mut c = CommandLists::new();
    c.lists = vec![
        CommandList { list: "A".to_string(), commands: vec![cmd("a1"), cmd("a2")] },
        CommandList { list: "B".to_string(), commands: vec![] },
        CommandList { list: "C".to_string(), commands: vec![cmd("c1"), cmd("c2"), cmd("c3")] },
    ];
    c.build_flat_commands();
    c
}

#[test]
fn flat_commands_and_ranges() {
    let c = lists();
    let names: Vec<&str> = c.commands.iter().map(|x| x.name.as_str()).collect();
    assert_eq!(names, vec!["a1", "a2", "c1", "c2", "c3"]);
    assert_eq!(c.list_ranges, vec![(0, 2), (2, 2), (2, 5)]);
}

#[test]
fn range_and_count_of_selected_list() {
    let mut c = lists();
    c.selected_list = 2;
    assert_eq!(c.get_current_list_range(), (2, 5));
    assert_eq!(c.get_current_list_commands_count(), 3);
    c.selected_list = 1;
    assert_eq!(c.get_current_list_commands_count(), 0);
    c.selected_list = 7;
    assert_eq!(c.get_current_list_range(), (0, 0));
    assert_eq!(c.get_current_list_commands_count(), 0);
}

#[test]
fn next_and_prev_command_cycle() {
    let mut c = lists();
    c.selected_list = 2;
    c.next_command();
    assert_eq!(c.selected_command, 1);
    c.next_command();
    c.next_command();
    assert_eq!(c.selected_command, 0);
    c.prev_command();
    assert_eq!(c.selected_command, 2);
    c.next_command();
    assert_eq!(c.selected_command, 0);
    c.selected_list = 1;
    c.next_command();
    assert_eq!(c.selected_command, 0);
}

#[test]
fn select_list_by_name() {
    let mut c = lists();
    c.selected_command = 2;
    c.select_list_named(&"C".to_string());
    assert_eq!((c.selected_list, c.selected_command), (2, 0));
    c.select_list_named(&"Z".to_string());
    assert_eq!(c.selected_list, 0);
}

fn entry(list: &str, item: &str) -> FavoriteEntry {
    FavoriteEntry { list: list.to_string(), item: item.to_string(), url: format!("u/{item}") }
}

#[test]
fn toggle_adds_then_removes() {
    let mut f = Favorite::new();
    f.list_favorites.push(entry("L", "x"));
    assert!(!f.is_favorite("L", "y"));
    f.toggle(entry("L", "y"));
    assert!(f.is_favorite("L", "y"));
    assert_eq!(f.list_favorites.len(), 2);
    f.toggle(entry("L", "y"));
    assert!(!f.is_favorite("L", "y"));
    assert_eq!(f.list_favorites.len(), 1);
    assert!(f.is_favorite("L", "x"));
    assert!(!f.is_favorite("M", "x"));
}

#[test]
fn toggle_removes_existing_entry_whatever_its_url() {
    let mut f = Favorite::new();
    f.list_favorites.push(entry("L", "x"));
    f.list_favorites.push(entry("L", "z"));
    f.toggle(FavoriteEntry { list: "L".into(), item: "x".into(), url: "other".into() });
    assert_eq!(f.list_favorites.len(), 1);
    assert_eq!(f.list_favorites[0].item, "z");
}

#[test]
fn favorites_file_location() {
    assert_eq!(
        Favorite::get_favorites_path("/home/u/Emux"),
        "/home/u/Emux/system-lists/favorites.json"
    );
    let mut f = Favorite::new();
    f.init_favorites("/b", Some(vec![entry("L", "x")]));
    assert_eq!(f.favorites_path, "/b/system-lists/favorites.json");
    assert_eq!(f.list_favorites.len(), 1);
    f.init_favorites("/b", None);
    assert_eq!(f.list_favorites.len(), 1);
}

#[test]
fn base_dir_choice() {
    assert_eq!(AppConfig::get_base_dir(None, Some("/data".into())), "./Emux");
    assert_eq!(AppConfig::get_base_dir(Some("/home/u".into()), None), "/home/u/Emux");
    assert_eq!(AppConfig::get_base_dir(Some("/home/u".into()), Some("/data".into())), "/data");
    assert_eq!(
        AppConfig::get_base_dir(Some("/home/u".into()), Some("default".into())),
        "/home/u/Emux"
    );
    let c = AppConfig::load("/b".to_string());
    assert_eq!(c.base_dir, "/b");
    assert_eq!(c.lists_dir, "/b/lists");
    assert_eq!(AppConfig::get_lists_dir(&"/b/".to_string()), "/b/lists");
}

#[test]
fn table_reads_back_what_was_stored() {
    let mut t: Vec<(String, u64)> = Vec::new();
    table_store(&mut t, "a".to_string(), 1);
    table_store(&mut t, "b".to_string(), 2);
    table_store(&mut t, "a".to_string(), 3);
    assert_eq!(t.len(), 2);
    assert_eq!(table_lookup(&t, &"a".to_string()), Some(&3));
    assert_eq!(table_lookup(&t, &"b".to_string()), Some(&2));
    assert_eq!(table_lookup(&t, &"c".to_string()), None);
    let names = vec!["x.zip".to_string()];
    assert!(contains_name(&names, &"x.zip".to_string()));
    assert!(!contains_name(&names, &"y.zip".to_string()));
}

#[test]
fn rebuilding_depends_on_the_lists_alone() {
    let mut stale = lists();
    stale.commands.push(cmd("leftover"));
    stale.list_ranges.push((7, 9));
    stale.build_flat_commands();
    stale.build_flat_commands();
    let fresh = lists();
    let a: Vec<&str> = stale.commands.iter().map(|x| x.name.as_str()).collect();
    let b: Vec<&str> = fresh.commands.iter().map(|x| x.name.as_str()).collect();
    assert_eq!(a, b);
    assert_eq!(stale.list_ranges, fresh.list_ranges);
}

#[test]
fn count_is_the_length_of_the_selected_list_or_zero() {
    let mut c = lists();
    for (i, n) in [(0usize, 2usize), (1, 0), (2, 3), (3, 0), (9, 0)] {
        c.selected_list = i;
        assert_eq!(c.get_current_list_commands_count(), n);
    }
}

#[test]
fn tables_are_keyed_by_path() {
    let mut t: Vec<(String, u64)> = Vec::new();
    table_store(&mut t, "/b/local/Roms/".to_string(), 1);
    table_store(&mut t, "/b/local//Roms".to_string(), 2);
    assert_eq!(t, vec![("/b/local/Roms/".to_string(), 2)]);
    assert_eq!(table_lookup(&t, &"/b/local/./Roms".to_string()), Some(&2));
    assert_eq!(table_lookup(&t, &"b/local/Roms".to_string()), None);
    table_store(&mut t, "/b/local/Games".to_string(), 3);
    assert_eq!(t.len(), 2);
    assert_eq!(table_lookup(&t, &"/b/local/Roms".to_string()), Some(&2));
}
