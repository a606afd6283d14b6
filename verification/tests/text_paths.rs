use emux::paths::{extension, extract_list_name, file_stem, has_json_extension, join, same_path};
use emux::text::{
    clean_all, append_str, contains_ignore_case, cut_at, remove_extension, replace_all,
    sanitize_filename,
};

#[test]
fn sanitize_filename_drops_quotes_and_replaces_separators() {
    assert_eq!(
        sanitize_filename("Zelda: Link's \"Awakening\"/DX?.zip"),
        "Zelda_ Links Awakening_DX_.zip"
    );
    assert_eq!(sanitize_filename("a\\b*c<d>e|f"), "a_b_c_d_e_f");
    assert_eq!(sanitize_filename(""), "");
}

#[test]
fn cut_at_keeps_text_before_delimiter_trimmed() {
    assert_eq!(cut_at("  Mario (USA) [!]", '('), "Mario");
    assert_eq!(cut_at("  no delimiter here \t", '('), "no delimiter here");
    assert_eq!(cut_at("(starts)", '('), "");
}

#[test]
fn remove_extension_cuts_at_last_dot() {
    assert_eq!(remove_extension("game.v1.zip"), "game.v1");
    assert_eq!(remove_extension("noext"), "noext");
    assert_eq!(remove_extension(".bashrc"), "");
}

#[test]
fn clean_all_strips_annotations_and_extension() {
    assert_eq!(clean_all("Super Mario Bros. (World) [b].nes"), "Super Mario Bros");
    assert_eq!(clean_all("Tetris [!].gb"), "Tetris");
    assert_eq!(clean_all("  Plain  "), "Plain");
}

#[test]
fn replace_all_replaces_every_occurrence_left_to_right() {
    assert_eq!(replace_all("run $ITEM and $ITEM", "$ITEM", "x"), "run x and x");
    assert_eq!(replace_all("aaa", "aa", "b"), "ba");
    assert_eq!(replace_all("none", "$EMUX", "/b"), "none");
}

#[test]
fn contains_ignore_case_lowercases_both_sides() {
    assert!(contains_ignore_case("Super MARIO", "mario"));
    assert!(contains_ignore_case("abc", ""));
    assert!(!contains_ignore_case("abc", "abcd"));
    assert!(contains_ignore_case("ÀB", "àb"));
    assert!(contains_ignore_case("àb", "ÀB"));
}

#[test]
fn append_str_joins_texts() {
    assert_eq!(append_str("ab", "cd"), "abcd");
}

#[test]
fn join_follows_unix_path_rules() {
    assert_eq!(join("/a", "b"), "/a/b");
    assert_eq!(join("/a/", "b"), "/a/b");
    assert_eq!(join("", "b"), "b");
    assert_eq!(join("/a", "/c"), "/c");
    assert_eq!(join("a", ""), "a/");
    assert_eq!(join("/b", ".config/emux/emux.toml"), "/b/.config/emux/emux.toml");
}

#[test]
fn file_parts_of_paths() {
    assert_eq!(extract_list_name("/x/lists/Nintendo - SNES.json"), "Nintendo - SNES");
    assert_eq!(extract_list_name("/"), "<unknown>");
    assert_eq!(extract_list_name("/x/.hidden"), ".hidden");
    assert_eq!(extract_list_name("/x/a.tar.gz"), "a.tar");
    assert_eq!(extract_list_name("/x/y/"), "y");
}

#[test]
fn json_extension_is_exact() {
    assert!(has_json_extension("/x/a.json"));
    assert!(!has_json_extension("/x/a.JSON"));
    assert!(!has_json_extension("/x/a.txt"));
    assert!(!has_json_extension("/x/json"));
    assert!(!has_json_extension("/x/.json"));
    assert!(has_json_extension("/x/a.tar.json"));
}

#[test]
fn sanitized_names_are_safe_and_stable() {
    let once = sanitize_filename("a:b/c\\d*'e'\"f\"?g<h>i|j");
    assert_eq!(once, "a_b_c_d_ef_g_h_i_j");
    assert!(!once.contains(|c: char| "'\"/\\:*?<>|".contains(c)));
    assert_eq!(sanitize_filename(&once), once);
}

#[test]
fn paths_compare_by_components() {
    assert!(same_path("/a/b", "/a/b/"));
    assert!(same_path("/a//b", "/a/./b"));
    assert!(same_path("a/b/.", "a/b"));
    assert!(same_path("", ""));
    assert!(!same_path("./a", "a"));
    assert!(same_path("./a", "./a/"));
    assert!(same_path(".", "./"));
    assert!(!same_path("/a", "a"));
    assert!(!same_path("a/../b", "b"));
    assert!(!same_path("/a/b", "/a/c"));
    assert!(same_path("/", "//"));
}

#[test]
fn stems_and_extensions_of_file_names() {
    assert_eq!(file_stem("/x/a.tar.gz"), Some("a.tar".to_string()));
    assert_eq!(extension("/x/a.tar.gz"), Some("gz".to_string()));
    assert_eq!(file_stem("/x/.bashrc"), Some(".bashrc".to_string()));
    assert_eq!(extension("/x/.bashrc"), None);
    assert_eq!(file_stem("/x/a."), Some("a".to_string()));
    assert_eq!(extension("/x/a."), Some("".to_string()));
    assert_eq!(file_stem("/x/.a.b"), Some(".a".to_string()));
    assert_eq!(extension("/x/.a.b"), Some("b".to_string()));
    assert_eq!(file_stem("/"), None);
    assert_eq!(extension("/x/noext"), None);
}
