use std::path::PathBuf;

use app_common::launch_item::LaunchItem;
use app_common::launcher_state::LauncherState;

fn item(id: usize, name: &str) -> LaunchItem {
    LaunchItem { id, name: name.to_string(), path: PathBuf::from(format!("/games/{}", name)) }
}

fn sample_items() -> Vec<LaunchItem> {
    vec![item(0, "alpha/game.exe"), item(1, "beta/run.exe"), item(2, "gamma/game2.exe")]
}

fn names(items: &[LaunchItem]) -> Vec<String> {
    items.iter().map(|i| i.name.clone()).collect()
}

#[test]
fn query_matches_number_after_trimming() {
    assert!(LauncherState::query_matches_index_or_name("  3 ", 3, "foo"));
    assert!(LauncherState::query_matches_index_or_name("+3", 3, "foo"));
    assert!(LauncherState::query_matches_index_or_name("03", 3, "foo"));
    assert!(!LauncherState::query_matches_index_or_name("3", 4, "foo"));
    assert!(!LauncherState::query_matches_index_or_name("-3", 3, "foo"));
}

#[test]
fn query_number_that_overflows_matches_by_name_only() {
    let big = "99999999999999999999999999";
    assert!(!LauncherState::query_matches_index_or_name(big, 0, "foo"));
    assert!(LauncherState::query_matches_index_or_name(big, 0, "x99999999999999999999999999y"));
}

#[test]
fn query_matches_part_of_name() {
    assert!(LauncherState::query_matches_index_or_name("oo", 1, "foo"));
    assert!(LauncherState::query_matches_index_or_name(" oo\t", 1, "foo"));
    assert!(!LauncherState::query_matches_index_or_name("FOO", 1, "foo"));
    assert!(!LauncherState::query_matches_index_or_name("o o", 1, "foo"));
}

#[test]
fn query_trims_unicode_whitespace() {
    assert!(LauncherState::query_matches_index_or_name("\u{3000}ab\u{a0}", 7, "xaby"));
    assert!(LauncherState::query_matches_index_or_name("\u{2003}5\u{85}", 5, ""));
}

#[test]
fn blank_query_matches_everything() {
    assert!(LauncherState::query_matches_index_or_name("", 0, ""));
    assert!(LauncherState::query_matches_index_or_name(" \t\n", 9, "anything"));
}

#[test]
fn default_state_is_empty() {
    let s = LauncherState::default();
    assert!(!s.loaded);
    assert!(s.data.is_empty());
    assert!(s.data_filtered.is_empty());
    assert_eq!(s.selected_index, None);
    assert_eq!(s.filter_query, "");
}

#[test]
fn fetch_data_shows_all_and_selects_first() {
    let mut s = LauncherState::default();
    s.fetch_data(sample_items());
    assert!(s.loaded);
    assert_eq!(names(&s.data), names(&sample_items()));
    assert_eq!(names(&s.data_filtered), names(&sample_items()));
    assert_eq!(s.selected_index, Some(0));
}

#[test]
fn fetch_data_of_nothing_selects_nothing() {
    let mut s = LauncherState::default();
    s.fetch_data(Vec::new());
    assert!(s.loaded);
    assert!(s.data_filtered.is_empty());
    assert_eq!(s.selected_index, None);
}

#[test]
fn update_filter_keeps_matching_items_in_order() {
    let mut s = LauncherState::default();
    s.fetch_data(sample_items());
    s.update_selected(Some(2));
    s.update_filter("game".to_string());
    assert_eq!(s.filter_query, "game");
    assert_eq!(names(&s.data_filtered), vec!["alpha/game.exe", "gamma/game2.exe"]);
    assert_eq!(s.data_filtered[1].id, 2);
    assert_eq!(s.selected_index, Some(0));
    assert_eq!(names(&s.data), names(&sample_items()));
}

#[test]
fn update_filter_by_number() {
    let mut s = LauncherState::default();
    s.fetch_data(sample_items());
    s.update_filter(" 1 ".to_string());
    assert_eq!(names(&s.data_filtered), vec!["beta/run.exe"]);
}

#[test]
fn update_filter_with_no_match_selects_nothing() {
    let mut s = LauncherState::default();
    s.fetch_data(sample_items());
    s.update_filter("zzz".to_string());
    assert!(s.data_filtered.is_empty());
    assert_eq!(s.selected_index, None);
}

#[test]
fn blank_filter_shows_every_item() {
    let mut s = LauncherState::default();
    s.fetch_data(sample_items());
    s.update_filter("beta".to_string());
    s.update_filter("  ".to_string());
    assert_eq!(names(&s.data_filtered), names(&sample_items()));
}

#[test]
fn number_shown_finds_the_item() {
    let mut items = sample_items();
    items.push(item(12, "delta/other.exe"));
    let mut s = LauncherState::default();
    s.fetch_data(items);
    s.update_filter("12".to_string());
    assert_eq!(names(&s.data_filtered), vec!["delta/other.exe"]);
}

#[test]
fn get_selected_gives_the_selected_item() {
    let mut s = LauncherState::default();
    s.fetch_data(sample_items());
    s.update_selected(Some(1));
    let chosen = s.get_selected().expect("an item is selected");
    assert_eq!(chosen.id, 1);
    assert_eq!(chosen.name, "beta/run.exe");
    assert_eq!(chosen.path, PathBuf::from("/games/beta/run.exe"));
    assert_eq!(s.selected_index, Some(1));
}

#[test]
fn get_selected_outside_the_list_gives_nothing() {
    let mut s = LauncherState::default();
    s.fetch_data(sample_items());
    s.update_selected(Some(3));
    assert!(s.get_selected().is_none());
    s.update_selected(None);
    assert!(s.get_selected().is_none());
}

#[test]
fn launch_item_clone_is_equal() {
    let a = item(4, "x/y.exe");
    let b = a.clone();
    assert_eq!(b.id, 4);
    assert_eq!(b.name, "x/y.exe");
    assert_eq!(b.path, a.path);
}
