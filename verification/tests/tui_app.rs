use std::path::PathBuf;

use app_common::launch_item::LaunchItem;
use app_common::tui_app::{App, KeyCode, KeyInput, StopReason, TermEvent};

fn item(id: usize, name: &str) -> LaunchItem {
    LaunchItem { id, name: name.to_string(), path: PathBuf::from(name) }
}

fn key(code: KeyCode) -> KeyInput {
    KeyInput { code, control_only: false }
}

fn ctrl(code: KeyCode) -> KeyInput {
    KeyInput { code, control_only: true }
}

fn loaded_app() -> App {
    let mut app = App::new();
    app.start();
    app.load_items(vec![item(0, "alpha.exe"), item(1, "beta.exe"), item(2, "alpha2.exe")]);
    app
}

#[test]
fn new_app_is_idle() {
    let app = App::new();
    assert!(!app.running);
    assert!(!app.redraw);
    assert_eq!(app.stop_reason, StopReason::Exit);
    assert!(!app.state.loaded);
    assert_eq!(app.list_selected, None);
    assert_eq!(app.list_page_size, 0);
    assert_eq!(StopReason::default(), StopReason::Exit);
}

#[test]
fn first_frame_draws_then_loads() {
    let mut app = App::new();
    app.start();
    assert!(app.running);
    assert!(app.begin_frame());
    assert!(!app.redraw);
    assert!(!app.begin_frame());
    assert!(app.after_render(None, 10));
    assert_eq!(app.list_page_size, 10);
    app.load_items(vec![item(0, "a.exe")]);
    assert!(!app.after_render(None, 10));
}

#[test]
fn frame_takes_the_state_selection() {
    let mut app = loaded_app();
    app.state.update_selected(Some(2));
    app.redraw = true;
    assert!(app.begin_frame());
    assert_eq!(app.list_selected, Some(2));
}

#[test]
fn typing_filters_and_selects_first() {
    let mut app = loaded_app();
    app.on_key_event(key(KeyCode::Char('a')));
    app.on_key_event(key(KeyCode::Char('l')));
    assert_eq!(app.state.filter_query, "al");
    let names: Vec<&str> = app.state.data_filtered.iter().map(|i| i.name.as_str()).collect();
    assert_eq!(names, vec!["alpha.exe", "alpha2.exe"]);
    assert_eq!(app.state.selected_index, Some(0));
    assert!(app.redraw);
    assert!(app.running);
}

#[test]
fn control_with_other_letter_types_it() {
    let mut app = loaded_app();
    app.on_key_event(ctrl(KeyCode::Char('b')));
    assert_eq!(app.state.filter_query, "b");
    assert!(app.running);
}

#[test]
fn backspace_erases_last_character() {
    let mut app = loaded_app();
    app.on_key_event(key(KeyCode::Char('b')));
    app.on_key_event(key(KeyCode::Char('e')));
    app.on_key_event(key(KeyCode::Backspace));
    assert_eq!(app.state.filter_query, "b");
    app.on_key_event(key(KeyCode::Backspace));
    assert_eq!(app.state.filter_query, "");
    app.on_key_event(key(KeyCode::Backspace));
    assert_eq!(app.state.filter_query, "");
    assert_eq!(app.state.data_filtered.len(), 3);
}

#[test]
fn backspace_after_non_ascii_inside_is_fine() {
    let mut app = loaded_app();
    app.on_key_event(key(KeyCode::Char('é')));
    app.on_key_event(key(KeyCode::Char('x')));
    app.on_key_event(key(KeyCode::Backspace));
    assert_eq!(app.state.filter_query, "é");
}

#[test]
fn type_then_erase_restores_the_list() {
    let mut app = loaded_app();
    app.on_key_event(key(KeyCode::Char('2')));
    assert_eq!(app.state.data_filtered.len(), 1);
    assert_eq!(app.state.data_filtered[0].name, "alpha2.exe");
    app.on_key_event(key(KeyCode::Backspace));
    assert_eq!(app.state.filter_query, "");
    assert_eq!(app.state.data_filtered.len(), 3);
    assert_eq!(app.state.selected_index, Some(0));
}

#[test]
fn escape_stops_without_choice() {
    let mut app = loaded_app();
    app.on_key_event(key(KeyCode::Esc));
    assert!(!app.running);
    assert_eq!(app.stop_reason, StopReason::Exit);
}

#[test]
fn control_c_stops_without_choice() {
    let mut app = loaded_app();
    app.on_key_event(ctrl(KeyCode::Char('C')));
    assert!(!app.running);
    assert_eq!(app.stop_reason, StopReason::Exit);
    assert_eq!(app.state.filter_query, "");
    let mut app = loaded_app();
    app.on_key_event(ctrl(KeyCode::Char('c')));
    assert!(!app.running);
}

#[test]
fn plain_c_is_typed() {
    let mut app = loaded_app();
    app.on_key_event(key(KeyCode::Char('c')));
    assert!(app.running);
    assert_eq!(app.state.filter_query, "c");
}

#[test]
fn enter_stops_with_selection() {
    let mut app = loaded_app();
    app.on_key_event(key(KeyCode::Down));
    app.on_key_event(key(KeyCode::Down));
    app.on_key_event(key(KeyCode::Enter));
    assert!(!app.running);
    assert_eq!(app.stop_reason, StopReason::LaunchApp);
    let details = app.into_stop_details();
    assert_eq!(details.stop_reason, StopReason::LaunchApp);
    assert_eq!(details.selected_item.expect("selected").name, "beta.exe");
}

#[test]
fn down_from_nothing_selects_first() {
    let mut app = loaded_app();
    assert_eq!(app.list_selected, None);
    app.on_key_event(key(KeyCode::Down));
    assert_eq!(app.list_selected, Some(0));
    assert_eq!(app.state.selected_index, Some(0));
    assert!(app.redraw);
}

#[test]
fn up_from_nothing_selects_last_possible_row() {
    let mut app = loaded_app();
    app.on_key_event(key(KeyCode::Up));
    assert_eq!(app.list_selected, Some(usize::MAX));
    assert!(app.into_stop_details().selected_item.is_none());
}

#[test]
fn up_then_down_returns() {
    let mut app = loaded_app();
    app.after_render(Some(2), 5);
    app.on_key_event(key(KeyCode::Up));
    assert_eq!(app.list_selected, Some(1));
    app.on_key_event(key(KeyCode::Down));
    assert_eq!(app.list_selected, Some(2));
    app.on_key_event(key(KeyCode::Up));
    app.on_key_event(key(KeyCode::Up));
    app.on_key_event(key(KeyCode::Up));
    assert_eq!(app.list_selected, Some(0));
}

#[test]
fn page_keys_move_by_the_list_height() {
    let mut app = loaded_app();
    app.after_render(Some(2), 5);
    app.on_key_event(key(KeyCode::PageDown));
    assert_eq!(app.list_selected, Some(7));
    assert_eq!(app.state.selected_index, Some(7));
    app.on_key_event(key(KeyCode::PageUp));
    app.on_key_event(key(KeyCode::PageUp));
    assert_eq!(app.list_selected, Some(0));
    app.after_render(Some(usize::MAX - 1), 5);
    app.on_key_event(key(KeyCode::PageDown));
    assert_eq!(app.list_selected, Some(usize::MAX));
}

#[test]
fn other_keys_and_events_change_nothing() {
    let mut app = loaded_app();
    app.begin_frame();
    app.on_key_event(key(KeyCode::Other));
    assert!(!app.redraw);
    assert!(app.running);
    app.handle_event(TermEvent::Mouse);
    app.handle_event(TermEvent::Other);
    app.handle_event(TermEvent::Key { key: key(KeyCode::Esc), pressed: false });
    assert!(app.running);
    assert!(!app.redraw);
}

#[test]
fn resize_asks_to_draw() {
    let mut app = loaded_app();
    app.begin_frame();
    app.handle_event(TermEvent::Resize);
    assert!(app.redraw);
}

#[test]
fn pressed_key_event_is_handled() {
    let mut app = loaded_app();
    app.handle_event(TermEvent::Key { key: key(KeyCode::Esc), pressed: true });
    assert!(!app.running);
}

#[test]
fn rows_show_number_and_name() {
    let app = loaded_app();
    assert_eq!(app.list_lines(), vec!["[0]: alpha.exe", "[1]: beta.exe", "[2]: alpha2.exe"]);
    let mut app = App::new();
    app.load_items(vec![item(123, "x.exe")]);
    assert_eq!(app.list_lines(), vec!["[123]: x.exe"]);
}

#[test]
fn moving_keeps_the_filtered_list() {
    let mut app = loaded_app();
    app.on_key_event(key(KeyCode::Char('a')));
    let before: Vec<String> = app.state.data_filtered.iter().map(|i| i.name.clone()).collect();
    app.on_key_event(key(KeyCode::Down));
    app.on_key_event(key(KeyCode::PageDown));
    app.on_key_event(key(KeyCode::Up));
    let after: Vec<String> = app.state.data_filtered.iter().map(|i| i.name.clone()).collect();
    assert_eq!(before, after);
    assert_eq!(app.state.filter_query, "a");
}
