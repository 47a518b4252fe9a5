use passmr::app::{App, InputMode, Key, Outcome};
use passmr::kvs::Kvs;

fn fresh() -> Kvs {
    match Kvs::open_temporary() {
        Ok(k) => k,
        Err(e) => panic!("cannot open a temporary store: {}", e),
    }
}

fn press(app: &mut App, kvs: &mut Kvs, key: Key) -> Outcome {
    match app.handle_key(key, kvs) {
        Ok(o) => o,
        Err(_) => panic!("store error"),
    }
}

fn type_text(app: &mut App, kvs: &mut Kvs, text: &str) {
    for c in text.chars() {
        press(app, kvs, Key::Char(c));
    }
}

fn add_entry(app: &mut App, kvs: &mut Kvs, key: &str, value: &str) {
    press(app, kvs, Key::Char('a'));
    type_text(app, kvs, key);
    press(app, kvs, Key::Enter);
    type_text(app, kvs, value);
    press(app, kvs, Key::Enter);
}

fn strings(v: &[&str]) -> Vec<String> {
    v.iter().map(|s| s.to_string()).collect()
}

#[test]
fn add_entry_from_empty_store() {
    let mut kvs = fresh();
    let mut app = App::new();
    press(&mut app, &mut kvs, Key::Char('a'));
    assert_eq!(app.mode, InputMode::AddKey);
    type_text(&mut app, &mut kvs, "site");
    press(&mut app, &mut kvs, Key::Enter);
    assert_eq!(app.mode, InputMode::AddValue);
    type_text(&mut app, &mut kvs, "pw123");
    press(&mut app, &mut kvs, Key::Enter);
    assert_eq!(app.mode, InputMode::Home);
    assert!(matches!(kvs.get("site"), Ok(Some(v)) if v == "pw123"));
    assert_eq!(app.key_list, strings(&["site"]));
    assert_eq!(app.key_input, "");
    assert_eq!(app.value_input, "");
    assert_eq!(app.cursor_position, 0);
}

#[test]
fn typing_git_filters_keys() {
    let mut kvs = fresh();
    let mut app = App::new();
    app.sync_key_list(strings(&["github", "gitlab", "email"]));
    press(&mut app, &mut kvs, Key::Char('s'));
    assert_eq!(app.mode, InputMode::Search);
    assert_eq!(app.stateful_key_list.items, strings(&["github", "gitlab", "email"]));
    type_text(&mut app, &mut kvs, "git");
    assert_eq!(app.search_input, "git");
    assert_eq!(app.stateful_key_list.items, strings(&["github", "gitlab"]));
    press(&mut app, &mut kvs, Key::Backspace);
    press(&mut app, &mut kvs, Key::Backspace);
    press(&mut app, &mut kvs, Key::Backspace);
    assert_eq!(app.stateful_key_list.items, strings(&["github", "gitlab", "email"]));
}

#[test]
fn down_in_select_wraps_around() {
    let mut kvs = fresh();
    let mut app = App::new();
    app.sync_key_list(strings(&["github", "gitlab", "email"]));
    press(&mut app, &mut kvs, Key::Char('s'));
    type_text(&mut app, &mut kvs, "git");
    press(&mut app, &mut kvs, Key::Enter);
    assert_eq!(app.mode, InputMode::Select);
    assert_eq!(app.stateful_key_list.selected, Some(0));
    assert_eq!(app.search_input, "");
    press(&mut app, &mut kvs, Key::Down);
    assert_eq!(app.stateful_key_list.selected, Some(1));
    press(&mut app, &mut kvs, Key::Down);
    assert_eq!(app.stateful_key_list.selected, Some(0));
    press(&mut app, &mut kvs, Key::Char('k'));
    assert_eq!(app.stateful_key_list.selected, Some(1));
    assert_eq!(app.get_selected_key(), Some("gitlab".to_string()));
}

#[test]
fn delete_selected_entry_returns_to_search() {
    let mut kvs = fresh();
    let mut app = App::new();
    add_entry(&mut app, &mut kvs, "bank", "b1");
    add_entry(&mut app, &mut kvs, "mail", "m1");
    press(&mut app, &mut kvs, Key::Char('s'));
    type_text(&mut app, &mut kvs, "mail");
    press(&mut app, &mut kvs, Key::Enter);
    assert_eq!(app.get_selected_key(), Some("mail".to_string()));
    press(&mut app, &mut kvs, Key::Char('d'));
    assert_eq!(app.mode, InputMode::Delete);
    press(&mut app, &mut kvs, Key::Char('y'));
    assert_eq!(app.mode, InputMode::Search);
    assert_eq!(app.search_input, "");
    assert!(matches!(kvs.get("mail"), Ok(None)));
    assert_eq!(app.key_list, strings(&["bank"]));
    assert_eq!(app.stateful_key_list.items, strings(&["bank"]));
}

#[test]
fn delete_cancelled_with_esc() {
    let mut kvs = fresh();
    let mut app = App::new();
    add_entry(&mut app, &mut kvs, "bank", "b1");
    press(&mut app, &mut kvs, Key::Char('s'));
    press(&mut app, &mut kvs, Key::Enter);
    press(&mut app, &mut kvs, Key::Char('d'));
    press(&mut app, &mut kvs, Key::Esc);
    assert_eq!(app.mode, InputMode::Select);
    assert!(matches!(kvs.get("bank"), Ok(Some(v)) if v == "b1"));
}

#[test]
fn edit_selected_value_and_commit() {
    let mut kvs = fresh();
    let mut app = App::new();
    add_entry(&mut app, &mut kvs, "site", "pw");
    press(&mut app, &mut kvs, Key::Char('s'));
    press(&mut app, &mut kvs, Key::Enter);
    press(&mut app, &mut kvs, Key::Char('e'));
    assert_eq!(app.mode, InputMode::Edit);
    assert_eq!(app.value_input, "pw");
    assert_eq!(app.cursor_position, 2);
    type_text(&mut app, &mut kvs, "9");
    press(&mut app, &mut kvs, Key::Enter);
    assert_eq!(app.mode, InputMode::Select);
    assert_eq!(app.value_input, "");
    assert!(matches!(kvs.get("site"), Ok(Some(v)) if v == "pw9"));
}

#[test]
fn edit_discarded_with_esc() {
    let mut kvs = fresh();
    let mut app = App::new();
    add_entry(&mut app, &mut kvs, "site", "pw");
    press(&mut app, &mut kvs, Key::Char('s'));
    press(&mut app, &mut kvs, Key::Enter);
    press(&mut app, &mut kvs, Key::Char('e'));
    press(&mut app, &mut kvs, Key::Backspace);
    press(&mut app, &mut kvs, Key::Esc);
    assert_eq!(app.mode, InputMode::Select);
    assert!(matches!(kvs.get("site"), Ok(Some(v)) if v == "pw"));
}

#[test]
fn enter_in_select_hands_out_value() {
    let mut kvs = fresh();
    let mut app = App::new();
    add_entry(&mut app, &mut kvs, "site", "secret");
    press(&mut app, &mut kvs, Key::Char('s'));
    press(&mut app, &mut kvs, Key::Enter);
    let out = press(&mut app, &mut kvs, Key::Enter);
    assert!(matches!(out, Outcome::Copy(v) if v == "secret"));
    assert_eq!(app.mode, InputMode::Select);
}

#[test]
fn enter_on_empty_search_stays() {
    let mut kvs = fresh();
    let mut app = App::new();
    press(&mut app, &mut kvs, Key::Char('s'));
    press(&mut app, &mut kvs, Key::Enter);
    assert_eq!(app.mode, InputMode::Search);
    press(&mut app, &mut kvs, Key::Esc);
    assert_eq!(app.mode, InputMode::Home);
}

#[test]
fn add_needs_key_and_value() {
    let mut kvs = fresh();
    let mut app = App::new();
    press(&mut app, &mut kvs, Key::Char('a'));
    press(&mut app, &mut kvs, Key::Enter);
    assert_eq!(app.mode, InputMode::AddKey);
    type_text(&mut app, &mut kvs, "k");
    press(&mut app, &mut kvs, Key::Enter);
    press(&mut app, &mut kvs, Key::Enter);
    assert_eq!(app.mode, InputMode::AddValue);
    press(&mut app, &mut kvs, Key::Esc);
    assert_eq!(app.mode, InputMode::AddKey);
    assert_eq!(app.cursor_position, 1);
    press(&mut app, &mut kvs, Key::Esc);
    assert_eq!(app.mode, InputMode::Home);
    assert_eq!(app.key_input, "");
    assert!(matches!(kvs.get_key_vec(), Ok(ks) if ks.is_empty()));
}

#[test]
fn q_quits_only_at_home() {
    let mut kvs = fresh();
    let mut app = App::new();
    press(&mut app, &mut kvs, Key::Char('a'));
    assert!(matches!(press(&mut app, &mut kvs, Key::Char('q')), Outcome::Continue));
    assert_eq!(app.key_input, "q");
    press(&mut app, &mut kvs, Key::Esc);
    assert!(matches!(press(&mut app, &mut kvs, Key::Char('q')), Outcome::Quit));
}

#[test]
fn unlisted_keys_change_nothing() {
    let mut kvs = fresh();
    let mut app = App::new();
    press(&mut app, &mut kvs, Key::Char('x'));
    press(&mut app, &mut kvs, Key::Other);
    press(&mut app, &mut kvs, Key::Backspace);
    assert_eq!(app.mode, InputMode::Home);
    assert_eq!(app.cursor_position, 0);
}

#[test]
fn cursor_stays_within_buffer() {
    let mut kvs = fresh();
    let mut app = App::new();
    press(&mut app, &mut kvs, Key::Char('a'));
    press(&mut app, &mut kvs, Key::Backspace);
    press(&mut app, &mut kvs, Key::Backspace);
    assert_eq!(app.cursor_position, 0);
    type_text(&mut app, &mut kvs, "ab");
    for _ in 0..5 {
        app.move_cursor_right();
    }
    assert_eq!(app.cursor_position, 2);
    for _ in 0..5 {
        app.move_cursor_left();
    }
    assert_eq!(app.cursor_position, 0);
    app.enter_char('x');
    assert_eq!(app.key_input, "xab");
    assert_eq!(app.cursor_position, 1);
    app.move_cursor_right();
    app.delete_char();
    assert_eq!(app.key_input, "xb");
    assert_eq!(app.cursor_position, 1);
    assert_eq!(app.clamp_cursor_position(9), 2);
}

#[test]
fn select_esc_lists_every_key_again() {
    let mut kvs = fresh();
    let mut app = App::new();
    add_entry(&mut app, &mut kvs, "bank", "1");
    add_entry(&mut app, &mut kvs, "mail", "2");
    press(&mut app, &mut kvs, Key::Char('s'));
    type_text(&mut app, &mut kvs, "MA");
    assert_eq!(app.stateful_key_list.items, strings(&["mail"]));
    press(&mut app, &mut kvs, Key::Enter);
    press(&mut app, &mut kvs, Key::Esc);
    assert_eq!(app.mode, InputMode::Search);
    assert_eq!(app.stateful_key_list.items, strings(&["bank", "mail"]));
    assert_eq!(app.stateful_key_list.selected, None);
}
