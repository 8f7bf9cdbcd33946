use znicz_tui::input::{KeyCode, KeyEvent, KeyModifiers};
use znicz_tui::line_edit::LineEdit;

#[test]
fn insert_in_the_middle_fixes_a_typo() {
    let mut edit = LineEdit::from_text("Exmple");
    edit.left();
    edit.left();
    edit.left();
    edit.left();
    edit.insert('a');
    assert_eq!(edit.as_str(), "Example");
}

#[test]
fn backspace_deletes_before_the_caret() {
    let mut edit = LineEdit::from_text("Example");
    edit.home();
    edit.right();
    edit.right();
    edit.right();
    edit.backspace();
    assert_eq!(edit.as_str(), "Exmple");
}

#[test]
fn delete_removes_the_char_under_the_caret() {
    let mut edit = LineEdit::from_text("Exxample");
    edit.home();
    edit.right();
    edit.right();
    edit.delete();
    assert_eq!(edit.as_str(), "Example");
}

#[test]
fn left_stops_at_the_start() {
    let mut edit = LineEdit::from_text("ab");
    edit.home();
    edit.left();
    edit.insert('x');
    assert_eq!(edit.as_str(), "xab");
}

#[test]
fn multibyte_chars_do_not_panic() {
    let mut edit = LineEdit::from_text("żubr");
    edit.home();
    edit.right();
    edit.backspace();
    edit.insert('Z');
    assert_eq!(edit.as_str(), "Zubr");
}

#[test]
fn on_key_inserts_after_moving_left() {
    let mut edit = LineEdit::from_text("sogs");
    edit.on_key(KeyEvent::new(KeyCode::Left, KeyModifiers::none()));
    edit.on_key(KeyEvent::new(KeyCode::Left, KeyModifiers::none()));
    edit.on_key(KeyEvent::new(KeyCode::Char('n'), KeyModifiers::none()));
    assert_eq!(edit.as_str(), "songs");
}

#[test]
fn backspace_then_typing_restores_the_text() {
    let mut edit = LineEdit::from_text("żółw");
    edit.left();
    edit.backspace();
    edit.insert('ł');
    assert_eq!(edit.as_str(), "żółw");
    assert_eq!(edit.cursor(), 3);
}

#[test]
fn control_and_alt_keys_do_not_edit() {
    let mut edit = LineEdit::from_text("abc");
    assert!(!edit.on_key(KeyEvent::new(KeyCode::Char('x'), KeyModifiers::control())));
    assert!(!edit.on_key(KeyEvent::new(KeyCode::Char('x'), KeyModifiers::alt())));
    assert!(!edit.on_key(KeyEvent::plain(KeyCode::Enter)));
    assert_eq!(edit.as_str(), "abc");
    assert!(edit.on_key(KeyEvent::plain(KeyCode::Home)));
    assert_eq!(edit.cursor(), 0);
}

#[test]
fn the_caret_splits_the_text_for_drawing() {
    let mut edit = LineEdit::from_text("zeppelin");
    edit.home();
    edit.right();
    assert_eq!(edit.split_at_cursor(), ("z", "eppelin"));
    edit.end();
    assert_eq!(edit.split_at_cursor(), ("zeppelin", ""));
    edit.right();
    assert_eq!(edit.cursor(), 8);
    edit.delete();
    assert_eq!(edit.as_str(), "zeppelin");
}

#[test]
fn a_new_buffer_is_empty() {
    let edit = LineEdit::new();
    assert_eq!(edit.as_str(), "");
    assert_eq!(edit.len(), 0);
    assert_eq!(LineEdit::default(), LineEdit::new());
}

#[test]
fn a_key_that_changes_nothing_says_so() {
    let mut edit = LineEdit::new();
    assert!(!edit.on_key(KeyEvent::new(KeyCode::Left, KeyModifiers::none())), "Left at the start moves nothing");
    assert_eq!(edit, LineEdit::new());
    assert!(!edit.on_key(KeyEvent::plain(KeyCode::Backspace)));
    assert!(!edit.on_key(KeyEvent::plain(KeyCode::Delete)));
    assert!(edit.on_key(KeyEvent::plain(KeyCode::Char('a'))));
    assert!(!edit.on_key(KeyEvent::plain(KeyCode::Right)), "Right at the end moves nothing");
    assert!(!edit.on_key(KeyEvent::plain(KeyCode::End)));
    assert!(edit.on_key(KeyEvent::plain(KeyCode::Left)));
    assert_eq!(edit.cursor(), 0);
}
