use manifest::editor::{CursorPosition, FeatureEditorTab};
use uuid::Uuid;

#[test]
fn test_cursor_position_ordering() {
    let a = CursorPosition::new(0, 5);
    let b = CursorPosition::new(1, 0);
    assert!(a < b);

    let c = CursorPosition::new(1, 3);
    let d = CursorPosition::new(1, 5);
    assert!(c < d);
}

#[test]
fn test_insert_single_line() {
    let mut tab = FeatureEditorTab::new(0, Uuid::new_v4(), "Test".into(), Some("Hello".into()));
    tab.cursor.column = 5;
    tab.insert_text(" World");
    assert_eq!(tab.content(), "Hello World");
    assert_eq!(tab.cursor.column, 11);
}

#[test]
fn test_insert_newline() {
    let mut tab = FeatureEditorTab::new(0, Uuid::new_v4(), "Test".into(), Some("Hello World".into()));
    tab.cursor.column = 5;
    tab.insert_newline();
    assert_eq!(tab.content(), "Hello\n World");
    assert_eq!(tab.cursor.line, 1);
    assert_eq!(tab.cursor.column, 0);
}

#[test]
fn test_backspace_within_line() {
    let mut tab = FeatureEditorTab::new(0, Uuid::new_v4(), "Test".into(), Some("Hello".into()));
    tab.cursor.column = 5;
    tab.backspace();
    assert_eq!(tab.content(), "Hell");
}

#[test]
fn test_backspace_merge_lines() {
    let mut tab = FeatureEditorTab::new(0, Uuid::new_v4(), "Test".into(), Some("Hello\nWorld".into()));
    tab.cursor.line = 1;
    tab.cursor.column = 0;
    tab.backspace();
    assert_eq!(tab.content(), "HelloWorld");
    assert_eq!(tab.cursor.line, 0);
    assert_eq!(tab.cursor.column, 5);
}

#[test]
fn test_dirty_state() {
    let mut tab = FeatureEditorTab::new(0, Uuid::new_v4(), "Test".into(), Some("Hello".into()));
    assert!(!tab.is_dirty);
    tab.insert_text("!");
    assert!(tab.is_dirty);
    tab.mark_saved();
    assert!(!tab.is_dirty);
}

#[test]
fn backspace_removes_a_whole_grapheme_cluster() {
    // "e" followed by a combining acute accent forms one cluster of two
    // characters; backspace removes both.
    let mut tab = FeatureEditorTab::new(0, Uuid::new_v4(), "Test".into(), Some("ae\u{301}".into()));
    tab.cursor.column = 3;
    tab.backspace();
    assert_eq!(tab.content(), "a");
    assert_eq!(tab.cursor.column, 1);
}

#[test]
fn delete_merges_next_line() {
    let mut tab = FeatureEditorTab::new(0, Uuid::new_v4(), "Test".into(), Some("ab\ncd".into()));
    tab.cursor.column = 2;
    tab.delete();
    assert_eq!(tab.content(), "abcd");
}

#[test]
fn delete_removes_character_at_cursor() {
    let mut tab = FeatureEditorTab::new(0, Uuid::new_v4(), "Test".into(), Some("abc".into()));
    tab.cursor.column = 1;
    tab.delete();
    assert_eq!(tab.content(), "ac");
    assert_eq!(tab.cursor.column, 1);
}

#[test]
fn multi_line_insert_splits_current_line() {
    let mut tab = FeatureEditorTab::new(0, Uuid::new_v4(), "Test".into(), Some("headtail".into()));
    tab.cursor.column = 4;
    tab.insert_text("one\ntwo\nthree");
    assert_eq!(tab.content(), "headone\ntwo\nthreetail");
    assert_eq!(tab.cursor.line, 2);
    assert_eq!(tab.cursor.column, 5);
}

#[test]
fn selection_replacement() {
    let mut tab = FeatureEditorTab::new(0, Uuid::new_v4(), "Test".into(), Some("Hello World".into()));
    tab.cursor.column = 0;
    tab.start_selection();
    tab.cursor.column = 5;
    assert!(tab.has_selection());
    tab.insert_text("Goodbye");
    assert_eq!(tab.content(), "Goodbye World");
    assert!(!tab.has_selection());
}

#[test]
fn multi_line_selection_deletion() {
    let mut tab =
        FeatureEditorTab::new(0, Uuid::new_v4(), "Test".into(), Some("one\ntwo\nthree".into()));
    tab.cursor.line = 0;
    tab.cursor.column = 2;
    tab.start_selection();
    tab.cursor.line = 2;
    tab.cursor.column = 3;
    tab.delete_selection();
    assert_eq!(tab.content(), "onee");
    assert_eq!(tab.cursor.line, 0);
    assert_eq!(tab.cursor.column, 2);
}

#[test]
fn movement_and_clamping() {
    let mut tab = FeatureEditorTab::new(0, Uuid::new_v4(), "Test".into(), Some("long line\nab".into()));
    tab.cursor.column = 9;
    tab.move_down();
    assert_eq!(tab.cursor.line, 1);
    assert_eq!(tab.cursor.column, 2);
    tab.move_up();
    assert_eq!(tab.cursor.line, 0);
    assert_eq!(tab.cursor.column, 2);
    tab.move_to_line_end();
    assert_eq!(tab.cursor.column, 9);
    tab.move_to_line_start();
    assert_eq!(tab.cursor.column, 0);
}

#[test]
fn move_left_and_right_cross_lines() {
    let mut tab = FeatureEditorTab::new(0, Uuid::new_v4(), "Test".into(), Some("ab\ncd".into()));
    tab.cursor.line = 1;
    tab.cursor.column = 0;
    tab.move_left();
    assert_eq!(tab.cursor.line, 0);
    assert_eq!(tab.cursor.column, 2);
    tab.move_right();
    assert_eq!(tab.cursor.line, 1);
    assert_eq!(tab.cursor.column, 0);
}

#[test]
fn select_all_spans_the_document() {
    let mut tab = FeatureEditorTab::new(0, Uuid::new_v4(), "Test".into(), Some("ab\ncde".into()));
    tab.select_all();
    assert_eq!(tab.selection_anchor, Some(CursorPosition::new(0, 0)));
    assert_eq!(tab.cursor, CursorPosition::new(1, 3));
}

#[test]
fn set_content_replaces_lines_and_clamps_cursor() {
    let mut tab = FeatureEditorTab::new(0, Uuid::new_v4(), "Test".into(), Some("abcdef".into()));
    tab.cursor.column = 6;
    tab.set_content("xy");
    assert_eq!(tab.content(), "xy");
    assert_eq!(tab.cursor.column, 2);
    assert!(tab.is_dirty);
}

#[test]
fn new_tab_from_empty_details() {
    let tab = FeatureEditorTab::new(7, Uuid::new_v4(), "Empty".into(), None);
    assert_eq!(tab.line_count(), 1);
    assert_eq!(tab.content(), "");
    assert!(!tab.is_dirty);
}

#[test]
fn clamp_to_line_bounds_the_column() {
    let p = CursorPosition::new(2, 10);
    assert_eq!(p.clamp_to_line(4), CursorPosition::new(2, 4));
    assert_eq!(p.clamp_to_line(20), CursorPosition::new(2, 10));
}
