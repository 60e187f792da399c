use cosmo::editor::App;
use cosmo::editor::Mode;

fn loaded(lines: &[&str]) -> App {
    let mut app = App::new();
    app.load_from(Some(lines.iter().map(|s| s.to_string()).collect()));
    app
}

#[test]
fn load_missing_file_seeds_welcome_line() {
    let mut app = App::new();
    app.load_from(None);
    assert_eq!(app.lines_vec().len(), 1);
    assert_eq!(app.lines_vec()[0], "Welcome to Cosmo!");
    assert!(matches!(app.mode(), Mode::Reading));
    assert_eq!(app.line_pos(), 0);
    assert_eq!(app.column_pos(), 0);
    assert_eq!(app.current_line(), "Welcome to Cosmo!");
}

#[test]
fn load_empty_file_seeds_one_empty_line() {
    let mut app = App::new();
    app.load_from(Some(Vec::new()));
    assert_eq!(app.lines_vec().len(), 1);
    assert_eq!(app.lines_vec()[0], "");
    assert_eq!(app.current_line(), "");
    assert_eq!(app.current_line_len(), 0);
}

#[test]
fn move_next_line_saturates_at_last_line() {
    let mut app = loaded(&["a", "b", "c"]);
    for _ in 0..5 {
        app.move_next_line();
    }
    assert_eq!(app.line_pos(), 2);
    app.move_next_line();
    assert_eq!(app.line_pos(), 2);
}

#[test]
fn move_previous_line_saturates_at_line_zero() {
    let mut app = loaded(&["a", "b", "c"]);
    app.move_next_line();
    app.move_next_line();
    assert_eq!(app.line_pos(), 2);
    for _ in 0..5 {
        app.move_previous_line();
    }
    assert_eq!(app.line_pos(), 0);
    app.move_previous_line();
    assert_eq!(app.line_pos(), 0);
}

#[test]
fn selecting_a_line_resets_cursor_and_working_line() {
    let mut app = loaded(&["ab", "cd"]);
    app.set_mode(Mode::Editing);
    app.move_next_column();
    app.set_mode(Mode::Reading);
    app.move_next_line();
    assert_eq!(app.line_pos(), 1);
    assert_eq!(app.column_pos(), 0);
    assert_eq!(app.offset(), 0);
    assert_eq!(app.current_line(), "cd");
}

#[test]
fn insert_then_remove_restores_when_grapheme_matches() {
    let mut app = loaded(&["ab"]);
    app.set_mode(Mode::Editing);
    app.insert_char('a');
    app.remove_char();
    assert_eq!(app.current_line(), "ab");
    assert_eq!(app.column_pos(), 0);
}

#[test]
fn insert_then_remove_replaces_grapheme_under_cursor() {
    let mut app = loaded(&["ab"]);
    app.set_mode(Mode::Editing);
    app.insert_char('X');
    assert_eq!(app.current_line(), "Xab");
    assert_eq!(app.column_pos(), 1);
    app.remove_char();
    assert_eq!(app.current_line(), "Xb");
    assert_eq!(app.column_pos(), 0);
}

#[test]
fn insert_then_remove_on_empty_line() {
    let mut app = loaded(&[""]);
    app.set_mode(Mode::Editing);
    app.insert_char('X');
    assert_eq!(app.current_line(), "X ");
    assert_eq!(app.column_pos(), 1);
    app.remove_char();
    assert_eq!(app.current_line(), "X");
    assert_eq!(app.column_pos(), 0);
}

#[test]
fn move_right_at_line_end_grows_by_one_space() {
    let mut app = loaded(&["ab"]);
    app.set_mode(Mode::Editing);
    app.move_next_column();
    assert_eq!(app.column_pos(), 1);
    app.move_next_column();
    assert_eq!(app.current_line(), "ab ");
    assert_eq!(app.column_pos(), 2);
    app.move_next_column();
    assert_eq!(app.current_line(), "ab ");
    assert_eq!(app.column_pos(), 2);
}

#[test]
fn move_right_on_empty_line_grows_by_one_space() {
    let mut app = loaded(&[""]);
    app.set_mode(Mode::Editing);
    app.move_next_column();
    assert_eq!(app.current_line(), " ");
    assert_eq!(app.column_pos(), 0);
}

#[test]
fn remove_char_at_column_zero_removes_first_grapheme() {
    let mut app = loaded(&["ab"]);
    app.set_mode(Mode::Editing);
    app.remove_char();
    assert_eq!(app.current_line(), "b");
    assert_eq!(app.column_pos(), 0);
}

#[test]
fn current_line_len_counts_grapheme_clusters() {
    let app = loaded(&["e\u{301}x"]);
    assert_eq!(app.current_line_len(), 2);
    let flags = loaded(&["\u{1F1F7}\u{1F1FA}x"]);
    assert_eq!(flags.current_line_len(), 2);
}

#[test]
fn insert_respects_grapheme_boundaries() {
    let mut app = loaded(&["e\u{301}x"]);
    app.set_mode(Mode::Editing);
    app.move_next_column();
    app.insert_char('A');
    assert_eq!(app.current_line(), "e\u{301}Ax");
    assert_eq!(app.column_pos(), 2);
}

#[test]
fn mode_toggle_commits_working_line() {
    let mut app = loaded(&["ab", "cd"]);
    app.set_mode(Mode::Editing);
    app.insert_char('X');
    assert_eq!(app.lines_vec()[0], "ab");
    app.set_mode(Mode::Reading);
    assert_eq!(app.lines_vec()[0], "Xab");
    assert_eq!(app.lines_vec()[1], "cd");
}

#[test]
fn leaving_editing_for_exiting_does_not_commit() {
    let mut app = loaded(&["ab"]);
    app.set_mode(Mode::Editing);
    app.insert_char('X');
    app.set_mode(Mode::Exiting);
    assert_eq!(app.lines_vec()[0], "ab");
}

#[test]
fn insert_newline_adds_space_line_after_current() {
    let mut app = loaded(&["ab", "cd"]);
    app.insert_newline();
    assert_eq!(app.lines_vec().len(), 3);
    assert_eq!(app.lines_vec()[0], "ab");
    assert_eq!(app.lines_vec()[1], " ");
    assert_eq!(app.lines_vec()[2], "cd");
}

#[test]
fn insert_newline_on_empty_buffer_pushes_first_line() {
    let mut app = App::new();
    app.insert_newline();
    assert_eq!(app.lines_vec().len(), 1);
    assert_eq!(app.lines_vec()[0], " ");
}

#[test]
fn calculate_offset_window_values() {
    let mut app = loaded(&["abcdefghij"]);
    app.set_mode(Mode::Editing);
    // Width 6 leaves 4 text columns; the cursor starts inside the window.
    assert_eq!(app.calculate_offset(6), (0, 3));
    assert_eq!(app.offset(), 0);
    for _ in 0..4 {
        app.move_next_column();
    }
    assert_eq!(app.column_pos(), 4);
    // The cursor fell off the right edge: the window slides right by one.
    assert_eq!(app.calculate_offset(6), (1, 4));
    assert_eq!(app.offset(), 1);
    for _ in 0..4 {
        app.move_previous_column();
    }
    assert_eq!(app.column_pos(), 0);
    // The cursor fell off the left edge: the window slides left by one.
    assert_eq!(app.calculate_offset(6), (0, 3));
    assert_eq!(app.offset(), 0);
}

#[test]
fn calculate_offset_keeps_cursor_in_window_under_single_steps() {
    let mut app = loaded(&["abcdefghijklmnop"]);
    app.set_mode(Mode::Editing);
    app.calculate_offset(6);
    for _ in 0..15 {
        app.move_next_column();
        let (start, end) = app.calculate_offset(6);
        let col = app.column_pos();
        assert!(start <= col && col <= end);
    }
    for _ in 0..15 {
        app.move_previous_column();
        let (start, end) = app.calculate_offset(6);
        let col = app.column_pos();
        assert!(start <= col && col <= end);
    }
}

#[test]
fn calculate_offset_on_empty_line_is_degenerate() {
    let mut app = loaded(&[""]);
    assert_eq!(app.calculate_offset(6), (0, 0));
}

#[test]
fn save_text_appends_newline_to_every_line() {
    let app = loaded(&["ab", "cd"]);
    assert_eq!(app.save_text(), "ab\ncd\n");
    let mut missing = App::new();
    missing.load_from(None);
    assert_eq!(missing.save_text(), "Welcome to Cosmo!\n");
}

#[test]
fn saving_does_not_change_stored_lines() {
    let app = loaded(&["ab", "cd"]);
    let _ = app.save_text();
    assert_eq!(app.lines_vec()[0], "ab");
    assert_eq!(app.lines_vec()[1], "cd");
}

#[test]
fn mode_text_names_the_mode() {
    assert_eq!(Mode::Reading.text(), "Reading");
    assert_eq!(Mode::Editing.text(), "Editing");
    assert_eq!(Mode::Exiting.text(), "Exiting");
}
