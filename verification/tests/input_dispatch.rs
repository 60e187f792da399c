use cosmo::dispatch::Control;
use cosmo::dispatch::apply_action;
use cosmo::editor::App;
use cosmo::editor::Mode;
use cosmo::input::Action;
use cosmo::input::Direction;
use cosmo::input::InputEvent;
use cosmo::input::Key;
use cosmo::input::handle_exiting_key;
use cosmo::input::handle_key;
use cosmo::input::handle_keyboard;

fn loaded_two() -> App {
    let mut app = App::new();
    app.load_from(Some(vec!["ab".to_string(), "cd".to_string()]));
    app
}

#[test]
fn key_map_while_reading() {
    let mode = Mode::Reading;
    assert_eq!(handle_key(Key::Backspace, &mode), Action::RemoveChar);
    assert_eq!(handle_key(Key::Enter, &mode), Action::AddLine);
    assert_eq!(handle_key(Key::Up, &mode), Action::Move(Direction::Up));
    assert_eq!(handle_key(Key::Down, &mode), Action::Move(Direction::Down));
    assert_eq!(handle_key(Key::Left, &mode), Action::Move(Direction::Left));
    assert_eq!(handle_key(Key::Right, &mode), Action::Move(Direction::Right));
    assert_eq!(handle_key(Key::Char('q'), &mode), Action::AddChar('q'));
    assert_eq!(handle_key(Key::Tab, &mode), Action::ChangeMode(Mode::Editing));
    assert_eq!(handle_key(Key::Esc, &mode), Action::ChangeMode(Mode::Exiting));
    assert_eq!(handle_key(Key::Other, &mode), Action::Ignore);
}

#[test]
fn tab_toggles_back_to_reading() {
    assert_eq!(handle_key(Key::Tab, &Mode::Editing), Action::ChangeMode(Mode::Reading));
}

#[test]
fn exit_prompt_accepts_yes_and_no_in_either_case() {
    assert_eq!(handle_exiting_key(Key::Char('Y')), Action::Save);
    assert_eq!(handle_exiting_key(Key::Char('y')), Action::Save);
    assert_eq!(handle_exiting_key(Key::Char('N')), Action::Exit);
    assert_eq!(handle_exiting_key(Key::Char('n')), Action::Exit);
    assert_eq!(handle_exiting_key(Key::Char('x')), Action::Ignore);
    assert_eq!(handle_exiting_key(Key::Tab), Action::Ignore);
}

#[test]
fn keyboard_routes_by_mode() {
    assert_eq!(
        handle_keyboard(InputEvent::KeyPress(Key::Char('a')), &Mode::Editing),
        Action::AddChar('a')
    );
    assert_eq!(
        handle_keyboard(InputEvent::KeyPress(Key::Char('a')), &Mode::Exiting),
        Action::Ignore
    );
    assert_eq!(
        handle_keyboard(InputEvent::KeyPress(Key::Char('y')), &Mode::Exiting),
        Action::Save
    );
    assert_eq!(handle_keyboard(InputEvent::Resize, &Mode::Reading), Action::Ignore);
    assert_eq!(handle_keyboard(InputEvent::Other, &Mode::Reading), Action::Exit);
}

#[test]
fn vertical_move_ignored_while_editing() {
    let mut app = loaded_two();
    app.move_next_line();
    app.set_mode(Mode::Editing);
    app.move_next_column();
    let flow = apply_action(&mut app, Action::Move(Direction::Up));
    assert_eq!(flow, Control::Continue);
    assert_eq!(app.line_pos(), 1);
    assert_eq!(app.column_pos(), 1);
    assert!(matches!(app.mode(), Mode::Editing));
    assert_eq!(app.current_line(), "cd");
}

#[test]
fn horizontal_move_ignored_while_reading() {
    let mut app = loaded_two();
    let flow = apply_action(&mut app, Action::Move(Direction::Right));
    assert_eq!(flow, Control::Continue);
    assert_eq!(app.column_pos(), 0);
    assert_eq!(app.current_line(), "ab");
}

#[test]
fn character_edits_ignored_while_reading() {
    let mut app = loaded_two();
    apply_action(&mut app, Action::AddChar('X'));
    apply_action(&mut app, Action::RemoveChar);
    apply_action(&mut app, Action::AddLine);
    assert_eq!(app.current_line(), "ab");
    assert_eq!(app.lines_vec().len(), 2);
}

#[test]
fn dispatch_scenario_edit_and_commit() {
    let mut app = loaded_two();
    apply_action(&mut app, Action::ChangeMode(Mode::Editing));
    apply_action(&mut app, Action::AddChar('X'));
    apply_action(&mut app, Action::ChangeMode(Mode::Reading));
    assert_eq!(app.lines_vec()[0], "Xab");
    assert_eq!(app.lines_vec()[1], "cd");
}

#[test]
fn confirm_save_quits_with_save() {
    let mut app = loaded_two();
    apply_action(&mut app, Action::ChangeMode(Mode::Exiting));
    assert!(matches!(app.mode(), Mode::Exiting));
    let answer = handle_keyboard(InputEvent::KeyPress(Key::Char('Y')), app.mode());
    assert_eq!(answer, Action::Save);
    let flow = apply_action(&mut app, answer);
    assert_eq!(flow, Control::Quit { save: true });
    assert_eq!(app.save_text(), "ab\ncd\n");
}

#[test]
fn decline_save_quits_without_save() {
    let mut app = loaded_two();
    apply_action(&mut app, Action::ChangeMode(Mode::Exiting));
    let answer = handle_keyboard(InputEvent::KeyPress(Key::Char('n')), app.mode());
    assert_eq!(answer, Action::Exit);
    let flow = apply_action(&mut app, answer);
    assert_eq!(flow, Control::Quit { save: false });
}

#[test]
fn other_keys_ignored_under_exit_prompt() {
    let mut app = loaded_two();
    apply_action(&mut app, Action::ChangeMode(Mode::Exiting));
    let answer = handle_keyboard(InputEvent::KeyPress(Key::Esc), app.mode());
    assert_eq!(answer, Action::Ignore);
    let flow = apply_action(&mut app, answer);
    assert_eq!(flow, Control::Continue);
    assert!(matches!(app.mode(), Mode::Exiting));
}

#[test]
fn add_line_applies_while_editing() {
    let mut app = loaded_two();
    apply_action(&mut app, Action::ChangeMode(Mode::Editing));
    let flow = apply_action(&mut app, Action::AddLine);
    assert_eq!(flow, Control::Continue);
    assert_eq!(app.lines_vec().len(), 3);
    assert_eq!(app.lines_vec()[1], " ");
}
