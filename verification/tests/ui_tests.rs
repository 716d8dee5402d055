use checklist::types::{AppState, Task};
use checklist::ui::{
    apply_browse, apply_edit, browse_command, can_step, cursor_column, edit_command, info_columns,
    redraw, row_prefix, step, string_length_to_u16, uncompleted_count, BrowseCommand, EditCommand,
    Frame, KeyCode, KeyPress, Mode,
};

fn task(description: &str, level: usize, completed: bool) -> Task {
    Task { description: description.to_string(), level, completed }
}

fn key(code: KeyCode) -> KeyPress {
    KeyPress { code, control: false }
}

fn ctrl(code: KeyCode) -> KeyPress {
    KeyPress { code, control: true }
}

fn letter(c: char) -> KeyPress {
    key(KeyCode::Char(c))
}

fn three() -> Vec<Task> {
    vec![task("a", 0, false), task("b c", 1, true), task("d", 0, false)]
}

fn press(state: &mut AppState, mode: Mode, keys: &[KeyPress]) -> Mode {
    let mut mode = mode;
    for k in keys {
        assert!(can_step(state, &mode, *k));
        mode = step(state, mode, *k, 2);
    }
    mode
}

fn editing(mode: &Mode) -> (String, usize) {
    match mode {
        Mode::Editing(editor) => (editor.text(), editor.cursor()),
        _ => panic!("not editing"),
    }
}

#[test]
fn browsing_keys_are_bound_to_commands() {
    assert_eq!(browse_command(letter('s')), BrowseCommand::Save);
    assert_eq!(browse_command(letter('q')), BrowseCommand::Quit);
    assert_eq!(browse_command(letter('j')), BrowseCommand::SelectNext);
    assert_eq!(browse_command(key(KeyCode::Down)), BrowseCommand::SelectNext);
    assert_eq!(browse_command(letter('k')), BrowseCommand::SelectPrevious);
    assert_eq!(browse_command(key(KeyCode::Up)), BrowseCommand::SelectPrevious);
    assert_eq!(browse_command(ctrl(KeyCode::Char('j'))), BrowseCommand::MoveTaskDown);
    assert_eq!(browse_command(ctrl(KeyCode::Down)), BrowseCommand::MoveTaskDown);
    assert_eq!(browse_command(ctrl(KeyCode::Char('k'))), BrowseCommand::MoveTaskUp);
    assert_eq!(browse_command(ctrl(KeyCode::Up)), BrowseCommand::MoveTaskUp);
    assert_eq!(browse_command(letter(' ')), BrowseCommand::ToggleCompleted);
    assert_eq!(browse_command(letter('d')), BrowseCommand::DeleteSelected);
    assert_eq!(browse_command(letter('i')), BrowseCommand::InsertAfterSelected);
    assert_eq!(browse_command(letter('e')), BrowseCommand::EditSelected);
    assert_eq!(browse_command(key(KeyCode::Tab)), BrowseCommand::Indent);
    assert_eq!(browse_command(key(KeyCode::BackTab)), BrowseCommand::Outdent);
    assert_eq!(browse_command(key(KeyCode::Home)), BrowseCommand::JumpToStart);
    assert_eq!(browse_command(key(KeyCode::End)), BrowseCommand::JumpToEnd);
    assert_eq!(browse_command(ctrl(KeyCode::Char('s'))), BrowseCommand::Save);
    assert_eq!(browse_command(letter('x')), BrowseCommand::Nothing);
    assert_eq!(browse_command(letter('S')), BrowseCommand::Nothing);
    assert_eq!(browse_command(key(KeyCode::Enter)), BrowseCommand::Nothing);
    assert_eq!(browse_command(key(KeyCode::Esc)), BrowseCommand::Nothing);
    assert_eq!(browse_command(key(KeyCode::Left)), BrowseCommand::Nothing);
    assert_eq!(browse_command(key(KeyCode::Other)), BrowseCommand::Nothing);
}

#[test]
fn editing_keys_are_bound_to_commands() {
    assert_eq!(edit_command(letter('s')), EditCommand::Insert('s'));
    assert_eq!(edit_command(ctrl(KeyCode::Char('q'))), EditCommand::Insert('q'));
    assert_eq!(edit_command(key(KeyCode::Left)), EditCommand::CursorLeft { by_word: false });
    assert_eq!(edit_command(ctrl(KeyCode::Left)), EditCommand::CursorLeft { by_word: true });
    assert_eq!(edit_command(key(KeyCode::Right)), EditCommand::CursorRight { by_word: false });
    assert_eq!(edit_command(ctrl(KeyCode::Right)), EditCommand::CursorRight { by_word: true });
    assert_eq!(edit_command(key(KeyCode::Backspace)), EditCommand::DeleteBackward);
    assert_eq!(edit_command(key(KeyCode::Delete)), EditCommand::DeleteForward);
    assert_eq!(edit_command(key(KeyCode::Home)), EditCommand::Home);
    assert_eq!(edit_command(key(KeyCode::End)), EditCommand::End);
    assert_eq!(edit_command(key(KeyCode::Enter)), EditCommand::Commit);
    assert_eq!(edit_command(key(KeyCode::Esc)), EditCommand::Cancel);
    assert_eq!(edit_command(key(KeyCode::Tab)), EditCommand::Nothing);
    assert_eq!(edit_command(key(KeyCode::Up)), EditCommand::Nothing);
    assert_eq!(edit_command(key(KeyCode::Other)), EditCommand::Nothing);
}

#[test]
fn save_and_quit_end_the_session() {
    let mut state = AppState::new(three());
    assert!(matches!(step(&mut state, Mode::Browsing, letter('s'), 5), Mode::Exiting { save: true }));
    assert!(matches!(step(&mut state, Mode::Browsing, letter('q'), 5), Mode::Exiting { save: false }));
    assert_eq!(state, AppState::new(three()));
}

#[test]
fn exit_mode_is_final() {
    let mut state = AppState::new(three());
    for k in [letter('d'), letter('i'), key(KeyCode::Tab), letter('q'), key(KeyCode::Enter)] {
        assert!(matches!(step(&mut state, Mode::Exiting { save: true }, k, 5), Mode::Exiting { save: true }));
        assert!(matches!(step(&mut state, Mode::Exiting { save: false }, k, 5), Mode::Exiting { save: false }));
    }
    assert_eq!(state, AppState::new(three()));
}

#[test]
fn browsing_keys_change_the_list() {
    let mut state = AppState::new(three());
    let mode = press(
        &mut state,
        Mode::Browsing,
        &[letter('j'), letter(' '), key(KeyCode::Tab), ctrl(KeyCode::Down), key(KeyCode::Home), letter('d')],
    );
    assert!(matches!(mode, Mode::Browsing));
    assert_eq!(state.tasks, vec![task("d", 0, false), task("b c", 2, false)]);
    assert_eq!(state.selected_index, 0);
    assert!(state.changed);
}

#[test]
fn navigation_leaves_the_list_clean() {
    let mut state = AppState::new(three());
    let mode = press(
        &mut state,
        Mode::Browsing,
        &[letter('j'), key(KeyCode::Down), letter('k'), key(KeyCode::End), key(KeyCode::Up), key(KeyCode::Home), letter('z')],
    );
    assert!(matches!(mode, Mode::Browsing));
    assert_eq!(state, AppState::new(three()));
}

#[test]
fn insert_enters_an_editing_session_on_the_new_task() {
    let mut state = AppState::new(three());
    let mode = press(&mut state, Mode::Browsing, &[letter('j'), letter('i')]);
    assert_eq!(editing(&mode), (String::new(), 0));
    assert_eq!(state.tasks[2], task("", 1, false));
    assert_eq!(state.selected_index, 2);
    let mode = press(&mut state, mode, &[letter('h'), letter('i'), key(KeyCode::Enter)]);
    assert!(matches!(mode, Mode::Browsing));
    assert_eq!(state.tasks[2], task("hi", 1, false));
    assert!(state.changed);
}

#[test]
fn cancelled_insert_leaves_the_blank_task_and_the_list_changed() {
    let mut state = AppState::new(Vec::new());
    let mode = press(&mut state, Mode::Browsing, &[letter('i'), letter('x'), key(KeyCode::Esc)]);
    assert!(matches!(mode, Mode::Browsing));
    assert_eq!(state.tasks, vec![task("", 0, false)]);
    assert!(state.changed);
}

#[test]
fn edit_key_does_nothing_on_an_empty_list() {
    let mut state = AppState::new(Vec::new());
    let mode = press(&mut state, Mode::Browsing, &[letter('e')]);
    assert!(matches!(mode, Mode::Browsing));
    assert_eq!(state, AppState::new(Vec::new()));
}

#[test]
fn editing_keys_change_the_text() {
    let mut state = AppState::new(three());
    let mode = press(&mut state, Mode::Browsing, &[letter('j'), letter('e')]);
    assert_eq!(editing(&mode), ("b c".to_string(), 3));
    assert!(!state.changed);
    let mode = press(&mut state, mode, &[ctrl(KeyCode::Left)]);
    assert_eq!(editing(&mode), ("b c".to_string(), 1));
    assert!(state.changed);
    let mode = press(
        &mut state,
        mode,
        &[letter('s'), key(KeyCode::Delete), letter('q'), key(KeyCode::Home), letter(' '), key(KeyCode::End), key(KeyCode::Backspace), key(KeyCode::Left), key(KeyCode::Right), ctrl(KeyCode::Right), key(KeyCode::Up)],
    );
    assert_eq!(editing(&mode), (" bsq".to_string(), 4));
    assert_eq!(state.tasks, three());
    let mode = press(&mut state, mode, &[key(KeyCode::Enter)]);
    assert!(matches!(mode, Mode::Browsing));
    assert_eq!(state.tasks[1], task(" bsq", 1, true));
    assert!(state.changed);
}

#[test]
fn edit_without_a_change_leaves_the_list_clean() {
    let mut state = AppState::new(three());
    let mode = press(&mut state, Mode::Browsing, &[letter('e'), key(KeyCode::Enter)]);
    assert!(matches!(mode, Mode::Browsing));
    assert_eq!(state, AppState::new(three()));
    let mode = press(
        &mut state,
        mode,
        &[letter('j'), letter('e'), key(KeyCode::Left), ctrl(KeyCode::Left), key(KeyCode::Home), ctrl(KeyCode::Right), key(KeyCode::End), key(KeyCode::Tab), key(KeyCode::Enter)],
    );
    assert!(matches!(mode, Mode::Browsing));
    assert!(!state.changed);
    assert_eq!(state.tasks, three());
}

#[test]
fn text_typed_and_removed_again_leaves_the_list_clean() {
    let mut state = AppState::new(three());
    let mode = press(&mut state, Mode::Browsing, &[letter('e'), letter('x'), key(KeyCode::Backspace), key(KeyCode::Enter)]);
    assert!(matches!(mode, Mode::Browsing));
    assert!(!state.changed);
}

#[test]
fn cancelled_edit_restores_the_flag() {
    let mut state = AppState::new(three());
    let mode = press(&mut state, Mode::Browsing, &[letter('e'), letter('x'), letter('y')]);
    assert!(state.changed);
    let mode = press(&mut state, mode, &[key(KeyCode::Esc)]);
    assert!(matches!(mode, Mode::Browsing));
    assert_eq!(state, AppState::new(three()));
    let mode = press(&mut state, mode, &[letter(' '), letter('e'), letter('x'), key(KeyCode::Esc)]);
    assert!(matches!(mode, Mode::Browsing));
    assert!(state.changed);
    assert_eq!(state.tasks[0], task("a", 0, true));
}

#[test]
fn commands_can_be_applied_directly() {
    let mut state = AppState::new(three());
    assert!(matches!(apply_browse(&mut state, BrowseCommand::JumpToEnd, 2), Mode::Browsing));
    assert_eq!((state.selected_index, state.offsetY), (2, 1));
    let mode = apply_browse(&mut state, BrowseCommand::EditSelected, 2);
    let editor = match mode {
        Mode::Editing(editor) => editor,
        _ => panic!("not editing"),
    };
    let mode = apply_edit(&mut state, editor, EditCommand::Insert('!'));
    assert_eq!(editing(&mode), ("d!".to_string(), 2));
    assert!(state.changed);
}

#[test]
fn indent_is_refused_only_when_the_level_is_full() {
    let mut state = AppState::new(vec![task("a", usize::MAX, false), task("b", usize::MAX - 1, false)]);
    assert!(!can_step(&state, &Mode::Browsing, key(KeyCode::Tab)));
    assert!(can_step(&state, &Mode::Browsing, key(KeyCode::BackTab)));
    assert!(can_step(&state, &Mode::Browsing, letter('j')));
    assert!(can_step(&state, &Mode::Exiting { save: true }, key(KeyCode::Tab)));
    let editor = state.begin_edit().unwrap();
    assert!(can_step(&state, &Mode::Editing(editor), key(KeyCode::Tab)));
    state.move_selection(1, 5);
    assert!(can_step(&state, &Mode::Browsing, key(KeyCode::Tab)));
    assert!(can_step(&AppState::new(Vec::new()), &Mode::Browsing, key(KeyCode::Tab)));
}

#[test]
fn frame_shows_the_window_around_the_selection() {
    let tasks: Vec<Task> = (0..10).map(|i| task("t", 0, i % 4 == 0)).collect();
    let mut state = AppState::new(tasks);
    state.changed = true;
    state.selected_index = 7;
    let frame = redraw(&mut state, 3);
    assert_eq!(
        frame,
        Frame { first: 5, end: 8, selected_row: Some(2), uncompleted: 7, changed: true, empty: false }
    );
    assert_eq!(state.offsetY, 5);
    state.selected_index = 2;
    let frame = redraw(&mut state, 3);
    assert_eq!((frame.first, frame.end, frame.selected_row), (2, 5, Some(0)));
    let frame = redraw(&mut state, 100);
    assert_eq!((frame.first, frame.end, frame.selected_row), (2, 10, Some(0)));
    let frame = redraw(&mut state, 0);
    assert_eq!((frame.first, frame.end, frame.selected_row), (2, 2, None));
}

#[test]
fn frame_of_an_empty_list_shows_the_notice() {
    let mut state = AppState::new(Vec::new());
    let frame = redraw(&mut state, 5);
    assert_eq!(
        frame,
        Frame { first: 0, end: 0, selected_row: None, uncompleted: 0, changed: false, empty: true }
    );
}

#[test]
fn selection_is_shown_after_every_key() {
    let keys = [
        letter('j'), letter('j'), letter('i'), letter('x'), key(KeyCode::Enter), letter('i'),
        key(KeyCode::Esc), letter('i'), key(KeyCode::Enter), key(KeyCode::End), letter('d'),
        letter('d'), ctrl(KeyCode::Up), ctrl(KeyCode::Up), ctrl(KeyCode::Up), key(KeyCode::End),
        letter('i'), key(KeyCode::Enter), letter('i'), key(KeyCode::Enter), key(KeyCode::Home),
        ctrl(KeyCode::Down), ctrl(KeyCode::Down), ctrl(KeyCode::Down), ctrl(KeyCode::Down),
        letter('d'), letter('d'), letter('d'), letter('d'), letter('d'), letter('d'), letter('d'),
    ];
    for height in 1..4 {
        let mut state = AppState::new(three());
        let mut mode = Mode::Browsing;
        for k in keys {
            mode = step(&mut state, mode, k, height);
            let frame = redraw(&mut state, height);
            if state.tasks.is_empty() {
                assert!(frame.empty);
                assert_eq!(frame.selected_row, None);
            } else {
                assert!(state.selected_index < state.tasks.len());
                assert!(state.offsetY <= state.selected_index);
                assert!(state.selected_index <= state.offsetY + height - 1);
                assert_eq!(frame.selected_row, Some(state.selected_index - state.offsetY));
                assert!(frame.end - frame.first <= height);
            }
        }
    }
}

#[test]
fn counts_the_open_tasks() {
    assert_eq!(uncompleted_count(&Vec::new()), 0);
    assert_eq!(uncompleted_count(&three()), 2);
    assert_eq!(uncompleted_count(&vec![task("a", 0, true), task("b", 0, true)]), 0);
}

#[test]
fn row_prefix_is_the_box_and_the_indent() {
    assert_eq!(row_prefix(&task("a", 0, false)), "[ ] ");
    assert_eq!(row_prefix(&task("a", 0, true)), "[x] ");
    assert_eq!(row_prefix(&task("a", 2, true)), "[x]     ");
}

#[test]
fn cursor_column_is_behind_the_box_and_the_indent() {
    assert_eq!(cursor_column(0, 0), Some(4));
    assert_eq!(cursor_column(2, 3), Some(11));
    assert_eq!(cursor_column(0, 65531), Some(65535));
    assert_eq!(cursor_column(0, 65532), None);
    assert_eq!(cursor_column(32765, 1), Some(65535));
    assert_eq!(cursor_column(32766, 0), None);
    assert_eq!(cursor_column(usize::MAX, usize::MAX), None);
}

#[test]
fn string_length_is_counted_in_bytes() {
    assert_eq!(string_length_to_u16(""), Some(0));
    assert_eq!(string_length_to_u16(" [CHANGED] "), Some(11));
    assert_eq!(string_length_to_u16("é☕"), Some(5));
    assert_eq!(string_length_to_u16(&"a".repeat(65535)), Some(65535));
    assert_eq!(string_length_to_u16(&"a".repeat(65536)), None);
}

#[test]
fn status_line_is_laid_out_from_the_right() {
    assert_eq!(info_columns(80, 16, 11), Some((64, 53)));
    assert_eq!(info_columns(27, 16, 11), Some((11, 0)));
    assert_eq!(info_columns(26, 16, 11), None);
    assert_eq!(info_columns(10, 16, 0), None);
    assert_eq!(info_columns(0, 0, 0), Some((0, 0)));
    assert_eq!(info_columns(65535, 65535, 1), None);
}
