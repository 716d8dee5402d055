//! The key dispatch and what a frame shows.
//!
//! The editor is a state machine with three modes. While browsing, a key selects an
//! operation on the list; while editing, it selects an operation on the line editor; and in
//! the exit mode nothing happens any more. The caller owns the terminal: it reads a key,
//! hands it to [`step`], asks [`redraw`] what to show, and draws it.

use crate::constants::{lemma_level_indentation, INDENT_WIDTH, LEVEL_INDENTATION};
use crate::editor::{EditorView, LineEditor};
use crate::parser::{checkbox_mark, indentation, spaces};
use crate::types::{AppState, AppStateView, Task, TaskView};
use vstd::prelude::*;
use vstd::string::{StringExecFns, StringSliceAdditionalSpecFns};

verus! {

/// The key that was pressed.
#[derive(Clone, Copy, Debug, PartialEq, Eq)]
pub enum KeyCode {
    Char(char),
    Up,
    Down,
    Left,
    Right,
    Home,
    End,
    Tab,
    BackTab,
    Backspace,
    Delete,
    Enter,
    Esc,
    Other,
}

/// A key together with the state of the control key.
#[derive(Clone, Copy, Debug, PartialEq, Eq)]
pub struct KeyPress {
    pub code: KeyCode,
    /// The control key, and no other modifier, was held.
    pub control: bool,
}

/// What a key asks for while browsing.
#[derive(Clone, Copy, Debug, PartialEq, Eq)]
pub enum BrowseCommand {
    Save,
    Quit,
    SelectNext,
    SelectPrevious,
    MoveTaskDown,
    MoveTaskUp,
    ToggleCompleted,
    DeleteSelected,
    InsertAfterSelected,
    EditSelected,
    Indent,
    Outdent,
    JumpToStart,
    JumpToEnd,
    Nothing,
}

/// What a key asks for while editing.
#[derive(Clone, Copy, Debug, PartialEq, Eq)]
pub enum EditCommand {
    Insert(char),
    DeleteBackward,
    DeleteForward,
    CursorLeft { by_word: bool },
    CursorRight { by_word: bool },
    Home,
    End,
    Commit,
    Cancel,
    Nothing,
}

/// The mode of the editor.
pub enum Mode {
    /// Keys act on the list.
    Browsing,
    /// Keys act on the description of the selected task.
    Editing(LineEditor),
    /// The session is over; `save` tells whether the list is to be written.
    Exiting { save: bool },
}

/// The mode as plain mathematical values.
pub enum ModeView {
    Browsing,
    Editing(EditorView),
    Exiting { save: bool },
}

impl View for Mode {
    type V = ModeView;

    open spec fn view(&self) -> ModeView {
        match self {
            Mode::Browsing => ModeView::Browsing,
            Mode::Editing(editor) => ModeView::Editing(editor@),
            Mode::Exiting { save } => ModeView::Exiting { save: *save },
        }
    }
}

/// The key bindings while browsing. With the control key, the keys that move the selection
/// down or up move the selected task instead.
pub open spec fn browse_binding(key: KeyPress) -> BrowseCommand {
    match key.code {
        KeyCode::Char(c) => if c == 's' {
            BrowseCommand::Save
        } else if c == 'q' {
            BrowseCommand::Quit
        } else if c == 'j' {
            if key.control {
                BrowseCommand::MoveTaskDown
            } else {
                BrowseCommand::SelectNext
            }
        } else if c == 'k' {
            if key.control {
                BrowseCommand::MoveTaskUp
            } else {
                BrowseCommand::SelectPrevious
            }
        } else if c == ' ' {
            BrowseCommand::ToggleCompleted
        } else if c == 'd' {
            BrowseCommand::DeleteSelected
        } else if c == 'i' {
            BrowseCommand::InsertAfterSelected
        } else if c == 'e' {
            BrowseCommand::EditSelected
        } else {
            BrowseCommand::Nothing
        },
        KeyCode::Down => if key.control {
            BrowseCommand::MoveTaskDown
        } else {
            BrowseCommand::SelectNext
        },
        KeyCode::Up => if key.control {
            BrowseCommand::MoveTaskUp
        } else {
            BrowseCommand::SelectPrevious
        },
        KeyCode::Tab => BrowseCommand::Indent,
        KeyCode::BackTab => BrowseCommand::Outdent,
        KeyCode::Home => BrowseCommand::JumpToStart,
        KeyCode::End => BrowseCommand::JumpToEnd,
        _ => BrowseCommand::Nothing,
    }
}

/// The key bindings while editing. With the control key, the arrows move by words.
pub open spec fn edit_binding(key: KeyPress) -> EditCommand {
    match key.code {
        KeyCode::Char(c) => EditCommand::Insert(c),
        KeyCode::Left => EditCommand::CursorLeft { by_word: key.control },
        KeyCode::Right => EditCommand::CursorRight { by_word: key.control },
        KeyCode::Backspace => EditCommand::DeleteBackward,
        KeyCode::Delete => EditCommand::DeleteForward,
        KeyCode::Home => EditCommand::Home,
        KeyCode::End => EditCommand::End,
        KeyCode::Enter => EditCommand::Commit,
        KeyCode::Esc => EditCommand::Cancel,
        _ => EditCommand::Nothing,
    }
}

/// The state with an editing session on the selected task, or in browsing mode when no task
/// is selected.
pub open spec fn enter_edit(state: AppStateView) -> (AppStateView, ModeView) {
    match state.begin_edit() {
        Some(editor) => (state, ModeView::Editing(editor)),
        None => (state, ModeView::Browsing),
    }
}

/// The state and mode after `command` in browsing mode.
pub open spec fn browse(state: AppStateView, command: BrowseCommand, viewport_height: nat) -> (
    AppStateView,
    ModeView,
) {
    match command {
        BrowseCommand::Save => (state, ModeView::Exiting { save: true }),
        BrowseCommand::Quit => (state, ModeView::Exiting { save: false }),
        BrowseCommand::SelectNext => (state.move_selection(1, viewport_height), ModeView::Browsing),
        BrowseCommand::SelectPrevious => (
            state.move_selection(-1, viewport_height),
            ModeView::Browsing,
        ),
        BrowseCommand::MoveTaskDown => (state.move_task_down(viewport_height), ModeView::Browsing),
        BrowseCommand::MoveTaskUp => (state.move_task_up(viewport_height), ModeView::Browsing),
        BrowseCommand::ToggleCompleted => (state.toggle_completed(), ModeView::Browsing),
        BrowseCommand::DeleteSelected => (state.delete_selected(), ModeView::Browsing),
        BrowseCommand::InsertAfterSelected => enter_edit(state.insert_after_selected()),
        BrowseCommand::EditSelected => enter_edit(state),
        BrowseCommand::Indent => (state.indent(), ModeView::Browsing),
        BrowseCommand::Outdent => (state.outdent(), ModeView::Browsing),
        BrowseCommand::JumpToStart => (state.jump_to_start(viewport_height), ModeView::Browsing),
        BrowseCommand::JumpToEnd => (state.jump_to_end(viewport_height), ModeView::Browsing),
        BrowseCommand::Nothing => (state, ModeView::Browsing),
    }
}

/// The state and mode after `command` in an editing session. Every key marks the list as
/// changed; confirming or giving up the session then settles the flag.
pub open spec fn edit(state: AppStateView, editor: EditorView, command: EditCommand) -> (
    AppStateView,
    ModeView,
) {
    let touched = state.mark_dirty();
    match command {
        EditCommand::Commit => (touched.commit_edit(editor), ModeView::Browsing),
        EditCommand::Cancel => (touched.cancel_edit(editor), ModeView::Browsing),
        EditCommand::Insert(c) => (touched, ModeView::Editing(editor.insert(c))),
        EditCommand::DeleteBackward => (touched, ModeView::Editing(editor.delete_backward())),
        EditCommand::DeleteForward => (touched, ModeView::Editing(editor.delete_forward())),
        EditCommand::CursorLeft { by_word } => (
            touched,
            ModeView::Editing(editor.cursor_left(by_word)),
        ),
        EditCommand::CursorRight { by_word } => (
            touched,
            ModeView::Editing(editor.cursor_right(by_word)),
        ),
        EditCommand::Home => (touched, ModeView::Editing(editor.home())),
        EditCommand::End => (touched, ModeView::Editing(editor.end())),
        EditCommand::Nothing => (touched, ModeView::Editing(editor)),
    }
}

/// The state and mode after `key`. The exit mode is final.
pub open spec fn transition(
    state: AppStateView,
    mode: ModeView,
    key: KeyPress,
    viewport_height: nat,
) -> (AppStateView, ModeView) {
    match mode {
        ModeView::Browsing => browse(state, browse_binding(key), viewport_height),
        ModeView::Editing(editor) => edit(state, editor, edit_binding(key)),
        ModeView::Exiting { save } => (state, mode),
    }
}

/// The level counter of the selected task has room for the step that `key` asks for. Only
/// indenting needs room.
pub open spec fn step_fits(state: AppStateView, mode: ModeView, key: KeyPress) -> bool {
    mode is Browsing && browse_binding(key) is Indent && state.has_selection()
        ==> state.selected_task().level < usize::MAX
}

/// The command that `key` stands for while browsing.
pub fn browse_command(key: KeyPress) -> (command: BrowseCommand)
    ensures
        command == browse_binding(key),
{
    match key.code {
        KeyCode::Char(c) => {
            if c == 's' {
                BrowseCommand::Save
            } else if c == 'q' {
                BrowseCommand::Quit
            } else if c == 'j' {
                if key.control {
                    BrowseCommand::MoveTaskDown
                } else {
                    BrowseCommand::SelectNext
                }
            } else if c == 'k' {
                if key.control {
                    BrowseCommand::MoveTaskUp
                } else {
                    BrowseCommand::SelectPrevious
                }
            } else if c == ' ' {
                BrowseCommand::ToggleCompleted
            } else if c == 'd' {
                BrowseCommand::DeleteSelected
            } else if c == 'i' {
                BrowseCommand::InsertAfterSelected
            } else if c == 'e' {
                BrowseCommand::EditSelected
            } else {
                BrowseCommand::Nothing
            }
        },
        KeyCode::Down => {
            if key.control {
                BrowseCommand::MoveTaskDown
            } else {
                BrowseCommand::SelectNext
            }
        },
        KeyCode::Up => {
            if key.control {
                BrowseCommand::MoveTaskUp
            } else {
                BrowseCommand::SelectPrevious
            }
        },
        KeyCode::Tab => BrowseCommand::Indent,
        KeyCode::BackTab => BrowseCommand::Outdent,
        KeyCode::Home => BrowseCommand::JumpToStart,
        KeyCode::End => BrowseCommand::JumpToEnd,
        _ => BrowseCommand::Nothing,
    }
}

/// The command that `key` stands for while editing.
pub fn edit_command(key: KeyPress) -> (command: EditCommand)
    ensures
        command == edit_binding(key),
{
    match key.code {
        KeyCode::Char(c) => EditCommand::Insert(c),
        KeyCode::Left => EditCommand::CursorLeft { by_word: key.control },
        KeyCode::Right => EditCommand::CursorRight { by_word: key.control },
        KeyCode::Backspace => EditCommand::DeleteBackward,
        KeyCode::Delete => EditCommand::DeleteForward,
        KeyCode::Home => EditCommand::Home,
        KeyCode::End => EditCommand::End,
        KeyCode::Enter => EditCommand::Commit,
        KeyCode::Esc => EditCommand::Cancel,
        _ => EditCommand::Nothing,
    }
}

/// Tells whether [`step`] may be called with this state, mode and key.
pub fn can_step(state: &AppState, mode: &Mode, key: KeyPress) -> (fits: bool)
    ensures
        fits == step_fits(state@, mode@, key),
{
    match mode {
        Mode::Browsing => match browse_command(key) {
            BrowseCommand::Indent => {
                let at: usize = state.selected_index;
                !(at < state.tasks.len()) || state.tasks[at].level < usize::MAX
            },
            _ => true,
        },
        _ => true,
    }
}

/// Starts an editing session on the selected task, if there is one.
fn begin_session(state: &AppState) -> (mode: Mode)
    ensures
        (state@, mode@) == enter_edit(state@),
{
    match state.begin_edit() {
        Some(editor) => Mode::Editing(editor),
        None => Mode::Browsing,
    }
}

/// Carries out `command` in browsing mode.
pub fn apply_browse(state: &mut AppState, command: BrowseCommand, viewport_height: usize) -> (next:
    Mode)
    requires
        command is Indent && old(state)@.has_selection() ==> old(state)@.selected_task().level
            < usize::MAX,
    ensures
        (final(state)@, next@) == browse(old(state)@, command, viewport_height as nat),
{
    match command {
        BrowseCommand::Save => Mode::Exiting { save: true },
        BrowseCommand::Quit => Mode::Exiting { save: false },
        BrowseCommand::SelectNext => {
            state.move_selection(1, viewport_height);
            Mode::Browsing
        },
        BrowseCommand::SelectPrevious => {
            state.move_selection(-1, viewport_height);
            Mode::Browsing
        },
        BrowseCommand::MoveTaskDown => {
            state.move_task_down(viewport_height);
            Mode::Browsing
        },
        BrowseCommand::MoveTaskUp => {
            state.move_task_up(viewport_height);
            Mode::Browsing
        },
        BrowseCommand::ToggleCompleted => {
            state.toggle_completed();
            Mode::Browsing
        },
        BrowseCommand::DeleteSelected => {
            state.delete_selected();
            Mode::Browsing
        },
        BrowseCommand::InsertAfterSelected => {
            state.insert_after_selected();
            begin_session(state)
        },
        BrowseCommand::EditSelected => begin_session(state),
        BrowseCommand::Indent => {
            state.indent();
            Mode::Browsing
        },
        BrowseCommand::Outdent => {
            state.outdent();
            Mode::Browsing
        },
        BrowseCommand::JumpToStart => {
            state.jump_to_start(viewport_height);
            Mode::Browsing
        },
        BrowseCommand::JumpToEnd => {
            state.jump_to_end(viewport_height);
            Mode::Browsing
        },
        BrowseCommand::Nothing => Mode::Browsing,
    }
}

/// Carries out `command` in an editing session.
pub fn apply_edit(state: &mut AppState, editor: LineEditor, command: EditCommand) -> (next: Mode)
    ensures
        (final(state)@, next@) == edit(old(state)@, editor@, command),
{
    state.mark_dirty();
    match command {
        EditCommand::Commit => {
            state.commit_edit(editor);
            Mode::Browsing
        },
        EditCommand::Cancel => {
            state.cancel_edit(editor);
            Mode::Browsing
        },
        EditCommand::Insert(c) => Mode::Editing(editor.insert(c)),
        EditCommand::DeleteBackward => Mode::Editing(editor.delete_backward()),
        EditCommand::DeleteForward => Mode::Editing(editor.delete_forward()),
        EditCommand::CursorLeft { by_word } => Mode::Editing(editor.cursor_left(by_word)),
        EditCommand::CursorRight { by_word } => Mode::Editing(editor.cursor_right(by_word)),
        EditCommand::Home => Mode::Editing(editor.home()),
        EditCommand::End => Mode::Editing(editor.end()),
        EditCommand::Nothing => Mode::Editing(editor),
    }
}

/// Handles one key: changes the state as the key asks in the given mode and returns the
/// mode to go on in.
pub fn step(state: &mut AppState, mode: Mode, key: KeyPress, viewport_height: usize) -> (next: Mode)
    requires
        step_fits(old(state)@, mode@, key),
    ensures
        (final(state)@, next@) == transition(old(state)@, mode@, key, viewport_height as nat),
{
    match mode {
        Mode::Browsing => apply_browse(state, browse_command(key), viewport_height),
        Mode::Editing(editor) => apply_edit(state, editor, edit_command(key)),
        Mode::Exiting { save } => Mode::Exiting { save },
    }
}

/// The tasks whose box is not ticked.
pub open spec fn is_open() -> spec_fn(TaskView) -> bool {
    |task: TaskView| !task.completed
}

/// The number of tasks whose box is not ticked.
pub open spec fn uncompleted(tasks: Seq<TaskView>) -> nat {
    tasks.filter(is_open()).len()
}

/// The index of the first task in the window.
pub open spec fn window_start(state: AppStateView) -> nat {
    if state.scroll_offset <= state.tasks.len() {
        state.scroll_offset
    } else {
        state.tasks.len()
    }
}

/// The index after the last task in a window of `viewport_height` rows.
pub open spec fn window_end(state: AppStateView, viewport_height: nat) -> nat {
    if state.scroll_offset + viewport_height <= state.tasks.len() {
        state.scroll_offset + viewport_height
    } else {
        state.tasks.len()
    }
}

/// What one frame shows.
#[derive(Clone, Copy, Debug, PartialEq, Eq)]
pub struct Frame {
    /// The index of the first task shown.
    pub first: usize,
    /// The index after the last task shown.
    pub end: usize,
    /// The row of the selected task, counted from the first row shown, if it is shown.
    pub selected_row: Option<usize>,
    /// The number of tasks whose box is not ticked.
    pub uncompleted: usize,
    /// Whether there are unsaved changes.
    pub changed: bool,
    /// Whether the list is empty, so that a notice is shown in its place.
    pub empty: bool,
}

/// Counts the tasks whose box is not ticked.
pub fn uncompleted_count(tasks: &Vec<Task>) -> (count: usize)
    ensures
        count == uncompleted(crate::types::task_views(tasks@)),
{
    let ghost all = crate::types::task_views(tasks@);
    let mut count: usize = 0;
    for i in 0..tasks.len()
        invariant
            all == crate::types::task_views(tasks@),
            count == uncompleted(all.take(i as int)),
            count <= i,
    {
        assert(all.take(i + 1).drop_last() =~= all.take(i as int));
        reveal(Seq::filter);
        if !tasks[i].completed {
            count += 1;
        }
    }
    assert(all.take(tasks@.len() as int) =~= all);
    count
}

/// Prepares a frame for a window of `viewport_height` rows: scrolls so that the selected
/// task is shown, and reports which tasks are in the window and what the status line says.
pub fn redraw(state: &mut AppState, viewport_height: usize) -> (frame: Frame)
    ensures
        final(state)@ == old(state)@.scroll_to_selection(viewport_height as nat),
        viewport_height >= 1 ==> final(state)@.selection_visible(viewport_height as nat),
        frame.first == window_start(final(state)@),
        frame.end == window_end(final(state)@, viewport_height as nat),
        frame.first <= frame.end <= final(state)@.tasks.len(),
        frame.selected_row == (if frame.first <= final(state)@.selected_index < frame.end {
            Some((final(state)@.selected_index - frame.first) as usize)
        } else {
            None
        }),
        frame.uncompleted == uncompleted(final(state)@.tasks),
        frame.changed == final(state)@.changed,
        frame.empty == (final(state)@.tasks.len() == 0),
{
    state.scroll_to_selection(viewport_height);
    let len: usize = state.tasks.len();
    let first: usize = if state.offsetY <= len { state.offsetY } else { len };
    let end: usize = if viewport_height <= len - first { first + viewport_height } else { len };
    let selected_row: Option<usize> = if first <= state.selected_index && state.selected_index
        < end {
        Some(state.selected_index - first)
    } else {
        None
    };
    Frame {
        first,
        end,
        selected_row,
        uncompleted: uncompleted_count(&state.tasks),
        changed: state.changed,
        empty: len == 0,
    }
}

/// What stands before the description in the row of `task`: the box and the indent.
pub open spec fn row_prefix_of(task: TaskView) -> Seq<char> {
    seq!['[', checkbox_mark(task.completed), ']', ' '] + indentation(task.level)
}

/// The text that stands before the description in the row of `task`.
pub fn row_prefix(task: &Task) -> (prefix: String)
    ensures
        prefix@ == row_prefix_of(task@),
{
    let mut prefix = String::new();
    prefix.push('[');
    prefix.push(if task.completed { 'x' } else { ' ' });
    prefix.push(']');
    prefix.push(' ');
    let ghost before = prefix@;
    let mut column: usize = 0;
    while column < task.level
        invariant
            column <= task.level,
            prefix@ == before + spaces(INDENT_WIDTH as nat * column as nat),
        decreases task.level - column,
    {
        prefix.append(LEVEL_INDENTATION);
        column += 1;
        assert(prefix@ =~= before + spaces(INDENT_WIDTH as nat * column as nat)) by {
            lemma_level_indentation();
        }
    }
    prefix
}

/// The width of the box and the space after it.
pub const BOX_WIDTH: usize = 4;

/// The column of the cursor in the row of a task at `level` whose description is being
/// edited, `cursor` characters in. There is none when the column does not fit.
pub fn cursor_column(level: usize, cursor: usize) -> (column: Option<u16>)
    ensures
        column == (if BOX_WIDTH + INDENT_WIDTH * level + cursor <= u16::MAX {
            Some((BOX_WIDTH + INDENT_WIDTH * level + cursor) as u16)
        } else {
            None
        }),
{
    let indent: u128 = level as u128 + level as u128;
    let column: u128 = BOX_WIDTH as u128 + indent + cursor as u128;
    if column <= u16::MAX as u128 {
        Some(column as u16)
    } else {
        None
    }
}

/// The length of `s` in bytes, if it fits in sixteen bits.
pub fn string_length_to_u16(s: &str) -> (length: Option<u16>)
    ensures
        length == (if s.spec_bytes().len() <= u16::MAX {
            Some(s.spec_bytes().len() as u16)
        } else {
            None
        }),
{
    let length: usize = s.as_bytes().len();
    if length <= u16::MAX as usize {
        Some(length as u16)
    } else {
        None
    }
}

/// The columns at which the two parts of the status line start in a row of `width`
/// columns: first that of the counter, which ends at the right edge, then that of the
/// change label, which ends where the counter starts. There are none when the row is too
/// narrow for both.
pub fn info_columns(width: u16, counter_length: u16, label_length: u16) -> (columns: Option<
    (u16, u16),
>)
    ensures
        columns == (if counter_length + label_length <= width {
            Some(((width - counter_length) as u16, (width - counter_length - label_length) as u16))
        } else {
            None
        }),
{
    if counter_length <= width && label_length <= width - counter_length {
        Some((width - counter_length, width - counter_length - label_length))
    } else {
        None
    }
}

/// After any key, in any mode, the next frame shows the selected task, provided the window
/// has at least one row.
pub proof fn lemma_selection_shown_after_step(
    state: AppStateView,
    mode: ModeView,
    key: KeyPress,
    viewport_height: nat,
)
    requires
        viewport_height >= 1,
    ensures
        transition(state, mode, key, viewport_height).0.scroll_to_selection(
            viewport_height,
        ).selection_visible(viewport_height),
{
}

/// A step keeps a well-formed state well-formed and the cursor of a session within its
/// text.
pub proof fn lemma_step_keeps_invariants(
    state: AppStateView,
    mode: ModeView,
    key: KeyPress,
    viewport_height: nat,
)
    requires
        state.wf(),
        mode matches ModeView::Editing(editor) ==> editor.wf(),
    ensures
        transition(state, mode, key, viewport_height).0.wf(),
        transition(state, mode, key, viewport_height).1 matches ModeView::Editing(editor)
            ==> editor.wf(),
{
    crate::store::lemma_operations_keep_selection_valid(state, 1, viewport_height);
    crate::store::lemma_operations_keep_selection_valid(state, -1, viewport_height);
    if let ModeView::Editing(editor) = mode {
        match edit_binding(key) {
            EditCommand::Insert(c) => {
                crate::editor::lemma_operations_keep_cursor_in_text(editor, c, false);
            },
            _ => {
                crate::editor::lemma_operations_keep_cursor_in_text(editor, ' ', true);
                crate::editor::lemma_operations_keep_cursor_in_text(editor, ' ', false);
            },
        }
    }
}

/// Pure navigation leaves the list and the dirty flag alone: selecting another task or
/// jumping to either end changes the selection and the scroll offset only.
pub proof fn lemma_navigation_changes_nothing(
    state: AppStateView,
    command: BrowseCommand,
    viewport_height: nat,
)
    requires
        command is SelectNext || command is SelectPrevious || command is JumpToStart
            || command is JumpToEnd,
    ensures
        browse(state, command, viewport_height).0.tasks == state.tasks,
        browse(state, command, viewport_height).0.changed == state.changed,
        browse(state, command, viewport_height).1 is Browsing,
{
}

/// Opening a session on a task of a clean list and confirming it at once, or after keys
/// that only move the cursor, leaves the list clean and unchanged.
pub proof fn lemma_untouched_edit_stays_clean(state: AppStateView, moves: Seq<KeyPress>)
    requires
        !state.changed,
        state.has_selection(),
        forall|i: int|
            0 <= i < moves.len() ==> (#[trigger] edit_binding(moves[i]) is CursorLeft
                || edit_binding(moves[i]) is CursorRight || edit_binding(moves[i]) is Home
                || edit_binding(moves[i]) is End || edit_binding(moves[i]) is Nothing),
    ensures
        ({
            let enter = KeyPress { code: KeyCode::Char('e'), control: false };
            let confirm = KeyPress { code: KeyCode::Enter, control: false };
            let opened = transition(state, ModeView::Browsing, enter, 1);
            let moved = run(opened.0, opened.1, moves, 1);
            let closed = transition(moved.0, moved.1, confirm, 1);
            &&& closed.1 is Browsing
            &&& closed.0 == state
        }),
{
    let editor = state.begin_edit().unwrap();
    lemma_cursor_moves_keep_text(state, editor, moves);
    let moved = run(state, ModeView::Editing(editor), moves, 1);
    crate::editor::lemma_unchanged_commit_stays_clean(moved.0, moved.1->Editing_0);
}

/// The dirty flag, once set, is cleared by nothing but the end of an editing session that
/// began on a clean list: giving the session up, or confirming it with the description
/// unchanged.
pub proof fn lemma_dirty_flag_cleared_only_by_clean_session(
    state: AppStateView,
    mode: ModeView,
    key: KeyPress,
    viewport_height: nat,
)
    requires
        state.changed,
        !transition(state, mode, key, viewport_height).0.changed,
    ensures
        mode matches ModeView::Editing(editor) && !editor.was_dirty && (edit_binding(key) is Cancel
            || (edit_binding(key) is Commit && (state.has_selection() ==> editor.text
            == state.selected_task().description))),
{
}

/// The state and mode after the keys of `keys`, in order.
pub open spec fn run(
    state: AppStateView,
    mode: ModeView,
    keys: Seq<KeyPress>,
    viewport_height: nat,
) -> (AppStateView, ModeView)
    decreases keys.len(),
{
    if keys.len() == 0 {
        (state, mode)
    } else {
        let before = run(state, mode, keys.drop_last(), viewport_height);
        transition(before.0, before.1, keys.last(), viewport_height)
    }
}

/// Keys that only move the cursor keep a session open on the same text; the list is as it
/// was but for the dirty flag.
pub proof fn lemma_cursor_moves_keep_text(
    state: AppStateView,
    editor: EditorView,
    moves: Seq<KeyPress>,
)
    requires
        forall|i: int|
            0 <= i < moves.len() ==> (#[trigger] edit_binding(moves[i]) is CursorLeft
                || edit_binding(moves[i]) is CursorRight || edit_binding(moves[i]) is Home
                || edit_binding(moves[i]) is End || edit_binding(moves[i]) is Nothing),
    ensures
        ({
            let after = run(state, ModeView::Editing(editor), moves, 1);
            &&& after.1 is Editing
            &&& after.1->Editing_0.text == editor.text
            &&& after.1->Editing_0.was_dirty == editor.was_dirty
            &&& after.0.tasks == state.tasks
            &&& after.0.selected_index == state.selected_index
            &&& after.0.scroll_offset == state.scroll_offset
            &&& moves.len() == 0 ==> after.0 == state
        }),
    decreases moves.len(),
{
    if moves.len() > 0 {
        lemma_cursor_moves_keep_text(state, editor, moves.drop_last());
        assert(edit_binding(moves[moves.len() - 1]) is CursorLeft || edit_binding(
            moves[moves.len() - 1],
        ) is CursorRight || edit_binding(moves[moves.len() - 1]) is Home || edit_binding(
            moves[moves.len() - 1],
        ) is End || edit_binding(moves[moves.len() - 1]) is Nothing);
    }
}

} // verus!
