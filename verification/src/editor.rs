//! The line editor that changes the description of one task in place.
//!
//! An editing session holds a copy of the description, a cursor between two of its
//! characters, and a note of whether the list had unsaved changes when the session began.
//! The cursor never leaves the text: that is the invariant of [`LineEditor`], kept by every
//! operation, so no operation has a precondition.

use crate::types::{AppState, AppStateView, TaskView};
use crate::utils::{chars_of, string_of};
use vstd::prelude::*;

verus! {

/// An editing session as plain mathematical values.
pub struct EditorView {
    /// The text as edited so far.
    pub text: Seq<char>,
    /// The number of characters before the cursor.
    pub cursor: nat,
    /// Whether the list had unsaved changes when the session began.
    pub was_dirty: bool,
}

/// The first index at or after `from` that holds a space, or the length of `text` when
/// there is none.
pub open spec fn next_stop(text: Seq<char>, from: int) -> int
    decreases text.len() - from,
{
    if from >= text.len() {
        text.len() as int
    } else if text[from] == ' ' {
        from
    } else {
        next_stop(text, from + 1)
    }
}

/// The last index at or before `from` that holds a space, or zero when there is none.
pub open spec fn previous_stop(text: Seq<char>, from: int) -> int
    decreases from,
{
    if from <= 0 {
        0
    } else if text[from] == ' ' {
        from
    } else {
        previous_stop(text, from - 1)
    }
}

impl EditorView {
    /// The cursor lies within the text.
    pub open spec fn wf(self) -> bool {
        self.cursor <= self.text.len()
    }

    /// The session after typing `c`: it goes in at the cursor, which moves past it.
    pub open spec fn insert(self, c: char) -> EditorView {
        EditorView {
            text: self.text.insert(self.cursor as int, c),
            cursor: self.cursor + 1,
            ..self
        }
    }

    /// The session after removing the character before the cursor, if there is one.
    pub open spec fn delete_backward(self) -> EditorView {
        if self.cursor > 0 {
            EditorView {
                text: self.text.remove(self.cursor - 1),
                cursor: (self.cursor - 1) as nat,
                ..self
            }
        } else {
            self
        }
    }

    /// The session after removing the character at the cursor, if there is one.
    pub open spec fn delete_forward(self) -> EditorView {
        if self.cursor < self.text.len() {
            EditorView { text: self.text.remove(self.cursor as int), ..self }
        } else {
            self
        }
    }

    /// The session after moving the cursor to the right: by one character, or with
    /// `by_word` on to the next space or the end of the text. At the end nothing changes.
    pub open spec fn cursor_right(self, by_word: bool) -> EditorView {
        if self.cursor >= self.text.len() {
            self
        } else if by_word {
            EditorView { cursor: next_stop(self.text, self.cursor as int + 1) as nat, ..self }
        } else {
            EditorView { cursor: self.cursor + 1, ..self }
        }
    }

    /// The session after moving the cursor to the left: by one character, or with
    /// `by_word` back to the nearest space or the start of the text. At the start nothing
    /// changes.
    pub open spec fn cursor_left(self, by_word: bool) -> EditorView {
        if self.cursor == 0 {
            self
        } else if by_word {
            EditorView { cursor: previous_stop(self.text, self.cursor - 1) as nat, ..self }
        } else {
            EditorView { cursor: (self.cursor - 1) as nat, ..self }
        }
    }

    /// The session with the cursor before the first character.
    pub open spec fn home(self) -> EditorView {
        EditorView { cursor: 0, ..self }
    }

    /// The session with the cursor after the last character.
    pub open spec fn end(self) -> EditorView {
        EditorView { cursor: self.text.len(), ..self }
    }
}

impl AppStateView {
    /// The session that editing the selected task starts with: its description, the cursor
    /// at the end, and the dirty flag as it stands. There is none when no task is selected.
    pub open spec fn begin_edit(self) -> Option<EditorView> {
        if self.has_selection() {
            Some(
                EditorView {
                    text: self.selected_task().description,
                    cursor: self.selected_task().description.len(),
                    was_dirty: self.changed,
                },
            )
        } else {
            None
        }
    }

    /// The state after giving up a session: the text is dropped, and the dirty flag is
    /// cleared again if the list had no unsaved changes when the session began.
    pub open spec fn cancel_edit(self, editor: EditorView) -> AppStateView {
        AppStateView { changed: if editor.was_dirty { self.changed } else { false }, ..self }
    }

    /// The state after confirming a session: the text becomes the description of the
    /// selected task. The state is dirty afterwards unless the text equals the description
    /// it replaces and the list had no unsaved changes when the session began. When no task
    /// is selected the session is given up instead.
    pub open spec fn commit_edit(self, editor: EditorView) -> AppStateView {
        if self.has_selection() {
            AppStateView {
                tasks: self.tasks.update(
                    self.selected_index as int,
                    TaskView { description: editor.text, ..self.selected_task() },
                ),
                changed: editor.was_dirty || editor.text != self.selected_task().description,
                ..self
            }
        } else {
            self.cancel_edit(editor)
        }
    }
}

/// An editing session.
pub struct LineEditor {
    text: Vec<char>,
    cursor: usize,
    was_dirty: bool,
}

impl View for LineEditor {
    type V = EditorView;

    closed spec fn view(&self) -> EditorView {
        EditorView { text: self.text@, cursor: self.cursor as nat, was_dirty: self.was_dirty }
    }
}

impl LineEditor {
    #[verifier::type_invariant]
    spec fn cursor_in_text(self) -> bool {
        self.cursor <= self.text@.len()
    }

    /// A session on `description`, with the cursor at its end.
    pub fn new(description: &str, was_dirty: bool) -> (editor: LineEditor)
        ensures
            editor@ == (EditorView {
                text: description@,
                cursor: description@.len(),
                was_dirty,
            }),
            editor@.wf(),
    {
        let text = chars_of(description);
        let cursor: usize = text.len();
        LineEditor { text, cursor, was_dirty }
    }

    /// The text as edited so far.
    pub fn text(&self) -> (text: String)
        ensures
            text@ == self@.text,
    {
        string_of(&self.text, 0, self.text.len())
    }

    /// The number of characters in the text.
    pub fn len(&self) -> (len: usize)
        ensures
            len == self@.text.len(),
    {
        self.text.len()
    }

    /// The number of characters before the cursor.
    pub fn cursor(&self) -> (cursor: usize)
        ensures
            cursor == self@.cursor,
            self@.wf(),
    {
        proof {
            use_type_invariant(self);
        }
        self.cursor
    }

    /// Whether the list had unsaved changes when the session began.
    pub fn was_dirty(&self) -> (was_dirty: bool)
        ensures
            was_dirty == self@.was_dirty,
    {
        self.was_dirty
    }

    /// Types `c` at the cursor.
    pub fn insert(self, c: char) -> (editor: LineEditor)
        ensures
            editor@ == self@.insert(c),
            editor@.wf(),
    {
        proof {
            use_type_invariant(&self);
        }
        let LineEditor { mut text, cursor, was_dirty } = self;
        text.insert(cursor, c);
        let len: usize = text.len();
        assert(cursor < len);
        LineEditor { text, cursor: cursor + 1, was_dirty }
    }

    /// Removes the character before the cursor.
    pub fn delete_backward(self) -> (editor: LineEditor)
        ensures
            editor@ == self@.delete_backward(),
            editor@.wf(),
    {
        proof {
            use_type_invariant(&self);
        }
        let LineEditor { mut text, cursor, was_dirty } = self;
        if cursor > 0 {
            text.remove(cursor - 1);
            LineEditor { text, cursor: cursor - 1, was_dirty }
        } else {
            LineEditor { text, cursor, was_dirty }
        }
    }

    /// Removes the character at the cursor.
    pub fn delete_forward(self) -> (editor: LineEditor)
        ensures
            editor@ == self@.delete_forward(),
            editor@.wf(),
    {
        proof {
            use_type_invariant(&self);
        }
        let LineEditor { mut text, cursor, was_dirty } = self;
        if cursor < text.len() {
            text.remove(cursor);
        }
        LineEditor { text, cursor, was_dirty }
    }

    /// Moves the cursor to the right, by one character or on to the next space.
    pub fn cursor_right(self, by_word: bool) -> (editor: LineEditor)
        ensures
            editor@ == self@.cursor_right(by_word),
            editor@.wf(),
    {
        proof {
            use_type_invariant(&self);
        }
        let LineEditor { text, cursor, was_dirty } = self;
        let len: usize = text.len();
        let mut at: usize = cursor;
        if at < len {
            at = at + 1;
            if by_word {
                while at < len && text[at] != ' '
                    invariant
                        cursor < at <= len,
                        len == text@.len(),
                        next_stop(text@, at as int) == next_stop(text@, cursor + 1),
                    decreases len - at,
                {
                    at = at + 1;
                }
            }
        }
        LineEditor { text, cursor: at, was_dirty }
    }

    /// Moves the cursor to the left, by one character or back to the nearest space.
    pub fn cursor_left(self, by_word: bool) -> (editor: LineEditor)
        ensures
            editor@ == self@.cursor_left(by_word),
            editor@.wf(),
    {
        proof {
            use_type_invariant(&self);
        }
        let LineEditor { text, cursor, was_dirty } = self;
        let mut at: usize = cursor;
        if at > 0 {
            at = at - 1;
            if by_word {
                while at > 0 && text[at] != ' '
                    invariant
                        at < cursor <= text@.len(),
                        previous_stop(text@, at as int) == previous_stop(text@, cursor - 1),
                    decreases at,
                {
                    at = at - 1;
                }
            }
        }
        LineEditor { text, cursor: at, was_dirty }
    }

    /// Moves the cursor before the first character.
    pub fn home(self) -> (editor: LineEditor)
        ensures
            editor@ == self@.home(),
            editor@.wf(),
    {
        let LineEditor { text, cursor: _, was_dirty } = self;
        LineEditor { text, cursor: 0, was_dirty }
    }

    /// Moves the cursor after the last character.
    pub fn end(self) -> (editor: LineEditor)
        ensures
            editor@ == self@.end(),
            editor@.wf(),
    {
        let LineEditor { text, cursor: _, was_dirty } = self;
        let cursor: usize = text.len();
        LineEditor { text, cursor, was_dirty }
    }
}

impl AppState {
    /// Starts a session on the selected task.
    pub fn begin_edit(&self) -> (editor: Option<LineEditor>)
        ensures
            match editor {
                Some(e) => self@.begin_edit() == Some(e@) && e@.wf(),
                None => self@.begin_edit().is_none(),
            },
    {
        let at: usize = self.selected_index;
        if at < self.tasks.len() {
            Some(LineEditor::new(self.tasks[at].description.as_str(), self.changed))
        } else {
            None
        }
    }

    /// Gives up a session.
    pub fn cancel_edit(&mut self, editor: LineEditor)
        ensures
            final(self)@ == old(self)@.cancel_edit(editor@),
    {
        if !editor.was_dirty() {
            self.changed = false;
        }
    }

    /// Confirms a session and writes its text into the selected task.
    pub fn commit_edit(&mut self, editor: LineEditor)
        ensures
            final(self)@ == old(self)@.commit_edit(editor@),
    {
        let at: usize = self.selected_index;
        if at < self.tasks.len() {
            let description = editor.text();
            let unchanged = description == self.tasks[at].description;
            self.tasks[at].description = description;
            self.changed = editor.was_dirty() || !unchanged;
            assert(self@.tasks =~= old(self)@.commit_edit(editor@).tasks);
        } else {
            self.cancel_edit(editor);
        }
    }
}

/// A word move to the right ends at the first stop after the cursor: it passes at least one
/// character, crosses no space on its way, and rests on a space or at the end of the text.
pub proof fn lemma_word_right_is_nearest_stop(editor: EditorView)
    requires
        editor.wf(),
        editor.cursor < editor.text.len(),
    ensures
        editor.cursor < editor.cursor_right(true).cursor <= editor.text.len(),
        editor.cursor_right(true).cursor == editor.text.len() || editor.text[editor.cursor_right(
            true,
        ).cursor as int] == ' ',
        forall|i: int|
            editor.cursor < i < editor.cursor_right(true).cursor ==> editor.text[i] != ' ',
{
    lemma_next_stop(editor.text, editor.cursor as int + 1);
}

/// A word move to the left ends at the first stop before the cursor: it passes at least one
/// character, crosses no space on its way, and rests on a space or at the start of the text.
pub proof fn lemma_word_left_is_nearest_stop(editor: EditorView)
    requires
        editor.wf(),
        editor.cursor > 0,
    ensures
        editor.cursor_left(true).cursor < editor.cursor,
        editor.cursor_left(true).cursor == 0 || editor.text[editor.cursor_left(
            true,
        ).cursor as int] == ' ',
        forall|i: int| editor.cursor_left(true).cursor < i < editor.cursor ==> editor.text[i] != ' ',
{
    lemma_previous_stop(editor.text, editor.cursor - 1);
}

/// What [`next_stop`] finds, for a start inside the text or at its end.
pub proof fn lemma_next_stop(text: Seq<char>, from: int)
    requires
        0 <= from <= text.len(),
    ensures
        from <= next_stop(text, from) <= text.len(),
        next_stop(text, from) == text.len() || text[next_stop(text, from)] == ' ',
        forall|i: int| from <= i < next_stop(text, from) ==> text[i] != ' ',
    decreases text.len() - from,
{
    if from < text.len() && text[from] != ' ' {
        lemma_next_stop(text, from + 1);
    }
}

/// What [`previous_stop`] finds, for a start inside the text.
pub proof fn lemma_previous_stop(text: Seq<char>, from: int)
    requires
        0 <= from < text.len(),
    ensures
        0 <= previous_stop(text, from) <= from,
        previous_stop(text, from) == 0 || text[previous_stop(text, from)] == ' ',
        forall|i: int| previous_stop(text, from) < i <= from ==> text[i] != ' ',
    decreases from,
{
    if from > 0 && text[from] != ' ' {
        lemma_previous_stop(text, from - 1);
    }
}

/// Every editing operation keeps the cursor within the text.
pub proof fn lemma_operations_keep_cursor_in_text(editor: EditorView, c: char, by_word: bool)
    requires
        editor.wf(),
    ensures
        editor.insert(c).wf(),
        editor.delete_backward().wf(),
        editor.delete_forward().wf(),
        editor.cursor_right(by_word).wf(),
        editor.cursor_left(by_word).wf(),
        editor.home().wf(),
        editor.end().wf(),
{
    if editor.cursor < editor.text.len() {
        lemma_next_stop(editor.text, editor.cursor as int + 1);
    }
    if editor.cursor > 0 {
        lemma_previous_stop(editor.text, editor.cursor - 1);
    }
}

/// A session that is confirmed with the text it began with leaves a clean list clean and
/// every task as it was, however the cursor moved meanwhile.
pub proof fn lemma_unchanged_commit_stays_clean(state: AppStateView, editor: EditorView)
    requires
        state.has_selection(),
        editor.text == state.selected_task().description,
        !editor.was_dirty,
    ensures
        !state.commit_edit(editor).changed,
        state.commit_edit(editor).tasks == state.tasks,
        state.commit_edit(editor).selected_index == state.selected_index,
{
}

} // verus!
