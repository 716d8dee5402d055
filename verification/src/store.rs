//! The operations on the task list, the selection and the scroll position.
//!
//! Each operation is first defined on the mathematical view of the state, as a function from
//! the state before to the state after. The executable method of the same name is proved to
//! compute exactly that function, for every state: no operation has a precondition except
//! [`AppState::indent`], whose counter must have room for one more level.

use crate::types::{AppState, AppStateView, Task, TaskView};
use vstd::prelude::*;

verus! {

impl TaskView {
    /// The empty, unticked task that an insertion creates.
    pub open spec fn blank(level: nat) -> TaskView {
        TaskView { description: Seq::empty(), level, completed: false }
    }

    /// The same task with its box flipped.
    pub open spec fn toggled(self) -> TaskView {
        TaskView { completed: !self.completed, ..self }
    }

    /// The same task one level deeper.
    pub open spec fn indented(self) -> TaskView {
        TaskView { level: self.level + 1, ..self }
    }

    /// The same task one level higher, or unchanged at the top level.
    pub open spec fn outdented(self) -> TaskView {
        TaskView { level: if self.level > 0 { (self.level - 1) as nat } else { 0 }, ..self }
    }
}

impl AppStateView {
    /// The task under the selection.
    pub open spec fn selected_task(self) -> TaskView
        recommends
            self.has_selection(),
    {
        self.tasks[self.selected_index as int]
    }

    /// The selected row lies inside a window of `viewport_height` rows that starts at the
    /// scroll offset.
    pub open spec fn selection_visible(self, viewport_height: nat) -> bool {
        self.scroll_offset <= self.selected_index < self.scroll_offset + viewport_height
    }

    /// The state after the smallest scroll that brings the selected row into the window.
    /// A window without rows scrolls as a window of one row does.
    pub open spec fn scroll_to_selection(self, viewport_height: nat) -> AppStateView {
        let rows = if viewport_height == 0 { 1 } else { viewport_height };
        let offset = if self.selected_index < self.scroll_offset {
            self.selected_index
        } else if self.selected_index >= self.scroll_offset + rows {
            (self.selected_index + 1 - rows) as nat
        } else {
            self.scroll_offset
        };
        AppStateView { scroll_offset: offset, ..self }
    }

    /// The state after moving the selection by `delta` rows: the target is clamped into the
    /// list and the window follows it. On an empty list nothing changes.
    pub open spec fn move_selection(self, delta: int, viewport_height: nat) -> AppStateView {
        if self.tasks.len() == 0 {
            self
        } else {
            let target = self.selected_index + delta;
            let clamped = if target < 0 {
                0
            } else if target >= self.tasks.len() {
                self.tasks.len() - 1
            } else {
                target
            };
            AppStateView { selected_index: clamped as nat, ..self }.scroll_to_selection(
                viewport_height,
            )
        }
    }

    /// The state after a run of selection moves, one for each entry of `deltas`, in order.
    pub open spec fn move_selection_all(
        self,
        deltas: Seq<int>,
        viewport_height: nat,
    ) -> AppStateView
        decreases deltas.len(),
    {
        if deltas.len() == 0 {
            self
        } else {
            self.move_selection_all(deltas.drop_last(), viewport_height).move_selection(
                deltas.last(),
                viewport_height,
            )
        }
    }

    /// The state after selecting the first task. On an empty list nothing changes.
    pub open spec fn jump_to_start(self, viewport_height: nat) -> AppStateView {
        if self.tasks.len() == 0 {
            self
        } else {
            AppStateView { selected_index: 0, ..self }.scroll_to_selection(viewport_height)
        }
    }

    /// The state after selecting the last task. On an empty list nothing changes.
    pub open spec fn jump_to_end(self, viewport_height: nat) -> AppStateView {
        if self.tasks.len() == 0 {
            self
        } else {
            AppStateView {
                selected_index: (self.tasks.len() - 1) as nat,
                ..self
            }.scroll_to_selection(viewport_height)
        }
    }

    /// The task list with the tasks at `i` and `j` exchanged.
    pub open spec fn swapped(self, i: int, j: int) -> Seq<TaskView>
        recommends
            0 <= i < self.tasks.len(),
            0 <= j < self.tasks.len(),
    {
        self.tasks.update(i, self.tasks[j]).update(j, self.tasks[i])
    }

    /// The state after exchanging the selected task with the one above it. The selection
    /// follows the task. Nothing changes when no task is selected or the first one is.
    pub open spec fn move_task_up(self, viewport_height: nat) -> AppStateView {
        if self.has_selection() && self.selected_index > 0 {
            AppStateView {
                tasks: self.swapped(self.selected_index - 1, self.selected_index as int),
                selected_index: (self.selected_index - 1) as nat,
                changed: true,
                ..self
            }.scroll_to_selection(viewport_height)
        } else {
            self
        }
    }

    /// The state after exchanging the selected task with the one below it. The selection
    /// follows the task. Nothing changes when no task is selected or the last one is.
    pub open spec fn move_task_down(self, viewport_height: nat) -> AppStateView {
        if self.selected_index + 1 < self.tasks.len() {
            AppStateView {
                tasks: self.swapped(self.selected_index as int, self.selected_index + 1 as int),
                selected_index: self.selected_index + 1,
                changed: true,
                ..self
            }.scroll_to_selection(viewport_height)
        } else {
            self
        }
    }

    /// The state with the selected task replaced by `task` and the dirty flag set.
    pub open spec fn with_selected(self, task: TaskView) -> AppStateView
        recommends
            self.has_selection(),
    {
        AppStateView {
            tasks: self.tasks.update(self.selected_index as int, task),
            changed: true,
            ..self
        }
    }

    /// The state after flipping the box of the selected task. Nothing changes when no task
    /// is selected.
    pub open spec fn toggle_completed(self) -> AppStateView {
        if self.has_selection() {
            self.with_selected(self.selected_task().toggled())
        } else {
            self
        }
    }

    /// The state after moving the selected task one level deeper. Nothing changes when no
    /// task is selected.
    pub open spec fn indent(self) -> AppStateView {
        if self.has_selection() {
            self.with_selected(self.selected_task().indented())
        } else {
            self
        }
    }

    /// The state after moving the selected task one level higher, stopping at the top level.
    /// The state counts as changed even when the task was at the top level already. Nothing
    /// changes when no task is selected.
    pub open spec fn outdent(self) -> AppStateView {
        if self.has_selection() {
            self.with_selected(self.selected_task().outdented())
        } else {
            self
        }
    }

    /// The state after removing the selected task. When the last task of the list was
    /// removed the selection steps back by one, stopping at zero; otherwise it stays and so
    /// points at the task that followed. Nothing changes when no task is selected.
    pub open spec fn delete_selected(self) -> AppStateView {
        if self.has_selection() {
            AppStateView {
                tasks: self.tasks.remove(self.selected_index as int),
                selected_index: if self.selected_index + 1 == self.tasks.len()
                    && self.selected_index > 0 {
                    (self.selected_index - 1) as nat
                } else {
                    self.selected_index
                },
                changed: true,
                ..self
            }
        } else {
            self
        }
    }

    /// The state after inserting a blank task right after the selected one, at the same
    /// level, and selecting it. When no task is selected, as on an empty list, the blank task
    /// goes to the front at level zero.
    pub open spec fn insert_after_selected(self) -> AppStateView {
        if self.has_selection() {
            AppStateView {
                tasks: self.tasks.insert(
                    self.selected_index + 1 as int,
                    TaskView::blank(self.selected_task().level),
                ),
                selected_index: self.selected_index + 1,
                changed: true,
                ..self
            }
        } else {
            AppStateView {
                tasks: self.tasks.insert(0, TaskView::blank(0)),
                selected_index: 0,
                changed: true,
                ..self
            }
        }
    }

    /// The state with the dirty flag set.
    pub open spec fn mark_dirty(self) -> AppStateView {
        AppStateView { changed: true, ..self }
    }
}

impl AppState {
    /// Tells whether the selection points at a task.
    pub fn has_selection(&self) -> (b: bool)
        ensures
            b == self@.has_selection(),
    {
        self.selected_index < self.tasks.len()
    }

    /// Scrolls by the least amount that brings the selected row into a window of
    /// `viewport_height` rows.
    pub fn scroll_to_selection(&mut self, viewport_height: usize)
        ensures
            final(self)@ == old(self)@.scroll_to_selection(viewport_height as nat),
    {
        let rows: usize = if viewport_height == 0 { 1 } else { viewport_height };
        if self.selected_index < self.offsetY {
            self.offsetY = self.selected_index;
        } else if self.selected_index - self.offsetY >= rows {
            self.offsetY = self.selected_index - rows + 1;
        }
    }

    /// Moves the selection by `delta` rows, clamped into the list, and scrolls after it.
    pub fn move_selection(&mut self, delta: isize, viewport_height: usize)
        ensures
            final(self)@ == old(self)@.move_selection(delta as int, viewport_height as nat),
    {
        let len: usize = self.tasks.len();
        if len > 0 {
            let target: i128 = self.selected_index as i128 + delta as i128;
            if target < 0 {
                self.selected_index = 0;
            } else if target >= len as i128 {
                self.selected_index = len - 1;
            } else {
                self.selected_index = target as usize;
            }
            self.scroll_to_selection(viewport_height);
        }
    }

    /// Selects the first task and scrolls to it.
    pub fn jump_to_start(&mut self, viewport_height: usize)
        ensures
            final(self)@ == old(self)@.jump_to_start(viewport_height as nat),
    {
        if self.tasks.len() > 0 {
            self.selected_index = 0;
            self.scroll_to_selection(viewport_height);
        }
    }

    /// Selects the last task and scrolls to it.
    pub fn jump_to_end(&mut self, viewport_height: usize)
        ensures
            final(self)@ == old(self)@.jump_to_end(viewport_height as nat),
    {
        let len: usize = self.tasks.len();
        if len > 0 {
            self.selected_index = len - 1;
            self.scroll_to_selection(viewport_height);
        }
    }

    /// Exchanges the selected task with the one above it and keeps it selected.
    pub fn move_task_up(&mut self, viewport_height: usize)
        ensures
            final(self)@ == old(self)@.move_task_up(viewport_height as nat),
    {
        let at: usize = self.selected_index;
        if at < self.tasks.len() && at > 0 {
            let task = self.tasks.remove(at);
            self.tasks.insert(at - 1, task);
            self.selected_index = at - 1;
            self.changed = true;
            assert(self@.tasks =~= old(self)@.swapped(at - 1, at as int));
            self.scroll_to_selection(viewport_height);
        }
    }

    /// Exchanges the selected task with the one below it and keeps it selected.
    pub fn move_task_down(&mut self, viewport_height: usize)
        ensures
            final(self)@ == old(self)@.move_task_down(viewport_height as nat),
    {
        let at: usize = self.selected_index;
        let len: usize = self.tasks.len();
        if at < len && at + 1 < len {
            let task = self.tasks.remove(at);
            self.tasks.insert(at + 1, task);
            self.selected_index = at + 1;
            self.changed = true;
            assert(self@.tasks =~= old(self)@.swapped(at as int, at + 1));
            self.scroll_to_selection(viewport_height);
        }
    }

    /// Flips the box of the selected task.
    pub fn toggle_completed(&mut self)
        ensures
            final(self)@ == old(self)@.toggle_completed(),
    {
        let at: usize = self.selected_index;
        if at < self.tasks.len() {
            self.tasks[at].completed = !self.tasks[at].completed;
            self.changed = true;
            assert(self@.tasks =~= old(self)@.toggle_completed().tasks);
        }
    }

    /// Moves the selected task one level deeper.
    pub fn indent(&mut self)
        requires
            old(self)@.has_selection() ==> old(self)@.selected_task().level < usize::MAX,
        ensures
            final(self)@ == old(self)@.indent(),
    {
        let at: usize = self.selected_index;
        if at < self.tasks.len() {
            self.tasks[at].level = self.tasks[at].level + 1;
            self.changed = true;
            assert(self@.tasks =~= old(self)@.indent().tasks);
        }
    }

    /// Moves the selected task one level higher, stopping at the top level.
    pub fn outdent(&mut self)
        ensures
            final(self)@ == old(self)@.outdent(),
    {
        let at: usize = self.selected_index;
        if at < self.tasks.len() {
            if self.tasks[at].level > 0 {
                self.tasks[at].level = self.tasks[at].level - 1;
            }
            self.changed = true;
            assert(self@.tasks =~= old(self)@.outdent().tasks);
        }
    }

    /// Removes the selected task.
    pub fn delete_selected(&mut self)
        ensures
            final(self)@ == old(self)@.delete_selected(),
    {
        let at: usize = self.selected_index;
        let len: usize = self.tasks.len();
        if at < len {
            self.tasks.remove(at);
            if at + 1 == len && at > 0 {
                self.selected_index = at - 1;
            }
            self.changed = true;
            assert(self@.tasks =~= old(self)@.delete_selected().tasks);
        }
    }

    /// Inserts a blank task after the selected one and selects it.
    pub fn insert_after_selected(&mut self)
        ensures
            final(self)@ == old(self)@.insert_after_selected(),
    {
        let at: usize = self.selected_index;
        if at < self.tasks.len() {
            let level: usize = self.tasks[at].level;
            self.tasks.insert(at + 1, Task { description: String::new(), level, completed: false });
            self.selected_index = at + 1;
        } else {
            self.tasks.insert(0, Task { description: String::new(), level: 0, completed: false });
            self.selected_index = 0;
        }
        self.changed = true;
        assert(self@.tasks =~= old(self)@.insert_after_selected().tasks);
    }

    /// Records that there are unsaved changes.
    pub fn mark_dirty(&mut self)
        ensures
            final(self)@ == old(self)@.mark_dirty(),
    {
        self.changed = true;
    }
}

/// The distance between two offsets.
pub open spec fn distance(a: nat, b: nat) -> nat {
    if a <= b {
        (b - a) as nat
    } else {
        (a - b) as nat
    }
}

/// After a scroll to the selection the selected row is inside every window that has at
/// least one row, and no other offset that shows the row is nearer to the offset before.
/// Whatever the height of the window, the first row shown is never below the selection.
pub proof fn lemma_scroll_shows_selection(state: AppStateView, viewport_height: nat)
    ensures
        state.scroll_to_selection(viewport_height).scroll_offset <= state.selected_index,
        viewport_height >= 1 ==> state.scroll_to_selection(viewport_height).selection_visible(
            viewport_height,
        ),
        forall|offset: nat|
            offset <= state.selected_index < offset + viewport_height ==> distance(
                state.scroll_to_selection(viewport_height).scroll_offset,
                state.scroll_offset,
            ) <= #[trigger] distance(offset, state.scroll_offset),
        state.selection_visible(viewport_height) ==> state.scroll_to_selection(viewport_height)
            == state,
{
}

/// However many times the selection is moved, and by whatever amounts, the task list and
/// the dirty flag stay as they were, and the selection of a list that is not empty points
/// at one of its tasks. On an empty list the state does not change at all.
pub proof fn lemma_selection_stays_in_bounds(
    state: AppStateView,
    deltas: Seq<int>,
    viewport_height: nat,
)
    ensures
        state.move_selection_all(deltas, viewport_height).tasks == state.tasks,
        state.move_selection_all(deltas, viewport_height).changed == state.changed,
        state.wf() || deltas.len() > 0 ==> state.move_selection_all(deltas, viewport_height).wf(),
        state.tasks.len() == 0 ==> state.move_selection_all(deltas, viewport_height) == state,
    decreases deltas.len(),
{
    if deltas.len() > 0 {
        lemma_selection_stays_in_bounds(state, deltas.drop_last(), viewport_height);
    }
}

/// Flipping the box of the selected task twice gives back the task list, the selection and
/// the scroll offset.
pub proof fn lemma_toggle_twice_restores(state: AppStateView)
    ensures
        state.toggle_completed().toggle_completed().tasks == state.tasks,
        state.toggle_completed().toggle_completed().selected_index == state.selected_index,
        state.toggle_completed().toggle_completed().scroll_offset == state.scroll_offset,
{
}

/// Inserting a task and deleting it at once gives back the task list. The new task is the
/// selected one after the insertion, so the deletion removes exactly it.
pub proof fn lemma_insert_then_delete_restores(state: AppStateView)
    ensures
        state.insert_after_selected().has_selection(),
        state.insert_after_selected().selected_task() == TaskView::blank(
            if state.has_selection() {
                state.selected_task().level
            } else {
                0
            },
        ),
        state.insert_after_selected().delete_selected().tasks == state.tasks,
{
}

/// Every operation on the list keeps a well-formed state well-formed: while the list is not
/// empty the selection points at one of its tasks.
pub proof fn lemma_operations_keep_selection_valid(
    state: AppStateView,
    delta: int,
    viewport_height: nat,
)
    requires
        state.wf(),
    ensures
        state.scroll_to_selection(viewport_height).wf(),
        state.move_selection(delta, viewport_height).wf(),
        state.jump_to_start(viewport_height).wf(),
        state.jump_to_end(viewport_height).wf(),
        state.move_task_up(viewport_height).wf(),
        state.move_task_down(viewport_height).wf(),
        state.toggle_completed().wf(),
        state.indent().wf(),
        state.outdent().wf(),
        state.delete_selected().wf(),
        state.insert_after_selected().wf(),
        state.mark_dirty().wf(),
{
}

} // verus!
