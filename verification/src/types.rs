//! The records the engine works on, and their mathematical views.

use vstd::prelude::*;

verus! {

/// One checklist item.
#[derive(Debug, PartialEq, Eq)]
pub struct Task {
    /// The text of the item. It holds no line break.
    pub description: String,
    /// The nesting depth, zero for a top-level item.
    pub level: usize,
    /// Whether the box is ticked.
    pub completed: bool,
}

/// A task as plain mathematical values.
pub struct TaskView {
    pub description: Seq<char>,
    pub level: nat,
    pub completed: bool,
}

impl View for Task {
    type V = TaskView;

    open spec fn view(&self) -> TaskView {
        TaskView {
            description: self.description@,
            level: self.level as nat,
            completed: self.completed,
        }
    }
}

impl Clone for Task {
    fn clone(&self) -> (copy: Task)
        ensures
            copy@ == self@,
    {
        Task {
            description: self.description.clone(),
            level: self.level,
            completed: self.completed,
        }
    }
}

/// The views of a sequence of tasks, in the same order.
pub open spec fn task_views(tasks: Seq<Task>) -> Seq<TaskView> {
    tasks.map_values(|t: Task| t@)
}

/// The task list together with the selection, the scroll position and the dirty flag.
#[allow(non_snake_case)]
#[derive(Debug, PartialEq, Eq)]
pub struct AppState {
    /// The tasks, in document order.
    pub tasks: Vec<Task>,
    /// The index of the selected task. It is meaningful only while the list is not empty.
    pub selected_index: usize,
    /// Whether there are unsaved changes.
    pub changed: bool,
    /// The index of the first task that is shown.
    pub offsetY: usize,
}

/// The editor state as plain mathematical values.
pub struct AppStateView {
    pub tasks: Seq<TaskView>,
    pub selected_index: nat,
    pub changed: bool,
    pub scroll_offset: nat,
}

impl View for AppState {
    type V = AppStateView;

    open spec fn view(&self) -> AppStateView {
        AppStateView {
            tasks: task_views(self.tasks@),
            selected_index: self.selected_index as nat,
            changed: self.changed,
            scroll_offset: self.offsetY as nat,
        }
    }
}

impl AppState {
    /// A clean state over `tasks`, with the first task selected and shown at the top.
    pub fn new(tasks: Vec<Task>) -> (state: AppState)
        ensures
            state@ == (AppStateView {
                tasks: task_views(tasks@),
                selected_index: 0,
                changed: false,
                scroll_offset: 0,
            }),
            state@.wf(),
    {
        AppState { tasks, selected_index: 0, changed: false, offsetY: 0 }
    }
}

impl AppStateView {
    /// The selection points at a task.
    pub open spec fn has_selection(self) -> bool {
        self.selected_index < self.tasks.len()
    }

    /// A list that is not empty has a task selected.
    pub open spec fn wf(self) -> bool {
        self.tasks.len() > 0 ==> self.has_selection()
    }
}

} // verus!
