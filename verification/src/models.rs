//! The persisted entities, as they look after the schema has been brought to
//! its current shape: dense integer primary keys and an integer status enum.

use vstd::prelude::*;
use crate::text::str_eq;

verus! {

/// Lifecycle state of a task.
#[derive(Debug, Clone, Copy, PartialEq, Eq, Structural)]
pub enum TodoStatus {
    Todo,
    InProgress,
    Done,
}

/// The integer stored for each status.
pub open spec fn status_code(s: TodoStatus) -> i32 {
    match s {
        TodoStatus::Todo => 0,
        TodoStatus::InProgress => 1,
        TodoStatus::Done => 2,
    }
}

/// The status read back from a stored integer; unknown codes fall back to
/// `Todo`.
pub open spec fn status_of_code(c: i32) -> TodoStatus {
    if c == 1 {
        TodoStatus::InProgress
    } else if c == 2 {
        TodoStatus::Done
    } else {
        TodoStatus::Todo
    }
}

/// The status named by a symbolic string; unknown names fall back to `Todo`.
pub open spec fn status_of_text(s: Seq<char>) -> TodoStatus {
    if s == "in_progress"@ {
        TodoStatus::InProgress
    } else if s == "done"@ {
        TodoStatus::Done
    } else {
        TodoStatus::Todo
    }
}

impl TodoStatus {
    pub fn code(&self) -> (r: i32)
        ensures
            r == status_code(*self),
    {
        match self {
            TodoStatus::Todo => 0,
            TodoStatus::InProgress => 1,
            TodoStatus::Done => 2,
        }
    }

    pub fn from_code(c: i32) -> (r: TodoStatus)
        ensures
            r == status_of_code(c),
    {
        if c == 1 {
            TodoStatus::InProgress
        } else if c == 2 {
            TodoStatus::Done
        } else {
            TodoStatus::Todo
        }
    }

    pub fn from_text(s: &str) -> (r: TodoStatus)
        ensures
            r == status_of_text(s@),
    {
        if str_eq(s, "in_progress") {
            TodoStatus::InProgress
        } else if str_eq(s, "done") {
            TodoStatus::Done
        } else {
            TodoStatus::Todo
        }
    }

    pub fn to_text(&self) -> (r: &'static str)
        ensures
            *self == TodoStatus::Todo ==> r@ == "todo"@,
            *self == TodoStatus::InProgress ==> r@ == "in_progress"@,
            *self == TodoStatus::Done ==> r@ == "done"@,
    {
        match self {
            TodoStatus::Todo => "todo",
            TodoStatus::InProgress => "in_progress",
            TodoStatus::Done => "done",
        }
    }
}

/// Reading a status back from its stored code yields the status again.
pub proof fn lemma_status_code_round_trip(s: TodoStatus)
    ensures
        status_of_code(status_code(s)) == s,
{
}

/// A task group.
#[derive(Debug, Clone, PartialEq)]
pub struct TaskGroup {
    pub id: i64,
    pub name: String,
    pub parent_id: Option<i64>,
    pub icon: Option<String>,
    pub color: Option<String>,
    pub sort_order: i32,
    pub created_at: i64,
    pub updated_at: i64,
}

/// A tag.
#[derive(Debug, Clone, PartialEq)]
pub struct Tag {
    pub id: i64,
    pub name: String,
    pub color: String,
    pub created_at: i64,
}

/// One step of a task's checklist.
#[derive(Debug, Clone, PartialEq)]
pub struct TodoStep {
    pub id: i64,
    pub todo_id: i64,
    pub title: String,
    pub is_completed: bool,
    pub sort_order: i32,
    pub created_at: i64,
}

/// A file attached to a task.
#[derive(Debug, Clone, PartialEq)]
pub struct Attachment {
    pub id: i64,
    pub todo_id: i64,
    pub name: String,
    pub file_path: String,
    pub file_size: i64,
    pub mime_type: Option<String>,
    pub created_at: i64,
}

/// A task, with its optional eagerly loaded relations.
#[derive(Debug, Clone, PartialEq)]
pub struct Todo {
    pub id: i64,
    pub title: String,
    pub description: Option<String>,
    pub status: TodoStatus,
    pub priority: i32,
    pub group_id: Option<i64>,
    pub assignee: Option<String>,
    pub start_date: Option<i64>,
    pub due_date: Option<i64>,
    pub completed_at: Option<i64>,
    pub created_at: i64,
    pub updated_at: i64,
    pub tags: Option<Vec<Tag>>,
    pub steps: Option<Vec<TodoStep>>,
    pub attachments: Option<Vec<Attachment>>,
    pub group: Option<TaskGroup>,
}

/// The invariant kept by every status transition: a completion time is
/// recorded exactly while the task is done.
pub open spec fn completed_at_consistent(t: Todo) -> bool {
    t.completed_at is Some <==> t.status == TodoStatus::Done
}

/// Counts of tasks by state.
#[derive(Debug, Clone, PartialEq)]
pub struct TodoStats {
    pub total: i32,
    pub todo: i32,
    pub in_progress: i32,
    pub done: i32,
    pub overdue: i32,
    pub marked: i32,
}

/// Per-day completion and creation counts.
#[derive(Debug, Clone, PartialEq)]
pub struct StatsByDate {
    pub date: String,
    pub completed: i32,
    pub created: i32,
}

/// Counts of tasks within one group.
#[derive(Debug, Clone, PartialEq)]
pub struct GroupStats {
    pub id: i64,
    pub name: String,
    pub color: String,
    pub total: i32,
    pub done: i32,
}

/// Use count of one tag.
#[derive(Debug, Clone, PartialEq)]
pub struct TagStats {
    pub id: i64,
    pub name: String,
    pub color: String,
    pub count: i32,
}

/// A full export of the user's data.
#[derive(Debug, Clone, PartialEq)]
pub struct ExportData {
    pub version: String,
    pub exported_at: i64,
    pub task_groups: Vec<TaskGroup>,
    pub tags: Vec<Tag>,
    pub todos: Vec<Todo>,
}

/// Counts plus the matching task lists.
#[derive(Debug, Clone, PartialEq)]
pub struct TodoStatsWithDetails {
    pub total: i32,
    pub todo: i32,
    pub in_progress: i32,
    pub done: i32,
    pub todos: Vec<Todo>,
    pub in_progress_tasks: Vec<Todo>,
    pub done_tasks: Vec<Todo>,
}

} // verus!
