//! A plain-value image of the six tables the migration engine works on.
//!
//! The engine detects legacy schemas by the *runtime* storage class of
//! representative column values, so the columns whose class changes across
//! schema generations (`id`, foreign keys, `status`) are held as a
//! dynamically typed [`Value`]; every other column has a fixed type.

use vstd::prelude::*;

verus! {

/// A dynamically typed column value.
#[derive(Debug, PartialEq)]
pub enum Value {
    Null,
    Int(i64),
    Text(String),
}

/// Spec-level counterpart of [`Value`].
pub enum ValueModel {
    Null,
    Int(int),
    Text(Seq<char>),
}

impl View for Value {
    type V = ValueModel;

    open spec fn view(&self) -> ValueModel {
        match self {
            Value::Null => ValueModel::Null,
            Value::Int(i) => ValueModel::Int(*i as int),
            Value::Text(s) => ValueModel::Text(s@),
        }
    }
}

impl Clone for Value {
    fn clone(&self) -> (r: Self)
        ensures
            r@ == self@,
    {
        match self {
            Value::Null => Value::Null,
            Value::Int(i) => Value::Int(*i),
            Value::Text(s) => Value::Text(s.clone()),
        }
    }
}

impl Value {
    pub fn is_text(&self) -> (b: bool)
        ensures
            b == (self@ is Text),
    {
        match self {
            Value::Text(_) => true,
            _ => false,
        }
    }
}

/// The view of an optional string column.
pub open spec fn opt_str_view(o: Option<String>) -> Option<Seq<char>> {
    match o {
        Some(s) => Some(s@),
        None => None,
    }
}

/// The view of an optional integer column.
pub open spec fn opt_i64_view(o: Option<i64>) -> Option<int> {
    match o {
        Some(i) => Some(i as int),
        None => None,
    }
}

/// Clones an optional string column.
pub fn clone_opt_string(o: &Option<String>) -> (r: Option<String>)
    ensures
        opt_str_view(r) == opt_str_view(*o),
{
    match o {
        Some(s) => Some(s.clone()),
        None => None,
    }
}

/// One `task_groups` row.
#[derive(Debug, PartialEq)]
pub struct GroupRow {
    pub id: Value,
    pub name: String,
    pub parent_id: Value,
    pub icon: Option<String>,
    pub color: Option<String>,
    pub sort_order: i64,
    pub created_at: i64,
    pub updated_at: i64,
}

pub struct GroupRowModel {
    pub id: ValueModel,
    pub name: Seq<char>,
    pub parent_id: ValueModel,
    pub icon: Option<Seq<char>>,
    pub color: Option<Seq<char>>,
    pub sort_order: int,
    pub created_at: int,
    pub updated_at: int,
}

impl View for GroupRow {
    type V = GroupRowModel;

    open spec fn view(&self) -> GroupRowModel {
        GroupRowModel {
            id: self.id@,
            name: self.name@,
            parent_id: self.parent_id@,
            icon: opt_str_view(self.icon),
            color: opt_str_view(self.color),
            sort_order: self.sort_order as int,
            created_at: self.created_at as int,
            updated_at: self.updated_at as int,
        }
    }
}

impl Clone for GroupRow {
    fn clone(&self) -> (r: Self)
        ensures
            r@ == self@,
    {
        GroupRow {
            id: self.id.clone(),
            name: self.name.clone(),
            parent_id: self.parent_id.clone(),
            icon: clone_opt_string(&self.icon),
            color: clone_opt_string(&self.color),
            sort_order: self.sort_order,
            created_at: self.created_at,
            updated_at: self.updated_at,
        }
    }
}

/// One `tags` row.
#[derive(Debug, PartialEq)]
pub struct TagRow {
    pub id: Value,
    pub name: String,
    pub color: String,
    pub created_at: i64,
}

pub struct TagRowModel {
    pub id: ValueModel,
    pub name: Seq<char>,
    pub color: Seq<char>,
    pub created_at: int,
}

impl View for TagRow {
    type V = TagRowModel;

    open spec fn view(&self) -> TagRowModel {
        TagRowModel {
            id: self.id@,
            name: self.name@,
            color: self.color@,
            created_at: self.created_at as int,
        }
    }
}

impl Clone for TagRow {
    fn clone(&self) -> (r: Self)
        ensures
            r@ == self@,
    {
        TagRow {
            id: self.id.clone(),
            name: self.name.clone(),
            color: self.color.clone(),
            created_at: self.created_at,
        }
    }
}

/// One `todos` row. `is_marked` is the column the oldest schema carried and
/// the current one does not; it is `Some` exactly while that column exists.
#[derive(Debug, PartialEq)]
pub struct TodoRow {
    pub id: Value,
    pub title: String,
    pub description: Option<String>,
    pub status: Value,
    pub priority: i64,
    pub is_marked: Option<i64>,
    pub group_id: Value,
    pub assignee: Option<String>,
    pub start_date: Option<i64>,
    pub due_date: Option<i64>,
    pub completed_at: Option<i64>,
    pub created_at: i64,
    pub updated_at: i64,
}

pub struct TodoRowModel {
    pub id: ValueModel,
    pub title: Seq<char>,
    pub description: Option<Seq<char>>,
    pub status: ValueModel,
    pub priority: int,
    pub is_marked: Option<int>,
    pub group_id: ValueModel,
    pub assignee: Option<Seq<char>>,
    pub start_date: Option<int>,
    pub due_date: Option<int>,
    pub completed_at: Option<int>,
    pub created_at: int,
    pub updated_at: int,
}

impl View for TodoRow {
    type V = TodoRowModel;

    open spec fn view(&self) -> TodoRowModel {
        TodoRowModel {
            id: self.id@,
            title: self.title@,
            description: opt_str_view(self.description),
            status: self.status@,
            priority: self.priority as int,
            is_marked: opt_i64_view(self.is_marked),
            group_id: self.group_id@,
            assignee: opt_str_view(self.assignee),
            start_date: opt_i64_view(self.start_date),
            due_date: opt_i64_view(self.due_date),
            completed_at: opt_i64_view(self.completed_at),
            created_at: self.created_at as int,
            updated_at: self.updated_at as int,
        }
    }
}

impl Clone for TodoRow {
    fn clone(&self) -> (r: Self)
        ensures
            r@ == self@,
    {
        TodoRow {
            id: self.id.clone(),
            title: self.title.clone(),
            description: clone_opt_string(&self.description),
            status: self.status.clone(),
            priority: self.priority,
            is_marked: self.is_marked,
            group_id: self.group_id.clone(),
            assignee: clone_opt_string(&self.assignee),
            start_date: self.start_date,
            due_date: self.due_date,
            completed_at: self.completed_at,
            created_at: self.created_at,
            updated_at: self.updated_at,
        }
    }
}

/// One `todo_steps` row.
#[derive(Debug, PartialEq)]
pub struct StepRow {
    pub id: Value,
    pub todo_id: Value,
    pub title: String,
    pub is_completed: i64,
    pub sort_order: i64,
    pub created_at: i64,
}

pub struct StepRowModel {
    pub id: ValueModel,
    pub todo_id: ValueModel,
    pub title: Seq<char>,
    pub is_completed: int,
    pub sort_order: int,
    pub created_at: int,
}

impl View for StepRow {
    type V = StepRowModel;

    open spec fn view(&self) -> StepRowModel {
        StepRowModel {
            id: self.id@,
            todo_id: self.todo_id@,
            title: self.title@,
            is_completed: self.is_completed as int,
            sort_order: self.sort_order as int,
            created_at: self.created_at as int,
        }
    }
}

impl Clone for StepRow {
    fn clone(&self) -> (r: Self)
        ensures
            r@ == self@,
    {
        StepRow {
            id: self.id.clone(),
            todo_id: self.todo_id.clone(),
            title: self.title.clone(),
            is_completed: self.is_completed,
            sort_order: self.sort_order,
            created_at: self.created_at,
        }
    }
}

/// One `attachments` row.
#[derive(Debug, PartialEq)]
pub struct AttachmentRow {
    pub id: Value,
    pub todo_id: Value,
    pub name: String,
    pub file_path: String,
    pub file_size: i64,
    pub mime_type: Option<String>,
    pub created_at: i64,
}

pub struct AttachmentRowModel {
    pub id: ValueModel,
    pub todo_id: ValueModel,
    pub name: Seq<char>,
    pub file_path: Seq<char>,
    pub file_size: int,
    pub mime_type: Option<Seq<char>>,
    pub created_at: int,
}

impl View for AttachmentRow {
    type V = AttachmentRowModel;

    open spec fn view(&self) -> AttachmentRowModel {
        AttachmentRowModel {
            id: self.id@,
            todo_id: self.todo_id@,
            name: self.name@,
            file_path: self.file_path@,
            file_size: self.file_size as int,
            mime_type: opt_str_view(self.mime_type),
            created_at: self.created_at as int,
        }
    }
}

impl Clone for AttachmentRow {
    fn clone(&self) -> (r: Self)
        ensures
            r@ == self@,
    {
        AttachmentRow {
            id: self.id.clone(),
            todo_id: self.todo_id.clone(),
            name: self.name.clone(),
            file_path: self.file_path.clone(),
            file_size: self.file_size,
            mime_type: clone_opt_string(&self.mime_type),
            created_at: self.created_at,
        }
    }
}

/// One `todo_tags` join row.
#[derive(Debug, PartialEq)]
pub struct TodoTagRow {
    pub todo_id: Value,
    pub tag_id: Value,
}

pub struct TodoTagRowModel {
    pub todo_id: ValueModel,
    pub tag_id: ValueModel,
}

impl View for TodoTagRow {
    type V = TodoTagRowModel;

    open spec fn view(&self) -> TodoTagRowModel {
        TodoTagRowModel { todo_id: self.todo_id@, tag_id: self.tag_id@ }
    }
}

impl Clone for TodoTagRow {
    fn clone(&self) -> (r: Self)
        ensures
            r@ == self@,
    {
        TodoTagRow { todo_id: self.todo_id.clone(), tag_id: self.tag_id.clone() }
    }
}

/// The content of the six tables.
#[derive(Debug, PartialEq)]
pub struct DbState {
    pub task_groups: Vec<GroupRow>,
    pub tags: Vec<TagRow>,
    pub todos: Vec<TodoRow>,
    pub todo_steps: Vec<StepRow>,
    pub attachments: Vec<AttachmentRow>,
    pub todo_tags: Vec<TodoTagRow>,
}

pub struct DbModel {
    pub task_groups: Seq<GroupRowModel>,
    pub tags: Seq<TagRowModel>,
    pub todos: Seq<TodoRowModel>,
    pub todo_steps: Seq<StepRowModel>,
    pub attachments: Seq<AttachmentRowModel>,
    pub todo_tags: Seq<TodoTagRowModel>,
}

impl View for DbState {
    type V = DbModel;

    open spec fn view(&self) -> DbModel {
        DbModel {
            task_groups: self.task_groups@.map_values(|r: GroupRow| r@),
            tags: self.tags@.map_values(|r: TagRow| r@),
            todos: self.todos@.map_values(|r: TodoRow| r@),
            todo_steps: self.todo_steps@.map_values(|r: StepRow| r@),
            attachments: self.attachments@.map_values(|r: AttachmentRow| r@),
            todo_tags: self.todo_tags@.map_values(|r: TodoTagRow| r@),
        }
    }
}

} // verus!
