//! Per-entity repositories. Each repository's statements run against the
//! storage engine outside this crate; what lives here is the part worth
//! checking: how an update changes a row, and how the filter fragments of
//! the statistics queries are built.

use vstd::prelude::*;
use crate::dbmodel::{opt_str_view, Value, ValueModel};
use crate::models::{
    completed_at_consistent, status_of_code, Attachment, Tag, TaskGroup, Todo, TodoStatus,
    TodoStep,
};
use crate::requests::GetTodosRequest;
use crate::text::{dec_int, push_i64};

verus! {

/// Repository for whole-database export and import.
pub struct DataRepository;

/// Repository for tasks.
pub struct TodoRepository;

/// The row update performed when a task's status is set: the new status is
/// stored, and the completion time is set exactly when the new status means
/// done, cleared otherwise.
pub open spec fn updated_status_todo(t: Todo, status: i32, now: i64) -> Todo {
    Todo {
        status: status_of_code(status),
        completed_at: if status == 2 {
            Some(now)
        } else {
            None
        },
        updated_at: now,
        ..t
    }
}

/// The row update performed by a partial edit: every field accompanies the
/// edit as `Some(new value)` or stays as it was; a status change also sets
/// or clears the completion time, exactly as a direct status update does.
pub open spec fn applied_update(
    t: Todo,
    title: Option<String>,
    description: Option<Option<String>>,
    status: Option<i32>,
    priority: Option<i32>,
    group_id: Option<Option<i64>>,
    assignee: Option<Option<String>>,
    start_date: Option<Option<i64>>,
    due_date: Option<Option<i64>>,
    now: i64,
) -> Todo {
    Todo {
        title: if title is Some {
            title->0
        } else {
            t.title
        },
        description: if description is Some {
            description->0
        } else {
            t.description
        },
        status: if status is Some {
            status_of_code(status->0)
        } else {
            t.status
        },
        completed_at: if status is Some {
            if status->0 == 2 {
                Some(now)
            } else {
                None
            }
        } else {
            t.completed_at
        },
        priority: if priority is Some {
            priority->0
        } else {
            t.priority
        },
        group_id: if group_id is Some {
            group_id->0
        } else {
            t.group_id
        },
        assignee: if assignee is Some {
            assignee->0
        } else {
            t.assignee
        },
        start_date: if start_date is Some {
            start_date->0
        } else {
            t.start_date
        },
        due_date: if due_date is Some {
            due_date->0
        } else {
            t.due_date
        },
        updated_at: now,
        ..t
    }
}

impl TodoRepository {
    /// A freshly created task: it starts as `Todo`, with no completion time,
    /// and both timestamps at `now`.
    pub fn create(
        id: i64,
        title: String,
        description: Option<String>,
        group_id: Option<i64>,
        start_date: Option<i64>,
        due_date: Option<i64>,
        priority: i32,
        now: i64,
    ) -> (r: Todo)
        ensures
            r == (Todo {
                id,
                title,
                description,
                status: TodoStatus::Todo,
                priority,
                group_id,
                assignee: None,
                start_date,
                due_date,
                completed_at: None,
                created_at: now,
                updated_at: now,
                tags: None,
                steps: None,
                attachments: None,
                group: None,
            }),
            completed_at_consistent(r),
    {
        Todo {
            id,
            title,
            description,
            status: TodoStatus::Todo,
            priority,
            group_id,
            assignee: None,
            start_date,
            due_date,
            completed_at: None,
            created_at: now,
            updated_at: now,
            tags: None,
            steps: None,
            attachments: None,
            group: None,
        }
    }

    /// Sets a task's status. The completion time is non-null afterwards if
    /// and only if the task is done.
    pub fn update_status(todo: Todo, status: i32, now: i64) -> (r: Todo)
        ensures
            r == updated_status_todo(todo, status, now),
            r.completed_at is Some <==> r.status == TodoStatus::Done,
    {
        Todo {
            status: TodoStatus::from_code(status),
            completed_at: if status == 2 {
                Some(now)
            } else {
                None
            },
            updated_at: now,
            ..todo
        }
    }

    /// Applies a partial edit to a task row. A status change keeps the
    /// completion time consistent; an edit without one leaves it alone, so
    /// the consistency the row already had is preserved either way.
    pub fn update(
        todo: Todo,
        title: Option<String>,
        description: Option<Option<String>>,
        status: Option<i32>,
        priority: Option<i32>,
        group_id: Option<Option<i64>>,
        assignee: Option<Option<String>>,
        start_date: Option<Option<i64>>,
        due_date: Option<Option<i64>>,
        now: i64,
    ) -> (r: Todo)
        ensures
            r == applied_update(
                todo,
                title,
                description,
                status,
                priority,
                group_id,
                assignee,
                start_date,
                due_date,
                now,
            ),
            status is Some ==> (r.completed_at is Some <==> r.status == TodoStatus::Done),
            completed_at_consistent(todo) ==> completed_at_consistent(r),
    {
        let new_status = match status {
            Some(c) => TodoStatus::from_code(c),
            None => todo.status,
        };
        let new_completed = match status {
            Some(c) => if c == 2 {
                Some(now)
            } else {
                None
            },
            None => todo.completed_at,
        };
        Todo {
            title: match title {
                Some(v) => v,
                None => todo.title,
            },
            description: match description {
                Some(v) => v,
                None => todo.description,
            },
            status: new_status,
            completed_at: new_completed,
            priority: match priority {
                Some(v) => v,
                None => todo.priority,
            },
            group_id: match group_id {
                Some(v) => v,
                None => todo.group_id,
            },
            assignee: match assignee {
                Some(v) => v,
                None => todo.assignee,
            },
            start_date: match start_date {
                Some(v) => v,
                None => todo.start_date,
            },
            due_date: match due_date {
                Some(v) => v,
                None => todo.due_date,
            },
            updated_at: now,
            ..todo
        }
    }
}

// ---------------------------------------------------------------------------
// The task list query
// ---------------------------------------------------------------------------
/// The statement the task list runs for a given filter request: the base
/// select, one condition per present filter, and the fixed ordering (open
/// tasks first, then by priority, due date and creation time).
pub open spec fn list_query_spec(req: GetTodosRequest) -> Seq<char> {
    "SELECT t.* FROM todos t WHERE 1=1"@ + (if req.group_id is Some {
        " AND t.group_id = ?"@
    } else {
        Seq::empty()
    }) + (if req.status is Some {
        " AND t.status = ?"@
    } else {
        Seq::empty()
    }) + (if req.tag_id is Some {
        " AND EXISTS (SELECT 1 FROM todo_tags tt WHERE tt.todo_id = t.id AND tt.tag_id = ?)"@
    } else {
        Seq::empty()
    }) + (if req.search matches Some(k) && k@.len() > 0 {
        " AND (t.title LIKE ? OR t.description LIKE ?)"@
    } else {
        Seq::empty()
    }) + (if req.priority is Some {
        " AND t.priority = ?"@
    } else {
        Seq::empty()
    }) + (match (req.start_date, req.end_date) {
        (Some(_), Some(_)) =>
            " AND (t.start_date >= ? AND t.start_date < ?) OR (t.due_date >= ? AND t.due_date < ?)"@,
        (Some(_), None) => " AND (t.start_date >= ?) OR (t.due_date >= ?)"@,
        (None, Some(_)) => " AND (t.start_date < ?) OR (t.due_date < ?)"@,
        (None, None) => Seq::empty(),
    })
        + " ORDER BY CASE WHEN t.status = 2 THEN 1 ELSE 0 END, t.priority DESC, t.due_date ASC, t.created_at DESC"@
}

/// The parameters bound to the placeholders of [`list_query_spec`], in
/// order; a search keyword is bound twice, wrapped for substring matching.
pub open spec fn list_params_spec(req: GetTodosRequest) -> Seq<ValueModel> {
    (match req.group_id {
        Some(g) => seq![ValueModel::Int(g as int)],
        None => Seq::empty(),
    }) + (match req.status {
        Some(s) => seq![ValueModel::Int(s as int)],
        None => Seq::empty(),
    }) + (match req.tag_id {
        Some(t) => seq![ValueModel::Int(t as int)],
        None => Seq::empty(),
    }) + (if req.search matches Some(k) && k@.len() > 0 {
        seq![
            ValueModel::Text("%"@ + req.search->0@ + "%"@),
            ValueModel::Text("%"@ + req.search->0@ + "%"@),
        ]
    } else {
        Seq::empty()
    }) + (match req.priority {
        Some(p) => seq![ValueModel::Int(p as int)],
        None => Seq::empty(),
    }) + (match (req.start_date, req.end_date) {
        (Some(s), Some(e)) => seq![
            ValueModel::Int(s as int),
            ValueModel::Int(e as int),
            ValueModel::Int(s as int),
            ValueModel::Int(e as int),
        ],
        (Some(s), None) => seq![ValueModel::Int(s as int), ValueModel::Int(s as int)],
        (None, Some(e)) => seq![ValueModel::Int(e as int), ValueModel::Int(e as int)],
        (None, None) => Seq::empty(),
    })
}

impl TodoRepository {
    /// Builds the filtered, ordered task list statement and its parameters.
    #[verifier::rlimit(60)]
    pub fn list(req: &GetTodosRequest) -> (r: (String, Vec<Value>))
        ensures
            r.0@ == list_query_spec(*req),
            r.1@.map_values(|v: Value| v@) == list_params_spec(*req),
    {
        let mut query = String::new();
        let mut params: Vec<Value> = Vec::new();
        query.append("SELECT t.* FROM todos t WHERE 1=1");
        if let Some(g) = req.group_id {
            query.append(" AND t.group_id = ?");
            params.push(Value::Int(g));
        }
        if let Some(s) = req.status {
            query.append(" AND t.status = ?");
            params.push(Value::Int(s as i64));
        }
        if let Some(t) = req.tag_id {
            query.append(
                " AND EXISTS (SELECT 1 FROM todo_tags tt WHERE tt.todo_id = t.id AND tt.tag_id = ?)",
            );
            params.push(Value::Int(t));
        }
        match &req.search {
            Some(k) if k.as_str().unicode_len() > 0 => {
                query.append(" AND (t.title LIKE ? OR t.description LIKE ?)");
                let mut pattern = String::new();
                pattern.append("%");
                pattern.append(k.as_str());
                pattern.append("%");
                proof {
                    assert(pattern@ =~= "%"@ + k@ + "%"@);
                }
                params.push(Value::Text(pattern.clone()));
                params.push(Value::Text(pattern));
            },
            _ => {},
        }
        if let Some(p) = req.priority {
            query.append(" AND t.priority = ?");
            params.push(Value::Int(p as i64));
        }
        match (req.start_date, req.end_date) {
            (Some(s), Some(e)) => {
                query.append(
                    " AND (t.start_date >= ? AND t.start_date < ?) OR (t.due_date >= ? AND t.due_date < ?)",
                );
                params.push(Value::Int(s));
                params.push(Value::Int(e));
                params.push(Value::Int(s));
                params.push(Value::Int(e));
            },
            (Some(s), None) => {
                query.append(" AND (t.start_date >= ?) OR (t.due_date >= ?)");
                params.push(Value::Int(s));
                params.push(Value::Int(s));
            },
            (None, Some(e)) => {
                query.append(" AND (t.start_date < ?) OR (t.due_date < ?)");
                params.push(Value::Int(e));
                params.push(Value::Int(e));
            },
            (None, None) => {},
        }
        query.append(
            " ORDER BY CASE WHEN t.status = 2 THEN 1 ELSE 0 END, t.priority DESC, t.due_date ASC, t.created_at DESC",
        );
        proof {
            assert(query@ =~= list_query_spec(*req));
            assert(params@.map_values(|v: Value| v@) =~= list_params_spec(*req));
        }
        (query, params)
    }

    /// Attaches the eagerly loaded relations to a task: each list when it is
    /// non-empty, the group when one was found; everything else is
    /// untouched.
    pub fn load_relations(
        todo: Todo,
        tags: Vec<Tag>,
        steps: Vec<TodoStep>,
        attachments: Vec<Attachment>,
        group: Option<TaskGroup>,
    ) -> (r: Todo)
        ensures
            r == (Todo {
                tags: if tags@.len() > 0 {
                    Some(tags)
                } else {
                    todo.tags
                },
                steps: if steps@.len() > 0 {
                    Some(steps)
                } else {
                    todo.steps
                },
                attachments: if attachments@.len() > 0 {
                    Some(attachments)
                } else {
                    todo.attachments
                },
                group: if group is Some {
                    group
                } else {
                    todo.group
                },
                ..todo
            }),
    {
        let mut r = todo;
        if tags.len() > 0 {
            r.tags = Some(tags);
        }
        if steps.len() > 0 {
            r.steps = Some(steps);
        }
        if attachments.len() > 0 {
            r.attachments = Some(attachments);
        }
        if group.is_some() {
            r.group = group;
        }
        r
    }
}

// ---------------------------------------------------------------------------
// The remaining per-entity repositories
// ---------------------------------------------------------------------------
/// Repository for task groups.
pub struct GroupRepository;

impl GroupRepository {
    /// The group row a create inserts: the caller's fields, the default icon
    /// and swatch where none are given, and the next sort position.
    pub fn create(
        id: i64,
        name: String,
        parent_id: Option<i64>,
        icon: Option<String>,
        color: Option<String>,
        sort_order: i32,
        now: i64,
    ) -> (r: TaskGroup)
        ensures
            r.id == id,
            r.name == name,
            r.parent_id == parent_id,
            opt_str_view(r.icon) == (match icon {
                Some(s) => Some(s@),
                None => Some("📁"@),
            }),
            opt_str_view(r.color) == (match color {
                Some(s) => Some(s@),
                None => Some("#409EFF"@),
            }),
            r.sort_order == sort_order,
            r.created_at == now,
            r.updated_at == now,
    {
        TaskGroup {
            id,
            name,
            parent_id,
            icon: Some(
                match icon {
                    Some(s) => s,
                    None => String::from_str("📁"),
                },
            ),
            color: Some(
                match color {
                    Some(s) => s,
                    None => String::from_str("#409EFF"),
                },
            ),
            sort_order,
            created_at: now,
            updated_at: now,
        }
    }

    /// Applies a partial edit to a group row.
    pub fn update(
        group: TaskGroup,
        name: Option<String>,
        parent_id: Option<Option<i64>>,
        icon: Option<String>,
        color: Option<String>,
        now: i64,
    ) -> (r: TaskGroup)
        ensures
            r == (TaskGroup {
                name: if name is Some {
                    name->0
                } else {
                    group.name
                },
                parent_id: if parent_id is Some {
                    parent_id->0
                } else {
                    group.parent_id
                },
                icon: if icon is Some {
                    icon
                } else {
                    group.icon
                },
                color: if color is Some {
                    color
                } else {
                    group.color
                },
                updated_at: now,
                ..group
            }),
    {
        TaskGroup {
            name: match name {
                Some(v) => v,
                None => group.name,
            },
            parent_id: match parent_id {
                Some(v) => v,
                None => group.parent_id,
            },
            icon: match icon {
                Some(v) => Some(v),
                None => group.icon,
            },
            color: match color {
                Some(v) => Some(v),
                None => group.color,
            },
            updated_at: now,
            ..group
        }
    }
}

/// Repository for tags.
pub struct TagRepository;

impl TagRepository {
    /// The tag row a create inserts.
    pub fn create(id: i64, name: String, color: String, now: i64) -> (r: Tag)
        ensures
            r == (Tag { id, name, color, created_at: now }),
    {
        Tag { id, name, color, created_at: now }
    }

    /// Applies a partial edit to a tag row.
    pub fn update(tag: Tag, name: Option<String>, color: Option<String>) -> (r: Tag)
        ensures
            r == (Tag {
                name: if name is Some {
                    name->0
                } else {
                    tag.name
                },
                color: if color is Some {
                    color->0
                } else {
                    tag.color
                },
                ..tag
            }),
    {
        Tag {
            name: match name {
                Some(v) => v,
                None => tag.name,
            },
            color: match color {
                Some(v) => v,
                None => tag.color,
            },
            ..tag
        }
    }
}

/// Repository for checklist steps.
pub struct StepRepository;

impl StepRepository {
    /// The step row a create inserts: not yet completed, at the given sort
    /// position.
    pub fn create(id: i64, todo_id: i64, title: String, sort_order: i32, now: i64) -> (r: TodoStep)
        ensures
            r == (TodoStep { id, todo_id, title, is_completed: false, sort_order, created_at: now }),
    {
        TodoStep { id, todo_id, title, is_completed: false, sort_order, created_at: now }
    }

    /// Applies a partial edit to a step row.
    pub fn update(
        step: TodoStep,
        title: Option<String>,
        is_completed: Option<bool>,
        sort_order: Option<i32>,
    ) -> (r: TodoStep)
        ensures
            r == (TodoStep {
                title: if title is Some {
                    title->0
                } else {
                    step.title
                },
                is_completed: if is_completed is Some {
                    is_completed->0
                } else {
                    step.is_completed
                },
                sort_order: if sort_order is Some {
                    sort_order->0
                } else {
                    step.sort_order
                },
                ..step
            }),
    {
        TodoStep {
            title: match title {
                Some(v) => v,
                None => step.title,
            },
            is_completed: match is_completed {
                Some(v) => v,
                None => step.is_completed,
            },
            sort_order: match sort_order {
                Some(v) => v,
                None => step.sort_order,
            },
            ..step
        }
    }
}

/// Repository for attachments.
pub struct AttachmentRepository;

impl AttachmentRepository {
    /// The attachment row a create inserts: the user-visible name and the
    /// decoupled on-disk path are stored side by side.
    pub fn create(
        id: i64,
        todo_id: i64,
        name: String,
        file_path: String,
        file_size: i64,
        mime_type: Option<String>,
        now: i64,
    ) -> (r: Attachment)
        ensures
            r == (Attachment { id, todo_id, name, file_path, file_size, mime_type, created_at: now }),
    {
        Attachment { id, todo_id, name, file_path, file_size, mime_type, created_at: now }
    }
}

/// Setting a task to done records the completion time, and setting it back
/// clears it again: after any sequence of status updates the completion
/// time is present exactly while the task is done.
pub proof fn lemma_status_update_round_trip(t: Todo, n1: i64, n2: i64)
    ensures
        updated_status_todo(t, 2, n1).completed_at == Some(n1),
        updated_status_todo(t, 2, n1).status == TodoStatus::Done,
        updated_status_todo(updated_status_todo(t, 2, n1), 0, n2).completed_at is None,
        updated_status_todo(updated_status_todo(t, 2, n1), 0, n2).status == TodoStatus::Todo,
{
}

/// Any status update establishes the completion-time invariant, whatever
/// held before.
pub proof fn lemma_status_update_consistent(t: Todo, status: i32, now: i64)
    ensures
        completed_at_consistent(updated_status_todo(t, status, now)),
{
}

// ---------------------------------------------------------------------------
// Statistics query fragments
// ---------------------------------------------------------------------------
/// `?, ?, ...` with `n` placeholders.
pub open spec fn placeholder_list(n: nat) -> Seq<char>
    decreases n,
{
    if n == 0 {
        Seq::empty()
    } else if n == 1 {
        "?"@
    } else {
        placeholder_list((n - 1) as nat) + ", ?"@
    }
}

/// `n` per-tag existence conditions joined with `OR`.
pub open spec fn tag_condition_list(n: nat) -> Seq<char>
    decreases n,
{
    if n == 0 {
        Seq::empty()
    } else if n == 1 {
        "EXISTS (SELECT 1 FROM todo_tags tt WHERE tt.todo_id = t.id AND tt.tag_id = ?)"@
    } else {
        tag_condition_list((n - 1) as nat) + " OR "@
            + "EXISTS (SELECT 1 FROM todo_tags tt WHERE tt.todo_id = t.id AND tt.tag_id = ?)"@
    }
}

/// The time-range condition appended for one column: both bounds, one, or
/// nothing.
pub open spec fn time_filter(col: Seq<char>, start_date: Option<int>, end_date: Option<int>) -> Seq<
    char,
> {
    match (start_date, end_date) {
        (Some(s), Some(e)) => " AND "@ + col + " >= "@ + dec_int(s) + " AND "@ + col + " <= "@
            + dec_int(e),
        (Some(s), None) => " AND "@ + col + " >= "@ + dec_int(s),
        (None, Some(e)) => " AND "@ + col + " <= "@ + dec_int(e),
        (None, None) => Seq::empty(),
    }
}

fn one_time_filter(col: &str, start_date: Option<i64>, end_date: Option<i64>) -> (r: String)
    ensures
        r@ == time_filter(
            col@,
            match start_date {
                Some(s) => Some(s as int),
                None => None,
            },
            match end_date {
                Some(e) => Some(e as int),
                None => None,
            },
        ),
{
    let mut out = String::new();
    match (start_date, end_date) {
        (Some(s), Some(e)) => {
            out.append(" AND ");
            out.append(col);
            out.append(" >= ");
            push_i64(s, &mut out);
            out.append(" AND ");
            out.append(col);
            out.append(" <= ");
            push_i64(e, &mut out);
            proof {
                assert(out@ =~= " AND "@ + col@ + " >= "@ + dec_int(s as int) + " AND "@ + col@
                    + " <= "@ + dec_int(e as int));
            }
        },
        (Some(s), None) => {
            out.append(" AND ");
            out.append(col);
            out.append(" >= ");
            push_i64(s, &mut out);
            proof {
                assert(out@ =~= " AND "@ + col@ + " >= "@ + dec_int(s as int));
            }
        },
        (None, Some(e)) => {
            out.append(" AND ");
            out.append(col);
            out.append(" <= ");
            push_i64(e, &mut out);
            proof {
                assert(out@ =~= " AND "@ + col@ + " <= "@ + dec_int(e as int));
            }
        },
        (None, None) => {
            proof {
                assert(out@ =~= Seq::<char>::empty());
            }
        },
    }
    out
}

fn copy_i64s(v: &Vec<i64>) -> (r: Vec<i64>)
    ensures
        r@ == v@,
{
    let mut out: Vec<i64> = Vec::new();
    let mut i: usize = 0;
    while i < v.len()
        invariant
            0 <= i <= v@.len(),
            out@.len() == i,
            forall|j: int| 0 <= j < i ==> out@[j] == v@[j],
        decreases v@.len() - i,
    {
        out.push(v[i]);
        i = i + 1;
    }
    proof {
        assert(out@ =~= v@);
    }
    out
}

fn copy_i32s(v: &Vec<i32>) -> (r: Vec<i32>)
    ensures
        r@ == v@,
{
    let mut out: Vec<i32> = Vec::new();
    let mut i: usize = 0;
    while i < v.len()
        invariant
            0 <= i <= v@.len(),
            out@.len() == i,
            forall|j: int| 0 <= j < i ==> out@[j] == v@[j],
        decreases v@.len() - i,
    {
        out.push(v[i]);
        i = i + 1;
    }
    proof {
        assert(out@ =~= v@);
    }
    out
}

fn build_placeholders(n: usize) -> (r: String)
    ensures
        r@ == placeholder_list(n as nat),
{
    let mut out = String::new();
    let mut i: usize = 0;
    while i < n
        invariant
            0 <= i <= n,
            out@ == placeholder_list(i as nat),
        decreases n - i,
    {
        if i == 0 {
            out.append("?");
            proof {
                assert(Seq::<char>::empty() + "?"@ =~= "?"@);
            }
        } else {
            out.append(", ?");
        }
        i = i + 1;
    }
    out
}

/// What the group filter yields for a chosen set of group ids.
pub open spec fn group_filter_spec(group_ids: Option<Seq<i64>>) -> (Seq<char>, Seq<i64>) {
    match group_ids {
        Some(g) => if g.len() > 0 {
            (" AND group_id IN ("@ + placeholder_list(g.len()) + ")"@, g)
        } else {
            (Seq::empty(), Seq::empty())
        },
        None => (Seq::empty(), Seq::empty()),
    }
}

/// What the tag filter yields for a chosen set of tag ids.
pub open spec fn tag_filter_spec(tag_ids: Option<Seq<i64>>) -> (Seq<char>, Seq<i64>) {
    match tag_ids {
        Some(t) => if t.len() > 0 {
            (" AND ("@ + tag_condition_list(t.len()) + ")"@, t)
        } else {
            (Seq::empty(), Seq::empty())
        },
        None => (Seq::empty(), Seq::empty()),
    }
}

/// What the status filter yields for a chosen set of status codes.
pub open spec fn status_filter_spec(status_ids: Option<Seq<i32>>) -> (Seq<char>, Seq<i32>) {
    match status_ids {
        Some(c) => if c.len() > 0 {
            (" AND t.status IN ("@ + placeholder_list(c.len()) + ")"@, c)
        } else {
            (Seq::empty(), Seq::empty())
        },
        None => (Seq::empty(), Seq::empty()),
    }
}

/// Statistics queries over the tasks.
pub struct StatsRepository;

impl StatsRepository {
    /// The time-range conditions for the three per-state count queries:
    /// waiting tasks are filtered by creation time, running ones by update
    /// time, done ones by completion time.
    pub fn build_time_filters(start_date: Option<i64>, end_date: Option<i64>) -> (r: (
        String,
        String,
        String,
    ))
        ensures
            ({
                let s = match start_date {
                    Some(s) => Some(s as int),
                    None => None::<int>,
                };
                let e = match end_date {
                    Some(e) => Some(e as int),
                    None => None::<int>,
                };
                &&& r.0@ == time_filter("created_at"@, s, e)
                &&& r.1@ == time_filter("updated_at"@, s, e)
                &&& r.2@ == time_filter("completed_at"@, s, e)
            }),
    {
        let created = one_time_filter("created_at", start_date, end_date);
        let updated = one_time_filter("updated_at", start_date, end_date);
        let completed = one_time_filter("completed_at", start_date, end_date);
        (created, updated, completed)
    }

    /// The six count statements behind the overall statistics, with their
    /// time windows: waiting, important and overdue tasks count by creation
    /// time, running ones by update time, done ones by completion time; an
    /// overdue task's deadline has passed while it is not done.
    pub fn get_stats(start_date: Option<i64>, end_date: Option<i64>, now: i64) -> (r: Vec<String>)
        ensures
            ({
                let s = match start_date {
                    Some(s) => Some(s as int),
                    None => None::<int>,
                };
                let e = match end_date {
                    Some(e) => Some(e as int),
                    None => None::<int>,
                };
                let created = time_filter("created_at"@, s, e);
                &&& r@.len() == 6
                &&& r@[0]@ == "SELECT COUNT(*) FROM todos WHERE 1=1"@ + created
                &&& r@[1]@ == "SELECT COUNT(*) FROM todos WHERE status = 0"@ + created
                &&& r@[2]@ == "SELECT COUNT(*) FROM todos WHERE status = 1"@ + time_filter(
                    "updated_at"@,
                    s,
                    e,
                )
                &&& r@[3]@ == "SELECT COUNT(*) FROM todos WHERE status = 2"@ + time_filter(
                    "completed_at"@,
                    s,
                    e,
                )
                &&& r@[4]@ == "SELECT COUNT(*) FROM todos WHERE priority >= 1"@ + created
                &&& r@[5]@ == "SELECT COUNT(*) FROM todos WHERE due_date < "@ + dec_int(now as int)
                    + " AND status != 2"@ + created
            }),
    {
        let (created, updated, completed) = Self::build_time_filters(start_date, end_date);
        let mut out: Vec<String> = Vec::new();
        let mut total = String::new();
        total.append("SELECT COUNT(*) FROM todos WHERE 1=1");
        total.append(created.as_str());
        proof {
            assert(Seq::<char>::empty() + "SELECT COUNT(*) FROM todos WHERE 1=1"@ + created@
                =~= "SELECT COUNT(*) FROM todos WHERE 1=1"@ + created@);
        }
        out.push(total);
        let mut waiting = String::new();
        waiting.append("SELECT COUNT(*) FROM todos WHERE status = 0");
        waiting.append(created.as_str());
        proof {
            assert(Seq::<char>::empty() + "SELECT COUNT(*) FROM todos WHERE status = 0"@ + created@
                =~= "SELECT COUNT(*) FROM todos WHERE status = 0"@ + created@);
        }
        out.push(waiting);
        let mut running = String::new();
        running.append("SELECT COUNT(*) FROM todos WHERE status = 1");
        running.append(updated.as_str());
        proof {
            assert(Seq::<char>::empty() + "SELECT COUNT(*) FROM todos WHERE status = 1"@ + updated@
                =~= "SELECT COUNT(*) FROM todos WHERE status = 1"@ + updated@);
        }
        out.push(running);
        let mut done = String::new();
        done.append("SELECT COUNT(*) FROM todos WHERE status = 2");
        done.append(completed.as_str());
        proof {
            assert(Seq::<char>::empty() + "SELECT COUNT(*) FROM todos WHERE status = 2"@
                + completed@ =~= "SELECT COUNT(*) FROM todos WHERE status = 2"@ + completed@);
        }
        out.push(done);
        let mut marked = String::new();
        marked.append("SELECT COUNT(*) FROM todos WHERE priority >= 1");
        marked.append(created.as_str());
        proof {
            assert(Seq::<char>::empty() + "SELECT COUNT(*) FROM todos WHERE priority >= 1"@
                + created@ =~= "SELECT COUNT(*) FROM todos WHERE priority >= 1"@ + created@);
        }
        out.push(marked);
        let mut overdue = String::new();
        overdue.append("SELECT COUNT(*) FROM todos WHERE due_date < ");
        push_i64(now, &mut overdue);
        overdue.append(" AND status != 2");
        overdue.append(created.as_str());
        proof {
            assert(overdue@ =~= "SELECT COUNT(*) FROM todos WHERE due_date < "@ + dec_int(
                now as int,
            ) + " AND status != 2"@ + created@);
        }
        out.push(overdue);
        out
    }

    /// The statement behind one task list of the detailed statistics: tasks
    /// in one state, within that state's time window and the chosen group,
    /// tag and status conditions, ordered as the task list is.
    pub fn query_tasks_by_status(
        status: i32,
        time_filter: &str,
        group_filter: &str,
        tag_filter: &str,
        status_filter: &str,
    ) -> (r: String)
        ensures
            r@ == "SELECT t.* FROM todos t WHERE t.status = "@ + dec_int(status as int)
                + time_filter@ + group_filter@ + tag_filter@ + status_filter@
                + " ORDER BY CASE WHEN t.status = 2 THEN 1 ELSE 0 END, t.priority DESC, t.due_date ASC, t.created_at DESC"@,
    {
        let mut out = String::new();
        out.append("SELECT t.* FROM todos t WHERE t.status = ");
        push_i64(status as i64, &mut out);
        out.append(time_filter);
        out.append(group_filter);
        out.append(tag_filter);
        out.append(status_filter);
        out.append(
            " ORDER BY CASE WHEN t.status = 2 THEN 1 ELSE 0 END, t.priority DESC, t.due_date ASC, t.created_at DESC",
        );
        proof {
            assert(out@ =~= "SELECT t.* FROM todos t WHERE t.status = "@ + dec_int(status as int)
                + time_filter@ + group_filter@ + tag_filter@ + status_filter@
                + " ORDER BY CASE WHEN t.status = 2 THEN 1 ELSE 0 END, t.priority DESC, t.due_date ASC, t.created_at DESC"@);
        }
        out
    }

    /// The day windows of the per-day statistics: `days` consecutive
    /// half-open millisecond ranges of one day each, starting at
    /// `start_date`. Each window's counts are then taken by two parameterized
    /// count statements over `completed_at` and `created_at`.
    pub fn get_stats_by_date(start_date: i64, days: i32) -> (r: Vec<(i64, i64)>)
        requires
            days >= 0,
            start_date + (days as int) * 86_400_000 < 0x8000_0000_0000_0000,
        ensures
            r@.len() == days,
            forall|i: int|
                0 <= i < days ==> (#[trigger] r@[i]).0 == start_date + i * 86_400_000 && r@[i].1
                    == start_date + (i + 1) * 86_400_000,
    {
        let mut out: Vec<(i64, i64)> = Vec::new();
        let mut i: i32 = 0;
        while i < days
            invariant
                0 <= i <= days,
                start_date + (days as int) * 86_400_000 < 0x8000_0000_0000_0000,
                out@.len() == i,
                forall|j: int|
                    0 <= j < i ==> (#[trigger] out@[j]).0 == start_date + j * 86_400_000
                        && out@[j].1 == start_date + (j + 1) * 86_400_000,
            decreases days - i,
        {
            proof {
                assert((i as int) * 86_400_000 <= (days as int) * 86_400_000) by (nonlinear_arith)
                    requires
                        0 <= i <= days,
                ;
                assert((i as int + 1) * 86_400_000 <= (days as int) * 86_400_000)
                    by (nonlinear_arith)
                    requires
                        0 <= i < days,
                ;
                assert((i as int + 1) * 86_400_000 == (i as int) * 86_400_000 + 86_400_000);
            }
            let day_start = start_date + (i as i64) * 86_400_000;
            let day_end = day_start + 86_400_000;
            out.push((day_start, day_end));
            i = i + 1;
        }
        out
    }

    /// The group condition: an `IN` list with one placeholder per chosen
    /// group, or nothing when no groups are chosen.
    pub fn build_group_filter(group_ids: &Option<Vec<i64>>) -> (r: (String, Vec<i64>))
        ensures
            ({
                let want = group_filter_spec(
                    match group_ids {
                        Some(g) => Some(g@),
                        None => None,
                    },
                );
                r.0@ == want.0 && r.1@ == want.1
            }),
    {
        match group_ids {
            Some(gids) if gids.len() > 0 => {
                let mut out = String::new();
                out.append(" AND group_id IN (");
                let ph = build_placeholders(gids.len());
                out.append(ph.as_str());
                out.append(")");
                proof {
                    assert(Seq::<char>::empty() + " AND group_id IN ("@ =~= " AND group_id IN ("@);
                    assert(out@ =~= " AND group_id IN ("@ + placeholder_list(gids@.len()) + ")"@);
                }
                (out, copy_i64s(gids))
            },
            _ => (String::new(), Vec::new()),
        }
    }

    /// The tag condition: per-tag existence subqueries joined with `OR`, or
    /// nothing when no tags are chosen.
    pub fn build_tag_filter(tag_ids: &Option<Vec<i64>>) -> (r: (String, Vec<i64>))
        ensures
            ({
                let want = tag_filter_spec(
                    match tag_ids {
                        Some(t) => Some(t@),
                        None => None,
                    },
                );
                r.0@ == want.0 && r.1@ == want.1
            }),
    {
        match tag_ids {
            Some(tids) if tids.len() > 0 => {
                let mut out = String::new();
                out.append(" AND (");
                let n = tids.len();
                let mut i: usize = 0;
                let mut conds = String::new();
                while i < n
                    invariant
                        0 <= i <= n,
                        conds@ == tag_condition_list(i as nat),
                    decreases n - i,
                {
                    if i == 0 {
                        conds.append(
                            "EXISTS (SELECT 1 FROM todo_tags tt WHERE tt.todo_id = t.id AND tt.tag_id = ?)",
                        );
                        proof {
                            assert(Seq::<char>::empty()
                                + "EXISTS (SELECT 1 FROM todo_tags tt WHERE tt.todo_id = t.id AND tt.tag_id = ?)"@
                                =~= "EXISTS (SELECT 1 FROM todo_tags tt WHERE tt.todo_id = t.id AND tt.tag_id = ?)"@);
                        }
                    } else {
                        conds.append(" OR ");
                        conds.append(
                            "EXISTS (SELECT 1 FROM todo_tags tt WHERE tt.todo_id = t.id AND tt.tag_id = ?)",
                        );
                        proof {
                            assert(conds@ =~= tag_condition_list(i as nat) + " OR "@
                                + "EXISTS (SELECT 1 FROM todo_tags tt WHERE tt.todo_id = t.id AND tt.tag_id = ?)"@);
                        }
                    }
                    i = i + 1;
                }
                out.append(conds.as_str());
                out.append(")");
                proof {
                    assert(Seq::<char>::empty() + " AND ("@ =~= " AND ("@);
                    assert(out@ =~= " AND ("@ + tag_condition_list(tids@.len()) + ")"@);
                }
                (out, copy_i64s(tids))
            },
            _ => (String::new(), Vec::new()),
        }
    }

    /// The status condition: an `IN` list with one placeholder per chosen
    /// status, or nothing when no statuses are chosen.
    pub fn build_status_filter(status_ids: &Option<Vec<i32>>) -> (r: (String, Vec<i32>))
        ensures
            ({
                let want = status_filter_spec(
                    match status_ids {
                        Some(c) => Some(c@),
                        None => None,
                    },
                );
                r.0@ == want.0 && r.1@ == want.1
            }),
    {
        match status_ids {
            Some(sids) if sids.len() > 0 => {
                let mut out = String::new();
                out.append(" AND t.status IN (");
                let ph = build_placeholders(sids.len());
                out.append(ph.as_str());
                out.append(")");
                proof {
                    assert(Seq::<char>::empty() + " AND t.status IN ("@ =~= " AND t.status IN ("@);
                    assert(out@ =~= " AND t.status IN ("@ + placeholder_list(sids@.len()) + ")"@);
                }
                (out, copy_i32s(sids))
            },
            _ => (String::new(), Vec::new()),
        }
    }
}

} // verus!
