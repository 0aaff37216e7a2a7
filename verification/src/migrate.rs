//! The schema migration engine.
//!
//! Two ordered, independently gated steps bring a database of unknown prior
//! shape up to the current schema:
//!
//! 1. identifier-domain migration — when `todos.id` holds text, every table
//!    is rebuilt with dense integer primary keys and every foreign key is
//!    rewritten through the captured old-key-to-new-key mapping;
//! 2. status-domain migration — when `todos.status` holds text, the symbolic
//!    statuses are replaced by their integer codes.
//!
//! Each step is gated by the runtime storage class of a representative
//! column value, never by a stored version number, which is what makes a
//! second run a guaranteed no-op.

use vstd::prelude::*;
use crate::dbmodel::{
    AttachmentRow, AttachmentRowModel, DbModel, DbState, GroupRow, GroupRowModel, StepRow,
    StepRowModel, TagRow, TagRowModel, TodoRow, TodoRowModel, TodoTagRow, TodoTagRowModel, Value,
    ValueModel,
};
use crate::text::{lower, str_eq, str_eq_lower, lemma_lower_idempotent};

verus! {

/// Why a migration step refused to commit. Any of these aborts startup; the
/// database is left in its pre-step state.
#[derive(Debug, Clone, Copy, PartialEq, Eq, Structural)]
pub enum MigrationError {
    /// Two tags share a name, so the rebuilt `tags` table would violate its
    /// uniqueness constraint.
    DuplicateTagName,
    /// A `todos` row does not have the legacy shape (text id, `is_marked`
    /// column present, integer-or-null group reference).
    TodoRowShape,
    /// A `todo_steps` row's parent reference is not text.
    StepRowShape,
    /// An `attachments` row's parent reference is not text.
    AttachmentRowShape,
    /// A `todo_tags` row's references are not both text.
    LinkRowShape,
}

/// The view of an executable migration result.
pub open spec fn result_model(r: Result<DbState, MigrationError>) -> Result<
    DbModel,
    MigrationError,
> {
    match r {
        Ok(d) => Ok(d@),
        Err(e) => Err(e),
    }
}

// ---------------------------------------------------------------------------
// Status mapping
// ---------------------------------------------------------------------------
/// The integer code a legacy symbolic status migrates to, case-insensitively;
/// anything unrecognized becomes 0.
pub open spec fn legacy_status_code(s: Seq<char>) -> int {
    if lower(s) == "todo"@ {
        0
    } else if lower(s) == "in_progress"@ {
        1
    } else if lower(s) == "done"@ {
        2
    } else {
        0
    }
}

/// The code any stored status value migrates to: text through the case
/// mapping, everything else to 0.
pub open spec fn status_value_code(v: ValueModel) -> int {
    match v {
        ValueModel::Text(s) => legacy_status_code(s),
        _ => 0,
    }
}

/// The status mapping ignores case: a string and its lower-cased form
/// migrate to the same code.
pub proof fn lemma_status_mapping_case_insensitive(s: Seq<char>)
    ensures
        legacy_status_code(lower(s)) == legacy_status_code(s),
{
    lemma_lower_idempotent(s);
}

/// The three symbolic statuses map to their codes; everything else, to 0.
pub proof fn lemma_status_mapping_exact(s: Seq<char>)
    ensures
        legacy_status_code("todo"@) == 0,
        legacy_status_code("in_progress"@) == 1,
        legacy_status_code("done"@) == 2,
        lower(s) != "todo"@ && lower(s) != "in_progress"@ && lower(s) != "done"@
            ==> legacy_status_code(s) == 0,
{
    reveal_strlit("todo");
    reveal_strlit("in_progress");
    reveal_strlit("done");
    assert(lower("todo"@) =~= "todo"@);
    assert(lower("in_progress"@) =~= "in_progress"@);
    assert(lower("done"@) =~= "done"@);
    assert("done"@[0] != "todo"@[0]);
}

/// Exec form of [`legacy_status_code`].
pub fn legacy_status_code_of(s: &str) -> (r: i64)
    ensures
        r as int == legacy_status_code(s@),
        0 <= r <= 2,
{
    if str_eq_lower(s, "todo") {
        0
    } else if str_eq_lower(s, "in_progress") {
        1
    } else if str_eq_lower(s, "done") {
        2
    } else {
        0
    }
}

// ---------------------------------------------------------------------------
// Detection probes
// ---------------------------------------------------------------------------
/// The identifier-domain step applies when the probed `todos.id` value is
/// text. An empty table yields no probe row and no migration.
pub open spec fn id_migration_applicable(db: DbModel) -> bool {
    db.todos.len() > 0 && db.todos[0].id is Text
}

/// The status-domain step applies when the probed `todos.status` value is
/// text.
pub open spec fn status_migration_applicable(db: DbModel) -> bool {
    db.todos.len() > 0 && db.todos[0].status is Text
}

// ---------------------------------------------------------------------------
// Shape checks for the identifier-domain step
// ---------------------------------------------------------------------------
pub open spec fn todo_shape_ok(t: TodoRowModel) -> bool {
    &&& t.id is Text
    &&& t.is_marked is Some
    &&& !(t.group_id is Text)
}

pub open spec fn todos_shape_ok(ts: Seq<TodoRowModel>) -> bool {
    forall|i: int| 0 <= i < ts.len() ==> todo_shape_ok(#[trigger] ts[i])
}

pub open spec fn steps_shape_ok(ss: Seq<StepRowModel>) -> bool {
    forall|i: int| 0 <= i < ss.len() ==> (#[trigger] ss[i]).todo_id is Text
}

pub open spec fn attachments_shape_ok(atts: Seq<AttachmentRowModel>) -> bool {
    forall|i: int| 0 <= i < atts.len() ==> (#[trigger] atts[i]).todo_id is Text
}

pub open spec fn links_shape_ok(ls: Seq<TodoTagRowModel>) -> bool {
    forall|i: int|
        0 <= i < ls.len() ==> (#[trigger] ls[i]).todo_id is Text && ls[i].tag_id is Text
}

pub open spec fn tag_names_unique(ts: Seq<TagRowModel>) -> bool {
    forall|i: int, j: int| 0 <= i < j < ts.len() ==> (#[trigger] ts[i]).name != (#[trigger] ts[j]).name
}

// ---------------------------------------------------------------------------
// The old-key-to-new-key mappings
// ---------------------------------------------------------------------------
/// The new integer id of the todo whose legacy text id is `key`: one more
/// than the position of its last occurrence, `None` when no row carried it.
pub open spec fn new_todo_id(ts: Seq<TodoRowModel>, key: Seq<char>) -> Option<int>
    decreases ts.len(),
{
    if ts.len() == 0 {
        None
    } else if ts.last().id == ValueModel::Text(key) {
        Some(ts.len() as int)
    } else {
        new_todo_id(ts.drop_last(), key)
    }
}

/// The new integer id of the tag whose legacy text id is `key`.
pub open spec fn new_tag_id(ts: Seq<TagRowModel>, key: Seq<char>) -> Option<int>
    decreases ts.len(),
{
    if ts.len() == 0 {
        None
    } else if ts.last().id == ValueModel::Text(key) {
        Some(ts.len() as int)
    } else {
        new_tag_id(ts.drop_last(), key)
    }
}

/// A resolved new todo id names the migrated position of the row that
/// carried the legacy key.
pub proof fn lemma_new_todo_id_resolves(ts: Seq<TodoRowModel>, key: Seq<char>)
    ensures
        new_todo_id(ts, key) matches Some(k) ==> 1 <= k <= ts.len() && ts[k - 1].id
            == ValueModel::Text(key),
    decreases ts.len(),
{
    if ts.len() > 0 && !(ts.last().id == ValueModel::Text(key)) {
        lemma_new_todo_id_resolves(ts.drop_last(), key);
    }
}

/// A resolved new tag id names the migrated position of the tag that
/// carried the legacy key.
pub proof fn lemma_new_tag_id_resolves(ts: Seq<TagRowModel>, key: Seq<char>)
    ensures
        new_tag_id(ts, key) matches Some(k) ==> 1 <= k <= ts.len() && ts[k - 1].id
            == ValueModel::Text(key),
    decreases ts.len(),
{
    if ts.len() > 0 && !(ts.last().id == ValueModel::Text(key)) {
        lemma_new_tag_id_resolves(ts.drop_last(), key);
    }
}

// ---------------------------------------------------------------------------
// The identifier-domain transforms, table by table
// ---------------------------------------------------------------------------
/// A group keeps everything but its key; the parent reference is carried
/// verbatim, as the legacy engine copied that column untyped.
pub open spec fn migrated_group(g: GroupRowModel, fresh_id: int) -> GroupRowModel {
    GroupRowModel { id: ValueModel::Int(fresh_id), ..g }
}

pub open spec fn migrate_groups(gs: Seq<GroupRowModel>) -> Seq<GroupRowModel> {
    Seq::new(gs.len(), |i: int| migrated_group(gs[i], i + 1))
}

pub open spec fn migrated_tag(t: TagRowModel, fresh_id: int) -> TagRowModel {
    TagRowModel { id: ValueModel::Int(fresh_id), ..t }
}

pub open spec fn migrate_tags(ts: Seq<TagRowModel>) -> Seq<TagRowModel> {
    Seq::new(ts.len(), |i: int| migrated_tag(ts[i], i + 1))
}

/// A todo gets a fresh key and loses the legacy `is_marked` column; the
/// status value is carried verbatim (the status-domain step handles it).
pub open spec fn migrated_todo(t: TodoRowModel, fresh_id: int) -> TodoRowModel {
    TodoRowModel { id: ValueModel::Int(fresh_id), is_marked: None, ..t }
}

pub open spec fn migrate_todos(ts: Seq<TodoRowModel>) -> Seq<TodoRowModel> {
    Seq::new(ts.len(), |i: int| migrated_todo(ts[i], i + 1))
}

/// Steps surviving the migration, rewritten through the todo key mapping and
/// renumbered densely from `next_id`; orphans (steps whose parent key maps
/// to nothing) are dropped.
pub open spec fn migrate_steps(
    ts: Seq<TodoRowModel>,
    ss: Seq<StepRowModel>,
    next_id: int,
) -> Seq<StepRowModel>
    decreases ss.len(),
{
    if ss.len() == 0 {
        Seq::empty()
    } else {
        let s0 = ss.first();
        let mapped = if s0.todo_id is Text {
            new_todo_id(ts, s0.todo_id->Text_0)
        } else {
            None
        };
        if mapped is Some {
            seq![
                StepRowModel {
                    id: ValueModel::Int(next_id),
                    todo_id: ValueModel::Int(mapped->0),
                    ..s0
                },
            ] + migrate_steps(ts, ss.drop_first(), next_id + 1)
        } else {
            migrate_steps(ts, ss.drop_first(), next_id)
        }
    }
}

/// Attachments surviving the migration, as for steps.
pub open spec fn migrate_attachments(
    ts: Seq<TodoRowModel>,
    atts: Seq<AttachmentRowModel>,
    next_id: int,
) -> Seq<AttachmentRowModel>
    decreases atts.len(),
{
    if atts.len() == 0 {
        Seq::empty()
    } else {
        let a0 = atts.first();
        let mapped = if a0.todo_id is Text {
            new_todo_id(ts, a0.todo_id->Text_0)
        } else {
            None
        };
        if mapped is Some {
            seq![
                AttachmentRowModel {
                    id: ValueModel::Int(next_id),
                    todo_id: ValueModel::Int(mapped->0),
                    ..a0
                },
            ] + migrate_attachments(ts, atts.drop_first(), next_id + 1)
        } else {
            migrate_attachments(ts, atts.drop_first(), next_id)
        }
    }
}

/// Join rows after migration. The tag side is rewritten through the tag key
/// mapping; the todo side is paired positionally with the order the todos
/// were migrated, the legacy engine's accepted approximation (a join table
/// whose row order does not match the todos' row order is mislinked by it).
pub open spec fn migrate_links(
    todos_len: int,
    tags: Seq<TagRowModel>,
    ls: Seq<TodoTagRowModel>,
    idx: int,
) -> Seq<TodoTagRowModel>
    decreases ls.len(),
{
    if ls.len() == 0 {
        Seq::empty()
    } else {
        let l0 = ls.first();
        let mapped = if l0.tag_id is Text {
            new_tag_id(tags, l0.tag_id->Text_0)
        } else {
            None
        };
        let rest = migrate_links(todos_len, tags, ls.drop_first(), idx + 1);
        if idx < todos_len && mapped is Some {
            seq![
                TodoTagRowModel {
                    todo_id: ValueModel::Int(idx + 1),
                    tag_id: ValueModel::Int(mapped->0),
                },
            ] + rest
        } else {
            rest
        }
    }
}

// ---------------------------------------------------------------------------
// The two steps and the engine
// ---------------------------------------------------------------------------
/// The identifier-domain step: a no-op when not applicable, an error when
/// some row cannot be carried across, the full rebuild otherwise.
pub open spec fn id_step(db: DbModel) -> Result<DbModel, MigrationError> {
    if !id_migration_applicable(db) {
        Ok(db)
    } else if !tag_names_unique(db.tags) {
        Err(MigrationError::DuplicateTagName)
    } else if !todos_shape_ok(db.todos) {
        Err(MigrationError::TodoRowShape)
    } else if !steps_shape_ok(db.todo_steps) {
        Err(MigrationError::StepRowShape)
    } else if !attachments_shape_ok(db.attachments) {
        Err(MigrationError::AttachmentRowShape)
    } else if !links_shape_ok(db.todo_tags) {
        Err(MigrationError::LinkRowShape)
    } else {
        Ok(
            DbModel {
                task_groups: migrate_groups(db.task_groups),
                tags: migrate_tags(db.tags),
                todos: migrate_todos(db.todos),
                todo_steps: migrate_steps(db.todos, db.todo_steps, 1),
                attachments: migrate_attachments(db.todos, db.attachments, 1),
                todo_tags: migrate_links(db.todos.len() as int, db.tags, db.todo_tags, 0),
            },
        )
    }
}

pub open spec fn status_migrated_todo(t: TodoRowModel) -> TodoRowModel {
    TodoRowModel { status: ValueModel::Int(status_value_code(t.status)), ..t }
}

/// The status-domain step: a no-op when not applicable, otherwise every
/// row's status is replaced by its integer code.
pub open spec fn status_step(db: DbModel) -> DbModel {
    if !status_migration_applicable(db) {
        db
    } else {
        DbModel {
            todos: Seq::new(db.todos.len(), |i: int| status_migrated_todo(db.todos[i])),
            ..db
        }
    }
}

/// The whole engine: the identifier-domain step, then the status-domain
/// step; the first failure aborts with the tables untouched.
pub open spec fn run_migrations_model(db: DbModel) -> Result<DbModel, MigrationError> {
    match id_step(db) {
        Ok(d) => Ok(status_step(d)),
        Err(e) => Err(e),
    }
}

/// Machine bound under which fresh integer ids fit in `i64`.
pub open spec fn db_sizes_ok(db: DbModel) -> bool {
    &&& db.task_groups.len() < 0x7fff_ffff_ffff_ffff
    &&& db.tags.len() < 0x7fff_ffff_ffff_ffff
    &&& db.todos.len() < 0x7fff_ffff_ffff_ffff
    &&& db.todo_steps.len() < 0x7fff_ffff_ffff_ffff
    &&& db.attachments.len() < 0x7fff_ffff_ffff_ffff
    &&& db.todo_tags.len() < 0x7fff_ffff_ffff_ffff
}

// ---------------------------------------------------------------------------
// Executable key lookups
// ---------------------------------------------------------------------------
proof fn lemma_new_todo_id_at(ts: Seq<TodoRowModel>, key: Seq<char>, j: int)
    requires
        0 <= j < ts.len(),
        ts[j].id == ValueModel::Text(key),
        forall|k: int| j < k < ts.len() ==> (#[trigger] ts[k]).id != ValueModel::Text(key),
    ensures
        new_todo_id(ts, key) == Some(j + 1),
    decreases ts.len(),
{
    if j < ts.len() - 1 {
        lemma_new_todo_id_at(ts.drop_last(), key, j);
    }
}

proof fn lemma_new_todo_id_absent(ts: Seq<TodoRowModel>, key: Seq<char>)
    requires
        forall|k: int| 0 <= k < ts.len() ==> (#[trigger] ts[k]).id != ValueModel::Text(key),
    ensures
        new_todo_id(ts, key) is None,
    decreases ts.len(),
{
    if ts.len() > 0 {
        lemma_new_todo_id_absent(ts.drop_last(), key);
    }
}

proof fn lemma_new_tag_id_at(ts: Seq<TagRowModel>, key: Seq<char>, j: int)
    requires
        0 <= j < ts.len(),
        ts[j].id == ValueModel::Text(key),
        forall|k: int| j < k < ts.len() ==> (#[trigger] ts[k]).id != ValueModel::Text(key),
    ensures
        new_tag_id(ts, key) == Some(j + 1),
    decreases ts.len(),
{
    if j < ts.len() - 1 {
        lemma_new_tag_id_at(ts.drop_last(), key, j);
    }
}

proof fn lemma_new_tag_id_absent(ts: Seq<TagRowModel>, key: Seq<char>)
    requires
        forall|k: int| 0 <= k < ts.len() ==> (#[trigger] ts[k]).id != ValueModel::Text(key),
    ensures
        new_tag_id(ts, key) is None,
    decreases ts.len(),
{
    if ts.len() > 0 {
        lemma_new_tag_id_absent(ts.drop_last(), key);
    }
}

fn find_new_todo_id(todos: &Vec<TodoRow>, key: &str) -> (r: Option<i64>)
    requires
        todos@.len() < 0x7fff_ffff_ffff_ffff,
    ensures
        ({
            let ts = todos@.map_values(|t: TodoRow| t@);
            match r {
                Some(k) => new_todo_id(ts, key@) == Some(k as int),
                None => new_todo_id(ts, key@) is None,
            }
        }),
{
    let ghost ts = todos@.map_values(|t: TodoRow| t@);
    let mut j: usize = todos.len();
    while j > 0
        invariant
            0 <= j <= todos@.len(),
            todos@.len() < 0x7fff_ffff_ffff_ffff,
            ts == todos@.map_values(|t: TodoRow| t@),
            forall|k: int| j <= k < ts.len() ==> (#[trigger] ts[k]).id != ValueModel::Text(key@),
        decreases j,
    {
        let idx = j - 1;
        let hit = match &todos[idx].id {
            Value::Text(s) => str_eq(s.as_str(), key),
            _ => false,
        };
        if hit {
            proof {
                lemma_new_todo_id_at(ts, key@, idx as int);
            }
            return Some((idx as i64) + 1);
        }
        proof {
            assert(ts[idx as int].id != ValueModel::Text(key@));
        }
        j = idx;
    }
    proof {
        lemma_new_todo_id_absent(ts, key@);
    }
    None
}

fn find_new_tag_id(tags: &Vec<TagRow>, key: &str) -> (r: Option<i64>)
    requires
        tags@.len() < 0x7fff_ffff_ffff_ffff,
    ensures
        ({
            let ts = tags@.map_values(|t: TagRow| t@);
            match r {
                Some(k) => new_tag_id(ts, key@) == Some(k as int),
                None => new_tag_id(ts, key@) is None,
            }
        }),
{
    let ghost ts = tags@.map_values(|t: TagRow| t@);
    let mut j: usize = tags.len();
    while j > 0
        invariant
            0 <= j <= tags@.len(),
            tags@.len() < 0x7fff_ffff_ffff_ffff,
            ts == tags@.map_values(|t: TagRow| t@),
            forall|k: int| j <= k < ts.len() ==> (#[trigger] ts[k]).id != ValueModel::Text(key@),
        decreases j,
    {
        let idx = j - 1;
        let hit = match &tags[idx].id {
            Value::Text(s) => str_eq(s.as_str(), key),
            _ => false,
        };
        if hit {
            proof {
                lemma_new_tag_id_at(ts, key@, idx as int);
            }
            return Some((idx as i64) + 1);
        }
        proof {
            assert(ts[idx as int].id != ValueModel::Text(key@));
        }
        j = idx;
    }
    proof {
        lemma_new_tag_id_absent(ts, key@);
    }
    None
}

// ---------------------------------------------------------------------------
// Executable shape checks
// ---------------------------------------------------------------------------
fn check_tags_unique(tags: &Vec<TagRow>) -> (r: bool)
    ensures
        r == tag_names_unique(tags@.map_values(|t: TagRow| t@)),
{
    let ghost tm = tags@.map_values(|t: TagRow| t@);
    let n = tags.len();
    let mut i: usize = 0;
    while i < n
        invariant
            0 <= i <= n,
            n == tags@.len(),
            tm == tags@.map_values(|t: TagRow| t@),
            forall|a: int, b: int| 0 <= a < b < i ==> (#[trigger] tm[a]).name != (#[trigger] tm[b]).name,
        decreases n - i,
    {
        let mut j: usize = 0;
        while j < i
            invariant
                0 <= j <= i < n,
                n == tags@.len(),
                tm == tags@.map_values(|t: TagRow| t@),
                forall|a: int| 0 <= a < j ==> (#[trigger] tm[a]).name != tm[i as int].name,
            decreases i - j,
        {
            if str_eq(tags[j].name.as_str(), tags[i].name.as_str()) {
                proof {
                    assert(tm[j as int].name == tm[i as int].name);
                    assert(!tag_names_unique(tm));
                }
                return false;
            }
            j = j + 1;
        }
        i = i + 1;
    }
    true
}

fn check_todos_shape(todos: &Vec<TodoRow>) -> (r: bool)
    ensures
        r == todos_shape_ok(todos@.map_values(|t: TodoRow| t@)),
{
    let ghost tm = todos@.map_values(|t: TodoRow| t@);
    let n = todos.len();
    let mut i: usize = 0;
    while i < n
        invariant
            0 <= i <= n,
            n == todos@.len(),
            tm == todos@.map_values(|t: TodoRow| t@),
            forall|a: int| 0 <= a < i ==> todo_shape_ok(#[trigger] tm[a]),
        decreases n - i,
    {
        let row = &todos[i];
        let ok = row.id.is_text() && row.is_marked.is_some() && !row.group_id.is_text();
        if !ok {
            proof {
                assert(!todo_shape_ok(tm[i as int]));
            }
            return false;
        }
        i = i + 1;
    }
    true
}

fn check_steps_shape(steps: &Vec<StepRow>) -> (r: bool)
    ensures
        r == steps_shape_ok(steps@.map_values(|s: StepRow| s@)),
{
    let ghost sm = steps@.map_values(|s: StepRow| s@);
    let n = steps.len();
    let mut i: usize = 0;
    while i < n
        invariant
            0 <= i <= n,
            n == steps@.len(),
            sm == steps@.map_values(|s: StepRow| s@),
            forall|a: int| 0 <= a < i ==> (#[trigger] sm[a]).todo_id is Text,
        decreases n - i,
    {
        if !steps[i].todo_id.is_text() {
            proof {
                assert(!((#[trigger] sm[i as int]).todo_id is Text));
            }
            return false;
        }
        i = i + 1;
    }
    true
}

fn check_attachments_shape(atts: &Vec<AttachmentRow>) -> (r: bool)
    ensures
        r == attachments_shape_ok(atts@.map_values(|a: AttachmentRow| a@)),
{
    let ghost am = atts@.map_values(|a: AttachmentRow| a@);
    let n = atts.len();
    let mut i: usize = 0;
    while i < n
        invariant
            0 <= i <= n,
            n == atts@.len(),
            am == atts@.map_values(|a: AttachmentRow| a@),
            forall|a: int| 0 <= a < i ==> (#[trigger] am[a]).todo_id is Text,
        decreases n - i,
    {
        if !atts[i].todo_id.is_text() {
            proof {
                assert(!((#[trigger] am[i as int]).todo_id is Text));
            }
            return false;
        }
        i = i + 1;
    }
    true
}

fn check_links_shape(links: &Vec<TodoTagRow>) -> (r: bool)
    ensures
        r == links_shape_ok(links@.map_values(|l: TodoTagRow| l@)),
{
    let ghost lm = links@.map_values(|l: TodoTagRow| l@);
    let n = links.len();
    let mut i: usize = 0;
    while i < n
        invariant
            0 <= i <= n,
            n == links@.len(),
            lm == links@.map_values(|l: TodoTagRow| l@),
            forall|a: int|
                0 <= a < i ==> (#[trigger] lm[a]).todo_id is Text && lm[a].tag_id is Text,
        decreases n - i,
    {
        if !(links[i].todo_id.is_text() && links[i].tag_id.is_text()) {
            proof {
                assert(!((#[trigger] lm[i as int]).todo_id is Text && lm[i as int].tag_id is Text));
            }
            return false;
        }
        i = i + 1;
    }
    true
}

// ---------------------------------------------------------------------------
// Executable table transforms
// ---------------------------------------------------------------------------
fn build_groups(gs: &Vec<GroupRow>) -> (r: Vec<GroupRow>)
    requires
        gs@.len() < 0x7fff_ffff_ffff_ffff,
    ensures
        r@.map_values(|g: GroupRow| g@) == migrate_groups(gs@.map_values(|g: GroupRow| g@)),
{
    let ghost gm = gs@.map_values(|g: GroupRow| g@);
    let n = gs.len();
    let mut out: Vec<GroupRow> = Vec::new();
    let mut i: usize = 0;
    while i < n
        invariant
            0 <= i <= n,
            n == gs@.len() < 0x7fff_ffff_ffff_ffff,
            gm == gs@.map_values(|g: GroupRow| g@),
            out@.len() == i,
            forall|j: int| 0 <= j < i ==> (#[trigger] out@[j])@ == migrated_group(gm[j], j + 1),
        decreases n - i,
    {
        let nr = GroupRow { id: Value::Int((i as i64) + 1), ..gs[i].clone() };
        proof {
            assert(nr@ == migrated_group(gm[i as int], i + 1));
        }
        out.push(nr);
        i = i + 1;
    }
    proof {
        assert(out@.map_values(|g: GroupRow| g@) =~= migrate_groups(gm));
    }
    out
}

fn build_tags(ts: &Vec<TagRow>) -> (r: Vec<TagRow>)
    requires
        ts@.len() < 0x7fff_ffff_ffff_ffff,
    ensures
        r@.map_values(|t: TagRow| t@) == migrate_tags(ts@.map_values(|t: TagRow| t@)),
{
    let ghost tm = ts@.map_values(|t: TagRow| t@);
    let n = ts.len();
    let mut out: Vec<TagRow> = Vec::new();
    let mut i: usize = 0;
    while i < n
        invariant
            0 <= i <= n,
            n == ts@.len() < 0x7fff_ffff_ffff_ffff,
            tm == ts@.map_values(|t: TagRow| t@),
            out@.len() == i,
            forall|j: int| 0 <= j < i ==> (#[trigger] out@[j])@ == migrated_tag(tm[j], j + 1),
        decreases n - i,
    {
        let nr = TagRow { id: Value::Int((i as i64) + 1), ..ts[i].clone() };
        proof {
            assert(nr@ == migrated_tag(tm[i as int], i + 1));
        }
        out.push(nr);
        i = i + 1;
    }
    proof {
        assert(out@.map_values(|t: TagRow| t@) =~= migrate_tags(tm));
    }
    out
}

fn build_todos(ts: &Vec<TodoRow>) -> (r: Vec<TodoRow>)
    requires
        ts@.len() < 0x7fff_ffff_ffff_ffff,
    ensures
        r@.map_values(|t: TodoRow| t@) == migrate_todos(ts@.map_values(|t: TodoRow| t@)),
{
    let ghost tm = ts@.map_values(|t: TodoRow| t@);
    let n = ts.len();
    let mut out: Vec<TodoRow> = Vec::new();
    let mut i: usize = 0;
    while i < n
        invariant
            0 <= i <= n,
            n == ts@.len() < 0x7fff_ffff_ffff_ffff,
            tm == ts@.map_values(|t: TodoRow| t@),
            out@.len() == i,
            forall|j: int| 0 <= j < i ==> (#[trigger] out@[j])@ == migrated_todo(tm[j], j + 1),
        decreases n - i,
    {
        let nr = TodoRow { id: Value::Int((i as i64) + 1), is_marked: None, ..ts[i].clone() };
        proof {
            assert(nr@ == migrated_todo(tm[i as int], i + 1));
        }
        out.push(nr);
        i = i + 1;
    }
    proof {
        assert(out@.map_values(|t: TodoRow| t@) =~= migrate_todos(tm));
    }
    out
}

fn build_steps(todos: &Vec<TodoRow>, steps: &Vec<StepRow>) -> (r: Vec<StepRow>)
    requires
        todos@.len() < 0x7fff_ffff_ffff_ffff,
        steps@.len() < 0x7fff_ffff_ffff_ffff,
        steps_shape_ok(steps@.map_values(|s: StepRow| s@)),
    ensures
        r@.map_values(|s: StepRow| s@) == migrate_steps(
            todos@.map_values(|t: TodoRow| t@),
            steps@.map_values(|s: StepRow| s@),
            1,
        ),
{
    let ghost tm = todos@.map_values(|t: TodoRow| t@);
    let ghost sm = steps@.map_values(|s: StepRow| s@);
    let n = steps.len();
    let mut out: Vec<StepRow> = Vec::new();
    proof {
        assert(sm.skip(0) =~= sm);
        assert(out@.map_values(|s: StepRow| s@) =~= Seq::<StepRowModel>::empty());
        assert(Seq::<StepRowModel>::empty() + migrate_steps(tm, sm, 1) =~= migrate_steps(tm, sm, 1));
    }
    let mut i: usize = 0;
    while i < n
        invariant
            0 <= i <= n,
            n == steps@.len() < 0x7fff_ffff_ffff_ffff,
            todos@.len() < 0x7fff_ffff_ffff_ffff,
            tm == todos@.map_values(|t: TodoRow| t@),
            sm == steps@.map_values(|s: StepRow| s@),
            steps_shape_ok(sm),
            out@.len() <= i,
            migrate_steps(tm, sm, 1) == out@.map_values(|s: StepRow| s@) + migrate_steps(
                tm,
                sm.skip(i as int),
                out@.len() as int + 1,
            ),
        decreases n - i,
    {
        let ghost out_m = out@.map_values(|s: StepRow| s@);
        let ghost rest = sm.skip(i as int);
        proof {
            assert(rest.len() > 0);
            assert(rest.first() == sm[i as int]);
            assert(rest.drop_first() =~= sm.skip(i as int + 1));
        }
        let row = &steps[i];
        let mapped: Option<i64> = match &row.todo_id {
            Value::Text(key) => find_new_todo_id(todos, key.as_str()),
            _ => None,
        };
        match mapped {
            Some(k) => {
                let fresh: i64 = (out.len() as i64) + 1;
                let nr = StepRow {
                    id: Value::Int(fresh),
                    todo_id: Value::Int(k),
                    ..row.clone()
                };
                proof {
                    let srow = StepRowModel {
                        id: ValueModel::Int(out_m.len() as int + 1),
                        todo_id: ValueModel::Int(k as int),
                        ..sm[i as int]
                    };
                    assert(nr@ == srow);
                    assert(migrate_steps(tm, rest, out_m.len() as int + 1) == seq![srow] + migrate_steps(
                        tm,
                        sm.skip(i as int + 1),
                        out_m.len() as int + 2,
                    ));
                    assert(out_m + (seq![srow] + migrate_steps(tm, sm.skip(i as int + 1), out_m.len() as int + 2))
                        =~= out_m.push(srow) + migrate_steps(tm, sm.skip(i as int + 1), out_m.len() as int + 2));
                    assert(out@.push(nr).map_values(|s: StepRow| s@) =~= out_m.push(srow));
                }
                out.push(nr);
            },
            None => {
                proof {
                    assert(migrate_steps(tm, rest, out_m.len() as int + 1) == migrate_steps(
                        tm,
                        sm.skip(i as int + 1),
                        out_m.len() as int + 1,
                    ));
                }
            },
        }
        i = i + 1;
    }
    proof {
        assert(sm.skip(n as int) =~= Seq::<StepRowModel>::empty());
        assert(out@.map_values(|s: StepRow| s@) + Seq::<StepRowModel>::empty() =~= out@.map_values(
            |s: StepRow| s@,
        ));
    }
    out
}

fn build_attachments(todos: &Vec<TodoRow>, atts: &Vec<AttachmentRow>) -> (r: Vec<AttachmentRow>)
    requires
        todos@.len() < 0x7fff_ffff_ffff_ffff,
        atts@.len() < 0x7fff_ffff_ffff_ffff,
        attachments_shape_ok(atts@.map_values(|a: AttachmentRow| a@)),
    ensures
        r@.map_values(|a: AttachmentRow| a@) == migrate_attachments(
            todos@.map_values(|t: TodoRow| t@),
            atts@.map_values(|a: AttachmentRow| a@),
            1,
        ),
{
    let ghost tm = todos@.map_values(|t: TodoRow| t@);
    let ghost am = atts@.map_values(|a: AttachmentRow| a@);
    let n = atts.len();
    let mut out: Vec<AttachmentRow> = Vec::new();
    proof {
        assert(am.skip(0) =~= am);
        assert(out@.map_values(|a: AttachmentRow| a@) =~= Seq::<AttachmentRowModel>::empty());
        assert(Seq::<AttachmentRowModel>::empty() + migrate_attachments(tm, am, 1)
            =~= migrate_attachments(tm, am, 1));
    }
    let mut i: usize = 0;
    while i < n
        invariant
            0 <= i <= n,
            n == atts@.len() < 0x7fff_ffff_ffff_ffff,
            todos@.len() < 0x7fff_ffff_ffff_ffff,
            tm == todos@.map_values(|t: TodoRow| t@),
            am == atts@.map_values(|a: AttachmentRow| a@),
            attachments_shape_ok(am),
            out@.len() <= i,
            migrate_attachments(tm, am, 1) == out@.map_values(|a: AttachmentRow| a@)
                + migrate_attachments(tm, am.skip(i as int), out@.len() as int + 1),
        decreases n - i,
    {
        let ghost out_m = out@.map_values(|a: AttachmentRow| a@);
        let ghost rest = am.skip(i as int);
        proof {
            assert(rest.len() > 0);
            assert(rest.first() == am[i as int]);
            assert(rest.drop_first() =~= am.skip(i as int + 1));
        }
        let row = &atts[i];
        let mapped: Option<i64> = match &row.todo_id {
            Value::Text(key) => find_new_todo_id(todos, key.as_str()),
            _ => None,
        };
        match mapped {
            Some(k) => {
                let fresh: i64 = (out.len() as i64) + 1;
                let nr = AttachmentRow {
                    id: Value::Int(fresh),
                    todo_id: Value::Int(k),
                    ..row.clone()
                };
                proof {
                    let arow = AttachmentRowModel {
                        id: ValueModel::Int(out_m.len() as int + 1),
                        todo_id: ValueModel::Int(k as int),
                        ..am[i as int]
                    };
                    assert(nr@ == arow);
                    assert(migrate_attachments(tm, rest, out_m.len() as int + 1) == seq![arow]
                        + migrate_attachments(tm, am.skip(i as int + 1), out_m.len() as int + 2));
                    assert(out_m + (seq![arow] + migrate_attachments(
                        tm,
                        am.skip(i as int + 1),
                        out_m.len() as int + 2,
                    )) =~= out_m.push(arow) + migrate_attachments(
                        tm,
                        am.skip(i as int + 1),
                        out_m.len() as int + 2,
                    ));
                    assert(out@.push(nr).map_values(|a: AttachmentRow| a@) =~= out_m.push(arow));
                }
                out.push(nr);
            },
            None => {
                proof {
                    assert(migrate_attachments(tm, rest, out_m.len() as int + 1) == migrate_attachments(
                        tm,
                        am.skip(i as int + 1),
                        out_m.len() as int + 1,
                    ));
                }
            },
        }
        i = i + 1;
    }
    proof {
        assert(am.skip(n as int) =~= Seq::<AttachmentRowModel>::empty());
        assert(out@.map_values(|a: AttachmentRow| a@) + Seq::<AttachmentRowModel>::empty()
            =~= out@.map_values(|a: AttachmentRow| a@));
    }
    out
}

fn build_links(todos_len: usize, tags: &Vec<TagRow>, links: &Vec<TodoTagRow>) -> (r: Vec<
    TodoTagRow,
>)
    requires
        todos_len < 0x7fff_ffff_ffff_ffff,
        tags@.len() < 0x7fff_ffff_ffff_ffff,
        links@.len() < 0x7fff_ffff_ffff_ffff,
        links_shape_ok(links@.map_values(|l: TodoTagRow| l@)),
    ensures
        r@.map_values(|l: TodoTagRow| l@) == migrate_links(
            todos_len as int,
            tags@.map_values(|t: TagRow| t@),
            links@.map_values(|l: TodoTagRow| l@),
            0,
        ),
{
    let ghost tagm = tags@.map_values(|t: TagRow| t@);
    let ghost lm = links@.map_values(|l: TodoTagRow| l@);
    let n = links.len();
    let mut out: Vec<TodoTagRow> = Vec::new();
    proof {
        assert(lm.skip(0) =~= lm);
        assert(out@.map_values(|l: TodoTagRow| l@) =~= Seq::<TodoTagRowModel>::empty());
        assert(Seq::<TodoTagRowModel>::empty() + migrate_links(todos_len as int, tagm, lm, 0)
            =~= migrate_links(todos_len as int, tagm, lm, 0));
    }
    let mut i: usize = 0;
    while i < n
        invariant
            0 <= i <= n,
            n == links@.len() < 0x7fff_ffff_ffff_ffff,
            todos_len < 0x7fff_ffff_ffff_ffff,
            tags@.len() < 0x7fff_ffff_ffff_ffff,
            tagm == tags@.map_values(|t: TagRow| t@),
            lm == links@.map_values(|l: TodoTagRow| l@),
            links_shape_ok(lm),
            out@.len() <= i,
            migrate_links(todos_len as int, tagm, lm, 0) == out@.map_values(|l: TodoTagRow| l@)
                + migrate_links(todos_len as int, tagm, lm.skip(i as int), i as int),
        decreases n - i,
    {
        let ghost out_m = out@.map_values(|l: TodoTagRow| l@);
        let ghost rest = lm.skip(i as int);
        proof {
            assert(rest.len() > 0);
            assert(rest.first() == lm[i as int]);
            assert(rest.drop_first() =~= lm.skip(i as int + 1));
        }
        let row = &links[i];
        let mapped: Option<i64> = match &row.tag_id {
            Value::Text(key) => find_new_tag_id(tags, key.as_str()),
            _ => None,
        };
        let keep = i < todos_len;
        match mapped {
            Some(k) if keep => {
                let nr = TodoTagRow {
                    todo_id: Value::Int((i as i64) + 1),
                    tag_id: Value::Int(k),
                };
                proof {
                    let lrow = TodoTagRowModel {
                        todo_id: ValueModel::Int(i + 1),
                        tag_id: ValueModel::Int(k as int),
                    };
                    assert(nr@ == lrow);
                    assert(migrate_links(todos_len as int, tagm, rest, i as int) == seq![lrow]
                        + migrate_links(todos_len as int, tagm, lm.skip(i as int + 1), i + 1));
                    assert(out_m + (seq![lrow] + migrate_links(
                        todos_len as int,
                        tagm,
                        lm.skip(i as int + 1),
                        i + 1,
                    )) =~= out_m.push(lrow) + migrate_links(
                        todos_len as int,
                        tagm,
                        lm.skip(i as int + 1),
                        i + 1,
                    ));
                    assert(out@.push(nr).map_values(|l: TodoTagRow| l@) =~= out_m.push(lrow));
                }
                out.push(nr);
            },
            _ => {
                proof {
                    assert(migrate_links(todos_len as int, tagm, rest, i as int) == migrate_links(
                        todos_len as int,
                        tagm,
                        lm.skip(i as int + 1),
                        i + 1,
                    ));
                }
            },
        }
        i = i + 1;
    }
    proof {
        assert(lm.skip(n as int) =~= Seq::<TodoTagRowModel>::empty());
        assert(out@.map_values(|l: TodoTagRow| l@) + Seq::<TodoTagRowModel>::empty()
            =~= out@.map_values(|l: TodoTagRow| l@));
    }
    out
}

// ---------------------------------------------------------------------------
// Executable identifier-domain step and the engine
// ---------------------------------------------------------------------------
/// Rebuilds every table around dense integer keys when the probe finds a
/// textual `todos.id`, leaves the database untouched when it does not, and
/// refuses (tables untouched) when some row cannot be carried across.
pub fn migrate_uuid_to_autoincrement(db: DbState) -> (r: Result<DbState, MigrationError>)
    requires
        db_sizes_ok(db@),
    ensures
        result_model(r) == id_step(db@),
{
    let applicable = db.todos.len() > 0 && db.todos[0].id.is_text();
    if !applicable {
        return Ok(db);
    }
    if !check_tags_unique(&db.tags) {
        return Err(MigrationError::DuplicateTagName);
    }
    if !check_todos_shape(&db.todos) {
        return Err(MigrationError::TodoRowShape);
    }
    if !check_steps_shape(&db.todo_steps) {
        return Err(MigrationError::StepRowShape);
    }
    if !check_attachments_shape(&db.attachments) {
        return Err(MigrationError::AttachmentRowShape);
    }
    if !check_links_shape(&db.todo_tags) {
        return Err(MigrationError::LinkRowShape);
    }
    let new_groups = build_groups(&db.task_groups);
    let new_tags = build_tags(&db.tags);
    let new_steps = build_steps(&db.todos, &db.todo_steps);
    let new_atts = build_attachments(&db.todos, &db.attachments);
    let new_links = build_links(db.todos.len(), &db.tags, &db.todo_tags);
    let new_todos = build_todos(&db.todos);
    let r = DbState {
        task_groups: new_groups,
        tags: new_tags,
        todos: new_todos,
        todo_steps: new_steps,
        attachments: new_atts,
        todo_tags: new_links,
    };
    Ok(r)
}

/// Runs all pending migrations, in order, each gated by its own probe.
pub fn run_migrations(db: DbState) -> (r: Result<DbState, MigrationError>)
    requires
        db_sizes_ok(db@),
    ensures
        result_model(r) == run_migrations_model(db@),
{
    match migrate_uuid_to_autoincrement(db) {
        Ok(d) => Ok(migrate_status_to_int(d)),
        Err(e) => Err(e),
    }
}

// ---------------------------------------------------------------------------
// Executable status-domain step
// ---------------------------------------------------------------------------
/// Rewrites every `todos.status` to its integer code when the probe finds a
/// textual status, and leaves the database untouched otherwise.
pub fn migrate_status_to_int(db: DbState) -> (r: DbState)
    ensures
        r@ == status_step(db@),
{
    let applicable = db.todos.len() > 0 && db.todos[0].status.is_text();
    if !applicable {
        return db;
    }
    let n = db.todos.len();
    let mut new_todos: Vec<TodoRow> = Vec::new();
    let mut i: usize = 0;
    while i < n
        invariant
            0 <= i <= n,
            n == db.todos@.len(),
            new_todos@.len() == i,
            forall|j: int|
                0 <= j < i ==> (#[trigger] new_todos@[j])@ == status_migrated_todo(db@.todos[j]),
        decreases n - i,
    {
        let row = &db.todos[i];
        let code: i64 = match &row.status {
            Value::Text(s) => legacy_status_code_of(s.as_str()),
            _ => 0,
        };
        let nr = TodoRow { status: Value::Int(code), ..row.clone() };
        proof {
            assert(nr@ == status_migrated_todo(db@.todos[i as int]));
        }
        new_todos.push(nr);
        i = i + 1;
    }
    let r = DbState {
        task_groups: db.task_groups,
        tags: db.tags,
        todos: new_todos,
        todo_steps: db.todo_steps,
        attachments: db.attachments,
        todo_tags: db.todo_tags,
    };
    proof {
        assert(r@.todos =~= Seq::new(db@.todos.len(), |i: int| status_migrated_todo(db@.todos[i])));
    }
    r
}

// ---------------------------------------------------------------------------
// Idempotence
// ---------------------------------------------------------------------------
/// Running the engine on an already migrated database changes nothing:
/// after a successful run both probes report the new storage classes, so
/// each step skips itself.
pub proof fn lemma_migration_idempotent(db: DbModel, d: DbModel)
    requires
        run_migrations_model(db) == Ok::<DbModel, MigrationError>(d),
    ensures
        run_migrations_model(d) == Ok::<DbModel, MigrationError>(d),
{
    match id_step(db) {
        Ok(d1) => {
            assert(d == status_step(d1));
            // After the first run the id probe cannot find text.
            if id_migration_applicable(db) {
                assert(d1.todos == migrate_todos(db.todos));
                assert(d1.todos[0] == migrated_todo(db.todos[0], 1));
                assert(d1.todos[0].id is Int);
            }
            if status_migration_applicable(d1) {
                assert(d.todos == Seq::new(d1.todos.len(), |i: int| status_migrated_todo(d1.todos[i])));
                assert(d.todos.len() == d1.todos.len());
                if d.todos.len() > 0 {
                    assert(d.todos[0] == status_migrated_todo(d1.todos[0]));
                    assert(d.todos[0].id == d1.todos[0].id);
                    assert(d.todos[0].status is Int);
                }
                assert(!status_migration_applicable(d));
            } else {
                assert(d == d1);
            }
            assert(!id_migration_applicable(d));
            assert(id_step(d) == Ok::<DbModel, MigrationError>(d));
            assert(status_step(d) == d);
        },
        Err(_) => {
            assert(false);
        },
    }
}

// ---------------------------------------------------------------------------
// Referential integrity
// ---------------------------------------------------------------------------
/// The legacy step at position `j` is the origin of the surviving row `r`:
/// same content, and `r`'s rewritten key is what the todo key mapping gives
/// for the legacy parent key.
pub open spec fn step_origin_at(
    ts: Seq<TodoRowModel>,
    ss: Seq<StepRowModel>,
    j: int,
    r: StepRowModel,
) -> bool {
    &&& 0 <= j < ss.len()
    &&& ss[j].todo_id is Text
    &&& r.todo_id is Int
    &&& new_todo_id(ts, ss[j].todo_id->Text_0) == Some(r.todo_id->Int_0)
    &&& r.title == ss[j].title
    &&& r.is_completed == ss[j].is_completed
    &&& r.sort_order == ss[j].sort_order
    &&& r.created_at == ss[j].created_at
}

pub open spec fn step_has_origin(
    ts: Seq<TodoRowModel>,
    ss: Seq<StepRowModel>,
    r: StepRowModel,
) -> bool {
    exists|j: int| step_origin_at(ts, ss, j, r)
}

/// As [`step_origin_at`], for an attachment.
pub open spec fn attachment_origin_at(
    ts: Seq<TodoRowModel>,
    atts: Seq<AttachmentRowModel>,
    j: int,
    r: AttachmentRowModel,
) -> bool {
    &&& 0 <= j < atts.len()
    &&& atts[j].todo_id is Text
    &&& r.todo_id is Int
    &&& new_todo_id(ts, atts[j].todo_id->Text_0) == Some(r.todo_id->Int_0)
    &&& r.name == atts[j].name
    &&& r.file_path == atts[j].file_path
    &&& r.file_size == atts[j].file_size
    &&& r.mime_type == atts[j].mime_type
    &&& r.created_at == atts[j].created_at
}

pub open spec fn attachment_has_origin(
    ts: Seq<TodoRowModel>,
    atts: Seq<AttachmentRowModel>,
    r: AttachmentRowModel,
) -> bool {
    exists|j: int| attachment_origin_at(ts, atts, j, r)
}

/// The tag side of a surviving join row keeps its identity: its rewritten
/// tag key is what the tag key mapping gives for some legacy join row's tag
/// key. (The todo side is paired positionally and keeps no such identity;
/// see [`migrate_links`].)
pub open spec fn link_tag_origin_at(
    tags: Seq<TagRowModel>,
    ls: Seq<TodoTagRowModel>,
    j: int,
    r: TodoTagRowModel,
) -> bool {
    &&& 0 <= j < ls.len()
    &&& ls[j].tag_id is Text
    &&& r.tag_id is Int
    &&& new_tag_id(tags, ls[j].tag_id->Text_0) == Some(r.tag_id->Int_0)
}

pub open spec fn link_has_tag_origin(
    tags: Seq<TagRowModel>,
    ls: Seq<TodoTagRowModel>,
    r: TodoTagRowModel,
) -> bool {
    exists|j: int| link_tag_origin_at(tags, ls, j, r)
}

proof fn lemma_step_origin_lift(
    ts: Seq<TodoRowModel>,
    ss: Seq<StepRowModel>,
    r: StepRowModel,
)
    requires
        ss.len() > 0,
        step_has_origin(ts, ss.drop_first(), r),
    ensures
        step_has_origin(ts, ss, r),
{
    let j = choose|j: int| step_origin_at(ts, ss.drop_first(), j, r);
    assert(ss.drop_first()[j] == ss[j + 1]);
    assert(step_origin_at(ts, ss, j + 1, r));
}

proof fn lemma_attachment_origin_lift(
    ts: Seq<TodoRowModel>,
    atts: Seq<AttachmentRowModel>,
    r: AttachmentRowModel,
)
    requires
        atts.len() > 0,
        attachment_has_origin(ts, atts.drop_first(), r),
    ensures
        attachment_has_origin(ts, atts, r),
{
    let j = choose|j: int| attachment_origin_at(ts, atts.drop_first(), j, r);
    assert(atts.drop_first()[j] == atts[j + 1]);
    assert(attachment_origin_at(ts, atts, j + 1, r));
}

proof fn lemma_link_origin_lift(
    tags: Seq<TagRowModel>,
    ls: Seq<TodoTagRowModel>,
    r: TodoTagRowModel,
)
    requires
        ls.len() > 0,
        link_has_tag_origin(tags, ls.drop_first(), r),
    ensures
        link_has_tag_origin(tags, ls, r),
{
    let j = choose|j: int| link_tag_origin_at(tags, ls.drop_first(), j, r);
    assert(ls.drop_first()[j] == ls[j + 1]);
    assert(link_tag_origin_at(tags, ls, j + 1, r));
}

/// Every step surviving the identifier-domain transform has an origin among
/// the legacy steps.
pub proof fn lemma_steps_have_origins(
    ts: Seq<TodoRowModel>,
    ss: Seq<StepRowModel>,
    next_id: int,
)
    ensures
        forall|i: int|
            0 <= i < migrate_steps(ts, ss, next_id).len() ==> step_has_origin(
                ts,
                ss,
                #[trigger] migrate_steps(ts, ss, next_id)[i],
            ),
    decreases ss.len(),
{
    if ss.len() > 0 {
        let s0 = ss.first();
        let out = migrate_steps(ts, ss, next_id);
        let mapped = if s0.todo_id is Text {
            new_todo_id(ts, s0.todo_id->Text_0)
        } else {
            None
        };
        if mapped is Some {
            lemma_steps_have_origins(ts, ss.drop_first(), next_id + 1);
            let rest = migrate_steps(ts, ss.drop_first(), next_id + 1);
            assert forall|i: int| 0 <= i < out.len() implies step_has_origin(
                ts,
                ss,
                #[trigger] out[i],
            ) by {
                if i == 0 {
                    assert(step_origin_at(ts, ss, 0, out[0]));
                } else {
                    assert(out[i] == rest[i - 1]);
                    lemma_step_origin_lift(ts, ss, out[i]);
                }
            }
        } else {
            lemma_steps_have_origins(ts, ss.drop_first(), next_id);
            let rest = migrate_steps(ts, ss.drop_first(), next_id);
            assert forall|i: int| 0 <= i < out.len() implies step_has_origin(
                ts,
                ss,
                #[trigger] out[i],
            ) by {
                assert(out[i] == rest[i]);
                lemma_step_origin_lift(ts, ss, out[i]);
            }
        }
    }
}

/// Every attachment surviving the identifier-domain transform has an origin
/// among the legacy attachments.
pub proof fn lemma_attachments_have_origins(
    ts: Seq<TodoRowModel>,
    atts: Seq<AttachmentRowModel>,
    next_id: int,
)
    ensures
        forall|i: int|
            0 <= i < migrate_attachments(ts, atts, next_id).len() ==> attachment_has_origin(
                ts,
                atts,
                #[trigger] migrate_attachments(ts, atts, next_id)[i],
            ),
    decreases atts.len(),
{
    if atts.len() > 0 {
        let a0 = atts.first();
        let out = migrate_attachments(ts, atts, next_id);
        let mapped = if a0.todo_id is Text {
            new_todo_id(ts, a0.todo_id->Text_0)
        } else {
            None
        };
        if mapped is Some {
            lemma_attachments_have_origins(ts, atts.drop_first(), next_id + 1);
            let rest = migrate_attachments(ts, atts.drop_first(), next_id + 1);
            assert forall|i: int| 0 <= i < out.len() implies attachment_has_origin(
                ts,
                atts,
                #[trigger] out[i],
            ) by {
                if i == 0 {
                    assert(attachment_origin_at(ts, atts, 0, out[0]));
                } else {
                    assert(out[i] == rest[i - 1]);
                    lemma_attachment_origin_lift(ts, atts, out[i]);
                }
            }
        } else {
            lemma_attachments_have_origins(ts, atts.drop_first(), next_id);
            let rest = migrate_attachments(ts, atts.drop_first(), next_id);
            assert forall|i: int| 0 <= i < out.len() implies attachment_has_origin(
                ts,
                atts,
                #[trigger] out[i],
            ) by {
                assert(out[i] == rest[i]);
                lemma_attachment_origin_lift(ts, atts, out[i]);
            }
        }
    }
}

/// Every surviving join row's todo side lies within the migrated todos and
/// its tag side has an origin among the legacy join rows.
pub proof fn lemma_links_integrity(
    todos_len: int,
    tags: Seq<TagRowModel>,
    ls: Seq<TodoTagRowModel>,
    idx: int,
)
    requires
        idx >= 0,
    ensures
        forall|i: int|
            0 <= i < migrate_links(todos_len, tags, ls, idx).len() ==> {
                let r = #[trigger] migrate_links(todos_len, tags, ls, idx)[i];
                &&& r.todo_id is Int
                &&& 1 <= r.todo_id->Int_0 <= todos_len
                &&& link_has_tag_origin(tags, ls, r)
            },
    decreases ls.len(),
{
    if ls.len() > 0 {
        let l0 = ls.first();
        let out = migrate_links(todos_len, tags, ls, idx);
        let mapped = if l0.tag_id is Text {
            new_tag_id(tags, l0.tag_id->Text_0)
        } else {
            None
        };
        lemma_links_integrity(todos_len, tags, ls.drop_first(), idx + 1);
        let rest = migrate_links(todos_len, tags, ls.drop_first(), idx + 1);
        if idx < todos_len && mapped is Some {
            assert forall|i: int| 0 <= i < out.len() implies {
                let r = #[trigger] out[i];
                &&& r.todo_id is Int
                &&& 1 <= r.todo_id->Int_0 <= todos_len
                &&& link_has_tag_origin(tags, ls, r)
            } by {
                if i == 0 {
                    assert(link_tag_origin_at(tags, ls, 0, out[0]));
                } else {
                    assert(out[i] == rest[i - 1]);
                    lemma_link_origin_lift(tags, ls, out[i]);
                }
            }
        } else {
            assert forall|i: int| 0 <= i < out.len() implies {
                let r = #[trigger] out[i];
                &&& r.todo_id is Int
                &&& 1 <= r.todo_id->Int_0 <= todos_len
                &&& link_has_tag_origin(tags, ls, r)
            } by {
                assert(out[i] == rest[i]);
                lemma_link_origin_lift(tags, ls, out[i]);
            }
        }
    }
}

/// Surviving steps are renumbered densely: the `i`-th surviving row's fresh
/// key is `next_id + i`.
pub proof fn lemma_steps_renumbered_densely(
    ts: Seq<TodoRowModel>,
    ss: Seq<StepRowModel>,
    next_id: int,
)
    ensures
        forall|i: int|
            0 <= i < migrate_steps(ts, ss, next_id).len() ==> (#[trigger] migrate_steps(
                ts,
                ss,
                next_id,
            )[i]).id == ValueModel::Int(next_id + i),
    decreases ss.len(),
{
    if ss.len() > 0 {
        let s0 = ss.first();
        let mapped = if s0.todo_id is Text {
            new_todo_id(ts, s0.todo_id->Text_0)
        } else {
            None
        };
        if mapped is Some {
            lemma_steps_renumbered_densely(ts, ss.drop_first(), next_id + 1);
        } else {
            lemma_steps_renumbered_densely(ts, ss.drop_first(), next_id);
        }
    }
}

/// Surviving attachments are renumbered densely, as steps are.
pub proof fn lemma_attachments_renumbered_densely(
    ts: Seq<TodoRowModel>,
    atts: Seq<AttachmentRowModel>,
    next_id: int,
)
    ensures
        forall|i: int|
            0 <= i < migrate_attachments(ts, atts, next_id).len() ==> (#[trigger] migrate_attachments(
                ts,
                atts,
                next_id,
            )[i]).id == ValueModel::Int(next_id + i),
    decreases atts.len(),
{
    if atts.len() > 0 {
        let a0 = atts.first();
        let mapped = if a0.todo_id is Text {
            new_todo_id(ts, a0.todo_id->Text_0)
        } else {
            None
        };
        if mapped is Some {
            lemma_attachments_renumbered_densely(ts, atts.drop_first(), next_id + 1);
        } else {
            lemma_attachments_renumbered_densely(ts, atts.drop_first(), next_id);
        }
    }
}

/// Referential integrity after the identifier-domain migration: every
/// surviving dependent row's rewritten foreign key resolves to a row that
/// exists in the migrated parent table and carries that very key; and for
/// steps and attachments the parent is the transform of the legacy row whose
/// key the dependent referenced (combine each row's origin with
/// [`lemma_new_todo_id_resolves`]). The todo side of a join row is paired
/// positionally and makes no such identity promise.
pub proof fn lemma_referential_integrity(db: DbModel, d: DbModel)
    requires
        id_migration_applicable(db),
        id_step(db) == Ok::<DbModel, MigrationError>(d),
    ensures
        d.todos == migrate_todos(db.todos),
        d.tags == migrate_tags(db.tags),
        forall|k: int| 1 <= k <= d.todos.len() ==> (#[trigger] d.todos[k - 1]).id == ValueModel::Int(k),
        forall|k: int| 1 <= k <= d.tags.len() ==> (#[trigger] d.tags[k - 1]).id == ValueModel::Int(k),
        forall|i: int|
            0 <= i < d.todo_steps.len() ==> {
                let r = #[trigger] d.todo_steps[i];
                &&& r.todo_id is Int
                &&& 1 <= r.todo_id->Int_0 <= d.todos.len()
                &&& step_has_origin(db.todos, db.todo_steps, r)
            },
        forall|i: int|
            0 <= i < d.attachments.len() ==> {
                let r = #[trigger] d.attachments[i];
                &&& r.todo_id is Int
                &&& 1 <= r.todo_id->Int_0 <= d.todos.len()
                &&& attachment_has_origin(db.todos, db.attachments, r)
            },
        forall|i: int|
            0 <= i < d.todo_tags.len() ==> {
                let r = #[trigger] d.todo_tags[i];
                &&& r.todo_id is Int
                &&& 1 <= r.todo_id->Int_0 <= d.todos.len()
                &&& r.tag_id is Int
                &&& 1 <= r.tag_id->Int_0 <= d.tags.len()
                &&& link_has_tag_origin(db.tags, db.todo_tags, r)
            },
{
    lemma_steps_have_origins(db.todos, db.todo_steps, 1);
    lemma_attachments_have_origins(db.todos, db.attachments, 1);
    lemma_links_integrity(db.todos.len() as int, db.tags, db.todo_tags, 0);
    assert forall|i: int| 0 <= i < d.todo_steps.len() implies {
        let r = #[trigger] d.todo_steps[i];
        &&& r.todo_id is Int
        &&& 1 <= r.todo_id->Int_0 <= d.todos.len()
        &&& step_has_origin(db.todos, db.todo_steps, r)
    } by {
        let r = d.todo_steps[i];
        let j = choose|j: int| step_origin_at(db.todos, db.todo_steps, j, r);
        lemma_new_todo_id_resolves(db.todos, db.todo_steps[j].todo_id->Text_0);
    }
    assert forall|i: int| 0 <= i < d.attachments.len() implies {
        let r = #[trigger] d.attachments[i];
        &&& r.todo_id is Int
        &&& 1 <= r.todo_id->Int_0 <= d.todos.len()
        &&& attachment_has_origin(db.todos, db.attachments, r)
    } by {
        let r = d.attachments[i];
        let j = choose|j: int| attachment_origin_at(db.todos, db.attachments, j, r);
        lemma_new_todo_id_resolves(db.todos, db.attachments[j].todo_id->Text_0);
    }
    assert forall|i: int| 0 <= i < d.todo_tags.len() implies {
        let r = #[trigger] d.todo_tags[i];
        &&& r.todo_id is Int
        &&& 1 <= r.todo_id->Int_0 <= d.todos.len()
        &&& r.tag_id is Int
        &&& 1 <= r.tag_id->Int_0 <= d.tags.len()
        &&& link_has_tag_origin(db.tags, db.todo_tags, r)
    } by {
        let r = d.todo_tags[i];
        let j = choose|j: int| link_tag_origin_at(db.tags, db.todo_tags, j, r);
        lemma_new_tag_id_resolves(db.tags, db.todo_tags[j].tag_id->Text_0);
    }
}

} // verus!
