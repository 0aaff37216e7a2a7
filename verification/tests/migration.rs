use rtodo::dbmodel::{
    AttachmentRow, DbState, GroupRow, StepRow, TagRow, TodoRow, TodoTagRow, Value,
};
use rtodo::migrate::{legacy_status_code_of, run_migrations, MigrationError};

fn text(s: &str) -> Value {
    Value::Text(s.to_string())
}

fn legacy_todo(id: &str, title: &str, status: Value) -> TodoRow {
    TodoRow {
        id: text(id),
        title: title.to_string(),
        description: None,
        status,
        priority: 0,
        is_marked: Some(0),
        group_id: Value::Null,
        assignee: None,
        start_date: None,
        due_date: None,
        completed_at: None,
        created_at: 1000,
        updated_at: 1000,
    }
}

fn legacy_step(id: &str, todo_id: &str, title: &str) -> StepRow {
    StepRow {
        id: text(id),
        todo_id: text(todo_id),
        title: title.to_string(),
        is_completed: 0,
        sort_order: 1,
        created_at: 1001,
    }
}

fn legacy_attachment(id: &str, todo_id: &str, name: &str) -> AttachmentRow {
    AttachmentRow {
        id: text(id),
        todo_id: text(todo_id),
        name: name.to_string(),
        file_path: "f/abc".to_string(),
        file_size: 42,
        mime_type: None,
        created_at: 1002,
    }
}

fn legacy_tag(id: &str, name: &str) -> TagRow {
    TagRow {
        id: text(id),
        name: name.to_string(),
        color: "#409EFF".to_string(),
        created_at: 1003,
    }
}

fn legacy_group(id: &str, name: &str) -> GroupRow {
    GroupRow {
        id: text(id),
        name: name.to_string(),
        parent_id: Value::Null,
        icon: None,
        color: None,
        sort_order: 0,
        created_at: 1004,
        updated_at: 1004,
    }
}

fn empty_db() -> DbState {
    DbState {
        task_groups: Vec::new(),
        tags: Vec::new(),
        todos: Vec::new(),
        todo_steps: Vec::new(),
        attachments: Vec::new(),
        todo_tags: Vec::new(),
    }
}

fn scenario_db() -> DbState {
    DbState {
        task_groups: vec![legacy_group("g-1", "inbox")],
        tags: vec![legacy_tag("t-9", "urgent")],
        todos: vec![legacy_todo("abc-123", "ship it", text("done"))],
        todo_steps: vec![legacy_step("s-1", "abc-123", "step one")],
        attachments: vec![legacy_attachment("a-1", "abc-123", "spec.pdf")],
        todo_tags: vec![TodoTagRow { todo_id: text("abc-123"), tag_id: text("t-9") }],
    }
}

#[test]
fn legacy_db_migrates_to_integer_ids_and_codes() {
    let out = run_migrations(scenario_db()).expect("migration must succeed");
    assert_eq!(out.todos.len(), 1);
    assert_eq!(out.todos[0].id, Value::Int(1));
    assert_eq!(out.todos[0].status, Value::Int(2));
    assert_eq!(out.todos[0].is_marked, None);
    assert_eq!(out.todo_steps.len(), 1);
    assert_eq!(out.todo_steps[0].todo_id, Value::Int(1));
    assert_eq!(out.todo_steps[0].id, Value::Int(1));
    assert_eq!(out.attachments.len(), 1);
    assert_eq!(out.attachments[0].todo_id, Value::Int(1));
    assert_eq!(out.tags.len(), 1);
    assert_eq!(out.tags[0].id, Value::Int(1));
    assert_eq!(out.tags[0].name, "urgent".to_string());
    assert_eq!(out.todo_tags.len(), 1);
    assert_eq!(out.todo_tags[0].todo_id, Value::Int(1));
    assert_eq!(out.todo_tags[0].tag_id, Value::Int(1));
    assert_eq!(out.task_groups[0].id, Value::Int(1));
}

#[test]
fn running_the_engine_twice_changes_nothing() {
    let once = run_migrations(scenario_db()).expect("first run");
    let again = run_migrations(scenario_db()).expect("first run, fresh copy");
    let twice = run_migrations(again).expect("second run");
    assert_eq!(once, twice);
}

#[test]
fn migrated_db_is_a_fixed_point() {
    let once = run_migrations(scenario_db()).expect("first run");
    let keep = run_migrations(scenario_db()).expect("first run, fresh copy");
    let twice = run_migrations(once).expect("second run");
    assert_eq!(keep, twice);
}

#[test]
fn empty_database_needs_no_migration() {
    let out = run_migrations(empty_db()).expect("empty db is fine");
    assert_eq!(out, empty_db());
}

#[test]
fn integer_ids_are_left_alone() {
    let mut db = empty_db();
    db.todos.push(TodoRow { id: Value::Int(7), status: Value::Int(1), ..legacy_todo("x", "t", Value::Null) });
    let before = format!("{:?}", db);
    let out = run_migrations(db).expect("no-op");
    assert_eq!(format!("{:?}", out), before);
}

#[test]
fn orphaned_steps_and_attachments_are_dropped() {
    let mut db = scenario_db();
    db.todo_steps.push(legacy_step("s-2", "no-such-todo", "orphan"));
    db.attachments.push(legacy_attachment("a-2", "missing", "orphan.bin"));
    let out = run_migrations(db).expect("migration");
    assert_eq!(out.todo_steps.len(), 1);
    assert_eq!(out.todo_steps[0].title, "step one".to_string());
    assert_eq!(out.attachments.len(), 1);
    assert_eq!(out.attachments[0].name, "spec.pdf".to_string());
}

#[test]
fn surviving_dependents_are_renumbered_densely() {
    let mut db = scenario_db();
    db.todos.push(legacy_todo("def-456", "second", text("todo")));
    db.todo_steps = vec![
        legacy_step("s-1", "missing", "dropped"),
        legacy_step("s-2", "def-456", "kept first"),
        legacy_step("s-3", "abc-123", "kept second"),
    ];
    let out = run_migrations(db).expect("migration");
    assert_eq!(out.todo_steps.len(), 2);
    assert_eq!(out.todo_steps[0].id, Value::Int(1));
    assert_eq!(out.todo_steps[0].todo_id, Value::Int(2));
    assert_eq!(out.todo_steps[1].id, Value::Int(2));
    assert_eq!(out.todo_steps[1].todo_id, Value::Int(1));
}

#[test]
fn duplicate_tag_names_abort_the_migration() {
    let mut db = scenario_db();
    db.tags.push(legacy_tag("t-10", "urgent"));
    assert_eq!(run_migrations(db), Err(MigrationError::DuplicateTagName));
}

#[test]
fn mixed_id_types_abort_the_migration() {
    let mut db = scenario_db();
    db.todos.push(TodoRow { id: Value::Int(3), ..legacy_todo("x", "bad", text("todo")) });
    assert_eq!(run_migrations(db), Err(MigrationError::TodoRowShape));
}

#[test]
fn missing_marked_column_aborts_the_migration() {
    let mut db = scenario_db();
    db.todos[0].is_marked = None;
    assert_eq!(run_migrations(db), Err(MigrationError::TodoRowShape));
}

#[test]
fn textual_group_reference_aborts_the_migration() {
    let mut db = scenario_db();
    db.todos[0].group_id = text("g-1");
    assert_eq!(run_migrations(db), Err(MigrationError::TodoRowShape));
}

#[test]
fn non_text_step_reference_aborts_the_migration() {
    let mut db = scenario_db();
    db.todo_steps[0].todo_id = Value::Int(1);
    assert_eq!(run_migrations(db), Err(MigrationError::StepRowShape));
}

#[test]
fn non_text_attachment_reference_aborts_the_migration() {
    let mut db = scenario_db();
    db.attachments[0].todo_id = Value::Null;
    assert_eq!(run_migrations(db), Err(MigrationError::AttachmentRowShape));
}

#[test]
fn non_text_link_reference_aborts_the_migration() {
    let mut db = scenario_db();
    db.todo_tags[0].tag_id = Value::Int(1);
    assert_eq!(run_migrations(db), Err(MigrationError::LinkRowShape));
}

#[test]
fn status_mapping_is_exact_and_case_insensitive() {
    assert_eq!(legacy_status_code_of("todo"), 0);
    assert_eq!(legacy_status_code_of("in_progress"), 1);
    assert_eq!(legacy_status_code_of("done"), 2);
    assert_eq!(legacy_status_code_of("DONE"), 2);
    assert_eq!(legacy_status_code_of("In_Progress"), 1);
    assert_eq!(legacy_status_code_of("ToDo"), 0);
    assert_eq!(legacy_status_code_of("cancelled"), 0);
    assert_eq!(legacy_status_code_of(""), 0);
}

#[test]
fn status_migration_runs_alone_on_integer_id_databases() {
    let mut db = empty_db();
    db.todos.push(TodoRow { id: Value::Int(1), status: text("in_progress"), ..legacy_todo("x", "a", Value::Null) });
    db.todos.push(TodoRow { id: Value::Int(2), status: text("DONE"), ..legacy_todo("y", "b", Value::Null) });
    db.todos.push(TodoRow { id: Value::Int(3), status: Value::Int(9), ..legacy_todo("z", "c", Value::Null) });
    let out = run_migrations(db).expect("status migration");
    assert_eq!(out.todos[0].status, Value::Int(1));
    assert_eq!(out.todos[1].status, Value::Int(2));
    // A non-text status caught in a textual-status migration maps to 0, as
    // the case mapping recognizes no rendering of it.
    assert_eq!(out.todos[2].status, Value::Int(0));
}

#[test]
fn status_probe_looks_at_the_first_row() {
    let mut db = empty_db();
    db.todos.push(TodoRow { id: Value::Int(1), status: Value::Int(1), ..legacy_todo("x", "a", Value::Null) });
    db.todos.push(TodoRow { id: Value::Int(2), status: text("done"), ..legacy_todo("y", "b", Value::Null) });
    let out = run_migrations(db).expect("no-op");
    // The probe saw an integer, so the step did not run and the stray text
    // survives; a later launch probing another row would convert it.
    assert_eq!(out.todos[1].status, text("done"));
}
