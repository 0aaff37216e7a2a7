use rtodo::config::{default_auto_launch, default_close_behavior, AppConfig, AppState, CloseBehavior};
use rtodo::dbmodel::Value;
use rtodo::models::{Tag, Todo, TodoStatus, TodoStep};
use rtodo::repos::{
    AttachmentRepository, GroupRepository, StatsRepository, StepRepository, TagRepository,
    TodoRepository,
};
use rtodo::text::i64_to_string;

fn sample_todo() -> Todo {
    TodoRepository::create(
        1,
        "write the report".to_string(),
        Some("due friday".to_string()),
        Some(4),
        Some(100),
        Some(200),
        1,
        5_000,
    )
}

#[test]
fn created_todo_starts_clean() {
    let t = sample_todo();
    assert_eq!(t.status, TodoStatus::Todo);
    assert_eq!(t.completed_at, None);
    assert_eq!(t.created_at, 5_000);
    assert_eq!(t.updated_at, 5_000);
    assert_eq!(t.priority, 1);
}

#[test]
fn status_update_sets_and_clears_completion_time() {
    let t = sample_todo();
    let done = TodoRepository::update_status(t, 2, 6_000);
    assert_eq!(done.status, TodoStatus::Done);
    assert_eq!(done.completed_at, Some(6_000));
    let back = TodoRepository::update_status(done, 0, 7_000);
    assert_eq!(back.status, TodoStatus::Todo);
    assert_eq!(back.completed_at, None);
    assert_eq!(back.updated_at, 7_000);
}

#[test]
fn unknown_status_code_clears_completion_and_falls_back() {
    let t = TodoRepository::update_status(sample_todo(), 9, 6_000);
    assert_eq!(t.status, TodoStatus::Todo);
    assert_eq!(t.completed_at, None);
}

#[test]
fn partial_update_touches_only_named_fields() {
    let t = sample_todo();
    let u = TodoRepository::update(
        t,
        Some("new title".to_string()),
        None,
        None,
        Some(3),
        None,
        None,
        None,
        None,
        8_000,
    );
    assert_eq!(u.title, "new title");
    assert_eq!(u.description, Some("due friday".to_string()));
    assert_eq!(u.status, TodoStatus::Todo);
    assert_eq!(u.completed_at, None);
    assert_eq!(u.priority, 3);
    assert_eq!(u.updated_at, 8_000);
}

#[test]
fn update_with_status_keeps_the_invariant() {
    let t = sample_todo();
    let u = TodoRepository::update(
        t, None, None, Some(2), None, None, None, None, None, 8_000,
    );
    assert_eq!(u.status, TodoStatus::Done);
    assert_eq!(u.completed_at, Some(8_000));
    let v = TodoRepository::update(
        u, None, None, Some(1), None, None, None, None, None, 9_000,
    );
    assert_eq!(v.status, TodoStatus::InProgress);
    assert_eq!(v.completed_at, None);
}

#[test]
fn update_can_clear_nullable_fields() {
    let t = sample_todo();
    let u = TodoRepository::update(
        t,
        None,
        Some(None),
        None,
        None,
        Some(None),
        None,
        Some(None),
        Some(None),
        8_000,
    );
    assert_eq!(u.description, None);
    assert_eq!(u.group_id, None);
    assert_eq!(u.start_date, None);
    assert_eq!(u.due_date, None);
}

#[test]
fn status_codes_round_trip() {
    assert_eq!(TodoStatus::Todo.code(), 0);
    assert_eq!(TodoStatus::InProgress.code(), 1);
    assert_eq!(TodoStatus::Done.code(), 2);
    for s in [TodoStatus::Todo, TodoStatus::InProgress, TodoStatus::Done] {
        assert_eq!(TodoStatus::from_code(s.code()), s);
    }
    assert_eq!(TodoStatus::from_code(77), TodoStatus::Todo);
}

#[test]
fn status_text_mapping_matches_the_wire_format() {
    assert_eq!(TodoStatus::from_text("in_progress"), TodoStatus::InProgress);
    assert_eq!(TodoStatus::from_text("done"), TodoStatus::Done);
    assert_eq!(TodoStatus::from_text("todo"), TodoStatus::Todo);
    assert_eq!(TodoStatus::from_text("anything"), TodoStatus::Todo);
    assert_eq!(TodoStatus::Done.to_text(), "done");
    assert_eq!(TodoStatus::InProgress.to_text(), "in_progress");
    assert_eq!(TodoStatus::Todo.to_text(), "todo");
}

#[test]
fn close_behavior_names_round_trip() {
    assert_eq!(CloseBehavior::Direct.as_str(), "direct");
    assert_eq!(CloseBehavior::MinimizeToTray.as_str(), "minimize_to_tray");
    assert_eq!(CloseBehavior::from_str("direct"), Some(CloseBehavior::Direct));
    assert_eq!(
        CloseBehavior::from_str("minimize_to_tray"),
        Some(CloseBehavior::MinimizeToTray)
    );
    assert_eq!(CloseBehavior::from_str("bogus"), None);
}

#[test]
fn fresh_app_state_has_the_documented_defaults() {
    let s = AppState::new();
    assert_eq!(s.hide_hotkey, None);
    assert_eq!(s.close_behavior, CloseBehavior::Direct);
    assert!(!s.auto_launch);
}

#[test]
fn fresh_config_has_the_documented_defaults() {
    let c = AppConfig::default();
    assert!(!c.auto_launch);
    assert_eq!(c.close_behavior, "direct");
    assert_eq!(c.global_shortcut, None);
    assert_eq!(c.data_path, None);
    assert!(!default_auto_launch());
    assert_eq!(default_close_behavior(), "direct");
}

#[test]
fn config_updates_stick_and_pick_the_effective_path() {
    let mut c = AppConfig::default();
    c.update_auto_launch(true);
    c.update_close_behavior("minimize_to_tray".to_string());
    c.update_global_shortcut(Some("Ctrl+Shift+T".to_string()));
    assert!(c.auto_launch);
    assert_eq!(c.close_behavior, "minimize_to_tray");
    assert_eq!(
        c.effective_data_path("/default".to_string()),
        "/default".to_string()
    );
    c.update_data_path(Some("/custom".to_string()));
    assert_eq!(
        c.effective_data_path("/default".to_string()),
        "/custom".to_string()
    );
}

#[test]
fn decimal_rendering_is_exact() {
    assert_eq!(i64_to_string(0), "0");
    assert_eq!(i64_to_string(7), "7");
    assert_eq!(i64_to_string(-5), "-5");
    assert_eq!(i64_to_string(1234567890), "1234567890");
    assert_eq!(i64_to_string(i64::MAX), "9223372036854775807");
    assert_eq!(i64_to_string(i64::MIN), "-9223372036854775808");
}

#[test]
fn time_filters_match_the_query_fragments() {
    let (c, u, d) = StatsRepository::build_time_filters(Some(10), Some(20));
    assert_eq!(c, " AND created_at >= 10 AND created_at <= 20");
    assert_eq!(u, " AND updated_at >= 10 AND updated_at <= 20");
    assert_eq!(d, " AND completed_at >= 10 AND completed_at <= 20");
    let (c, _, _) = StatsRepository::build_time_filters(Some(-3), None);
    assert_eq!(c, " AND created_at >= -3");
    let (c, _, _) = StatsRepository::build_time_filters(None, Some(99));
    assert_eq!(c, " AND created_at <= 99");
    let (c, u, d) = StatsRepository::build_time_filters(None, None);
    assert_eq!(c, "");
    assert_eq!(u, "");
    assert_eq!(d, "");
}

#[test]
fn group_and_status_filters_build_placeholder_lists() {
    let (sql, params) = StatsRepository::build_group_filter(&Some(vec![4, 8, 15]));
    assert_eq!(sql, " AND group_id IN (?, ?, ?)");
    assert_eq!(params, vec![4, 8, 15]);
    let (sql, params) = StatsRepository::build_group_filter(&Some(vec![]));
    assert_eq!(sql, "");
    assert!(params.is_empty());
    let (sql, _) = StatsRepository::build_group_filter(&None);
    assert_eq!(sql, "");
    let (sql, params) = StatsRepository::build_status_filter(&Some(vec![0, 2]));
    assert_eq!(sql, " AND t.status IN (?, ?)");
    assert_eq!(params, vec![0, 2]);
}

#[test]
fn tag_filter_builds_existence_conditions() {
    let (sql, params) = StatsRepository::build_tag_filter(&Some(vec![1, 2]));
    assert_eq!(
        sql,
        " AND (EXISTS (SELECT 1 FROM todo_tags tt WHERE tt.todo_id = t.id AND tt.tag_id = ?) \
         OR EXISTS (SELECT 1 FROM todo_tags tt WHERE tt.todo_id = t.id AND tt.tag_id = ?))"
    );
    assert_eq!(params, vec![1, 2]);
    let (sql, _) = StatsRepository::build_tag_filter(&None);
    assert_eq!(sql, "");
}

#[test]
fn unfiltered_list_query_is_the_base_statement() {
    let req = rtodo::requests::GetTodosRequest {
        group_id: None,
        tag_id: None,
        group_ids: None,
        tag_ids: None,
        status: None,
        search: None,
        priority: None,
        start_date: None,
        end_date: None,
    };
    let (query, params) = TodoRepository::list(&req);
    assert_eq!(
        query,
        "SELECT t.* FROM todos t WHERE 1=1 ORDER BY CASE WHEN t.status = 2 THEN 1 ELSE 0 END, \
         t.priority DESC, t.due_date ASC, t.created_at DESC"
    );
    assert!(params.is_empty());
}

#[test]
fn filtered_list_query_binds_parameters_in_order() {
    let req = rtodo::requests::GetTodosRequest {
        group_id: Some(4),
        tag_id: Some(9),
        group_ids: None,
        tag_ids: None,
        status: Some(1),
        search: Some("report".to_string()),
        priority: Some(2),
        start_date: Some(100),
        end_date: Some(200),
    };
    let (query, params) = TodoRepository::list(&req);
    assert_eq!(
        query,
        "SELECT t.* FROM todos t WHERE 1=1 AND t.group_id = ? AND t.status = ? \
         AND EXISTS (SELECT 1 FROM todo_tags tt WHERE tt.todo_id = t.id AND tt.tag_id = ?) \
         AND (t.title LIKE ? OR t.description LIKE ?) AND t.priority = ? \
         AND (t.start_date >= ? AND t.start_date < ?) OR (t.due_date >= ? AND t.due_date < ?) \
         ORDER BY CASE WHEN t.status = 2 THEN 1 ELSE 0 END, t.priority DESC, t.due_date ASC, \
         t.created_at DESC"
    );
    assert_eq!(
        params,
        vec![
            Value::Int(4),
            Value::Int(1),
            Value::Int(9),
            Value::Text("%report%".to_string()),
            Value::Text("%report%".to_string()),
            Value::Int(2),
            Value::Int(100),
            Value::Int(200),
            Value::Int(100),
            Value::Int(200),
        ]
    );
}

#[test]
fn empty_search_adds_no_condition() {
    let req = rtodo::requests::GetTodosRequest {
        group_id: None,
        tag_id: None,
        group_ids: None,
        tag_ids: None,
        status: None,
        search: Some(String::new()),
        priority: None,
        start_date: None,
        end_date: None,
    };
    let (query, params) = TodoRepository::list(&req);
    assert!(!query.contains("LIKE"));
    assert!(params.is_empty());
}

#[test]
fn relations_attach_only_when_present() {
    let t = sample_todo();
    let tag = Tag { id: 1, name: "urgent".to_string(), color: "#409EFF".to_string(), created_at: 1 };
    let step = TodoStep {
        id: 1,
        todo_id: 1,
        title: "a".to_string(),
        is_completed: false,
        sort_order: 1,
        created_at: 1,
    };
    let r = TodoRepository::load_relations(t, vec![tag.clone()], vec![step], Vec::new(), None);
    assert_eq!(r.tags.as_ref().map(|v| v.len()), Some(1));
    assert!(r.steps.is_some());
    assert_eq!(r.attachments, None);
    assert_eq!(r.group, None);
}

#[test]
fn group_create_fills_defaults() {
    let g = GroupRepository::create(1, "work".to_string(), None, None, None, 10, 99);
    assert_eq!(g.icon.as_deref(), Some("📁"));
    assert_eq!(g.color.as_deref(), Some("#409EFF"));
    assert_eq!(g.sort_order, 10);
    assert_eq!(g.created_at, 99);
    let g2 = GroupRepository::create(
        2,
        "home".to_string(),
        Some(1),
        Some("star".to_string()),
        Some("#fff".to_string()),
        20,
        99,
    );
    assert_eq!(g2.icon.as_deref(), Some("star"));
    assert_eq!(g2.color.as_deref(), Some("#fff"));
    assert_eq!(g2.parent_id, Some(1));
}

#[test]
fn group_update_touches_only_named_fields() {
    let g = GroupRepository::create(1, "work".to_string(), None, None, None, 10, 99);
    let u = GroupRepository::update(g, Some("renamed".to_string()), Some(None), None, None, 120);
    assert_eq!(u.name, "renamed");
    assert_eq!(u.parent_id, None);
    assert_eq!(u.icon.as_deref(), Some("📁"));
    assert_eq!(u.updated_at, 120);
}

#[test]
fn tag_and_step_and_attachment_creation() {
    let tag = TagRepository::create(1, "urgent".to_string(), "#409EFF".to_string(), 7);
    assert_eq!(tag.name, "urgent");
    let tag = TagRepository::update(tag, None, Some("#000".to_string()));
    assert_eq!(tag.color, "#000");
    assert_eq!(tag.name, "urgent");
    let step = StepRepository::create(1, 2, "draft".to_string(), 10, 7);
    assert!(!step.is_completed);
    let step = StepRepository::update(step, None, Some(true), None);
    assert!(step.is_completed);
    assert_eq!(step.title, "draft");
    let att = AttachmentRepository::create(1, 2, "notes.txt".to_string(), "f/x".to_string(), 5, None, 7);
    assert_eq!(att.todo_id, 2);
    assert_eq!(att.file_size, 5);
}

#[test]
fn stats_queries_are_assembled_with_their_windows() {
    let qs = StatsRepository::get_stats(Some(10), Some(20), 555);
    assert_eq!(qs.len(), 6);
    assert_eq!(
        qs[0],
        "SELECT COUNT(*) FROM todos WHERE 1=1 AND created_at >= 10 AND created_at <= 20"
    );
    assert_eq!(
        qs[2],
        "SELECT COUNT(*) FROM todos WHERE status = 1 AND updated_at >= 10 AND updated_at <= 20"
    );
    assert_eq!(
        qs[3],
        "SELECT COUNT(*) FROM todos WHERE status = 2 AND completed_at >= 10 AND completed_at <= 20"
    );
    assert_eq!(
        qs[5],
        "SELECT COUNT(*) FROM todos WHERE due_date < 555 AND status != 2 AND created_at >= 10 AND created_at <= 20"
    );
    let qs = StatsRepository::get_stats(None, None, 1);
    assert_eq!(qs[1], "SELECT COUNT(*) FROM todos WHERE status = 0");
}

#[test]
fn detail_query_embeds_state_and_filters() {
    let q = StatsRepository::query_tasks_by_status(
        1,
        " AND updated_at >= 10",
        " AND group_id IN (?)",
        "",
        "",
    );
    assert_eq!(
        q,
        "SELECT t.* FROM todos t WHERE t.status = 1 AND updated_at >= 10 AND group_id IN (?) \
         ORDER BY CASE WHEN t.status = 2 THEN 1 ELSE 0 END, t.priority DESC, t.due_date ASC, \
         t.created_at DESC"
    );
}

#[test]
fn day_windows_cover_consecutive_days() {
    let windows = StatsRepository::get_stats_by_date(1_000, 3);
    assert_eq!(
        windows,
        vec![
            (1_000, 86_401_000),
            (86_401_000, 172_801_000),
            (172_801_000, 259_201_000)
        ]
    );
    assert!(StatsRepository::get_stats_by_date(1_000, 0).is_empty());
}
