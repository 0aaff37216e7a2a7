//! Request payloads for the command handlers. The handlers themselves are
//! thin I/O glue and live outside this crate; they hand these plain values
//! to the verified logic.

use vstd::prelude::*;
use crate::models::TodoStatus;

verus! {

#[derive(Debug, Clone, PartialEq)]
pub struct CreateTodoRequest {
    pub title: String,
    pub description: Option<String>,
    pub group_id: Option<i64>,
    pub start_date: Option<i64>,
    pub due_date: Option<i64>,
    pub priority: Option<i32>,
    pub tag_ids: Option<Vec<i64>>,
}

#[derive(Debug, Clone, PartialEq)]
pub struct GetTodosRequest {
    pub group_id: Option<i64>,
    pub tag_id: Option<i64>,
    pub group_ids: Option<Vec<i64>>,
    pub tag_ids: Option<Vec<i64>>,
    pub status: Option<i32>,
    pub search: Option<String>,
    pub priority: Option<i32>,
    pub start_date: Option<i64>,
    pub end_date: Option<i64>,
}

#[derive(Debug, Clone, PartialEq)]
pub struct UpdateTodoRequest {
    pub id: i64,
    pub title: Option<String>,
    pub description: Option<String>,
    pub status: Option<TodoStatus>,
    pub priority: Option<i32>,
    pub group_id: Option<i64>,
    pub assignee: Option<String>,
    pub start_date: Option<i64>,
    pub due_date: Option<i64>,
    pub tag_ids: Option<Vec<i64>>,
}

#[derive(Debug, Clone, PartialEq)]
pub struct UpdateTodoStatusRequest {
    pub id: i64,
    pub status: i32,
}

#[derive(Debug, Clone, PartialEq)]
pub struct CreateGroupRequest {
    pub name: String,
    pub parent_id: Option<i64>,
    pub icon: Option<String>,
    pub color: Option<String>,
}

#[derive(Debug, Clone, PartialEq)]
pub struct UpdateGroupRequest {
    pub id: i64,
    pub name: Option<String>,
    pub parent_id: Option<i64>,
    pub icon: Option<String>,
    pub color: Option<String>,
}

#[derive(Debug, Clone, PartialEq)]
pub struct CreateTagRequest {
    pub name: String,
    pub color: String,
}

#[derive(Debug, Clone, PartialEq)]
pub struct UpdateTagRequest {
    pub id: i64,
    pub name: Option<String>,
    pub color: Option<String>,
}

#[derive(Debug, Clone, PartialEq)]
pub struct CreateStepRequest {
    pub todo_id: i64,
    pub title: String,
    pub sort_order: Option<i32>,
}

#[derive(Debug, Clone, PartialEq)]
pub struct UpdateStepRequest {
    pub id: i64,
    pub title: Option<String>,
    pub is_completed: Option<bool>,
    pub sort_order: Option<i32>,
}

#[derive(Debug, Clone, PartialEq)]
pub struct CreateAttachmentRequest {
    pub todo_id: i64,
    pub file_path: String,
    pub name: String,
}

#[derive(Debug, Clone, PartialEq)]
pub struct DownloadAttachmentRequest {
    pub attachment_id: i64,
    pub target_path: String,
}

/// Asks for the data directory to be moved to `new_path`.
#[derive(Debug, Clone, PartialEq)]
pub struct MigrateDataRequest {
    pub new_path: String,
    pub keep_original: bool,
}

#[derive(Debug, Clone, PartialEq)]
pub struct GetStatsRequest {
    pub start_date: Option<i64>,
    pub end_date: Option<i64>,
}

#[derive(Debug, Clone, PartialEq)]
pub struct GetStatsByDateRequest {
    pub range: String,
    pub start_date: Option<i64>,
    pub end_date: Option<i64>,
}

#[derive(Debug, Clone, PartialEq)]
pub struct GetStatsWithDetailsRequest {
    pub start_date: Option<i64>,
    pub end_date: Option<i64>,
    pub group_ids: Option<Vec<i64>>,
    pub tag_ids: Option<Vec<i64>>,
    pub status_ids: Option<Vec<i32>>,
}

/// The per-table text blocks carried inside an exported archive.
#[derive(Debug, Clone, PartialEq)]
pub struct ZipCsvData {
    pub groups_csv: String,
    pub tags_csv: String,
    pub todos_csv: String,
    pub todo_tags_csv: String,
    pub steps_csv: String,
    pub attachments_csv: String,
}

} // verus!
