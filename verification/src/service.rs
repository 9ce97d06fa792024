//! The API vocabulary shared by every host: errors, task lifecycle events
//! and per-task live speeds.
use vstd::prelude::*;

verus! {

/// Message of the 404 answer for a route that is not registered, so that a
/// client can tell it apart from [`ApiError::NotFound`] ("not found").
pub const UNKNOWN_ENDPOINT_MESSAGE: &'static str = "unknown endpoint";

/// An API operation error; the HTTP layer maps each variant to a status code.
#[derive(Debug)]
pub enum ApiError {
    /// The resource does not exist (404).
    NotFound,
    /// The request is malformed (400); the text says why.
    BadRequest(String),
    /// The host is shutting down (503).
    Unavailable,
    /// Any other failure (500); the text says what happened.
    Internal(String),
}

/// The text shown for an error.
pub open spec fn api_error_text(e: ApiError) -> Seq<char> {
    match e {
        ApiError::NotFound => "not found"@,
        ApiError::BadRequest(m) => m@,
        ApiError::Unavailable => "app shutting down"@,
        ApiError::Internal(m) => m@,
    }
}

/// The text of the error a host answers to a configuration change it cannot apply.
pub open spec fn config_change_unsupported_text() -> Seq<char> {
    "config change not supported by this host"@
}

impl ApiError {
    /// The error's text, as the HTTP layer shows it.
    pub fn message(&self) -> (text: String)
        ensures
            text@ == api_error_text(*self),
    {
        match self {
            ApiError::NotFound => "not found".to_owned(),
            ApiError::BadRequest(m) => m.clone(),
            ApiError::Unavailable => "app shutting down".to_owned(),
            ApiError::Internal(m) => m.clone(),
        }
    }

    /// What a host that cannot apply configuration changes answers to one.
    pub fn config_change_unsupported() -> (e: ApiError)
        ensures
            e matches ApiError::Internal(m) && m@ == config_change_unsupported_text(),
    {
        ApiError::Internal("config change not supported by this host".to_owned())
    }
}

/// Kind of a task lifecycle event; one per aria2 WebSocket notification.
#[derive(Debug, Clone, Copy, PartialEq, Eq, Structural)]
pub enum TaskEventKind {
    /// The task started or resumed downloading (`aria2.onDownloadStart`).
    Start,
    /// The task was paused (`aria2.onDownloadPause`).
    Pause,
    /// The task was deleted or stopped by the user (`aria2.onDownloadStop`).
    Stop,
    /// The task finished downloading (`aria2.onDownloadComplete`).
    Complete,
    /// The task failed (`aria2.onDownloadError`).
    Error,
    /// A BT task finished its data, possibly still seeding (`aria2.onBtDownloadComplete`).
    BtComplete,
}

/// One task lifecycle event.
#[derive(Debug, Clone)]
pub struct TaskEvent {
    /// Task id (a UUID).
    pub task_id: String,
    /// What happened to the task.
    pub kind: TaskEventKind,
}

/// Live speed of one task, in bytes per second.
#[derive(Debug, Clone, Copy, Default, PartialEq, Eq, Structural)]
pub struct LiveSpeed {
    /// Download speed.
    pub download_bps: i64,
    /// Upload speed (non-zero only for BT tasks).
    pub upload_bps: i64,
}

/// The texts of the errors: fixed texts for a missing resource and for a
/// host that shuts down, the carried text for the others.
pub proof fn law_api_error_texts(text: String)
    ensures
        api_error_text(ApiError::NotFound) == "not found"@,
        api_error_text(ApiError::Unavailable) == "app shutting down"@,
        api_error_text(ApiError::BadRequest(text)) == text@,
        api_error_text(ApiError::Internal(text)) == text@,
        config_change_unsupported_text() == "config change not supported by this host"@,
{
}

} // verus!
