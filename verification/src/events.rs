//! The engine events that the hosts' event sinks take in, with their payloads.
//!
//! `Seg` and `Pos` are the engine's per-segment progress and queue-position
//! records: the sinks pass them on unread, in order.
use vstd::prelude::*;

verus! {

/// Progress of one task.
#[derive(Debug, Clone, PartialEq, Eq)]
pub struct TaskProgress {
    pub task_id: String,
    /// Status code: 0 pending, 1 downloading, 2 paused, 3 completed,
    /// 4 error (also sent when the task is deleted), 5 preparing.
    pub status: i32,
    pub downloaded_bytes: i64,
    pub total_bytes: i64,
    /// Download speed in bytes per second.
    pub speed: i64,
    pub file_name: String,
    pub save_dir: String,
    pub url: String,
    pub error_message: String,
}

/// One task of the authoritative task list.
#[derive(Debug, Clone, PartialEq, Eq)]
pub struct TaskInfo {
    pub task_id: String,
    pub url: String,
    pub file_name: String,
    pub save_dir: String,
    pub status: i32,
    pub downloaded_bytes: i64,
    pub total_bytes: i64,
    pub error_message: String,
    pub created_at: String,
    pub proxy_url: String,
    pub queue_id: String,
    pub checksum: String,
    pub file_missing: bool,
}

/// One download queue.
#[derive(Debug, Clone, PartialEq, Eq)]
pub struct QueueInfo {
    pub queue_id: String,
    pub name: String,
    pub speed_limit_kbps: i64,
    pub max_concurrent: i32,
    pub default_save_dir: String,
    pub position: i32,
    pub default_segments: i32,
    pub default_user_agent: String,
}

/// A download segment split in two.
#[derive(Debug, Clone, Copy, PartialEq, Eq)]
pub struct SegmentSplit {
    pub parent_index: i32,
    pub parent_new_end: i64,
    pub child_index: i32,
    pub child_start: i64,
    pub child_end: i64,
    pub is_proactive: bool,
    pub total_segments: i32,
}

/// An event of the download engine.
pub enum EngineEvent<Seg, Pos> {
    /// Progress of one task.
    TaskProgress(TaskProgress),
    /// The authoritative list of all tasks.
    TasksSnapshot(Vec<TaskInfo>),
    /// Per-segment progress of one task.
    SegmentProgress { task_id: String, total_bytes: i64, segment_count: i32, segments: Vec<Seg> },
    /// File name and size found for a task.
    TaskMetaProbed { task_id: String, file_name: String, total_bytes: i64 },
    /// New queue positions of waiting tasks.
    QueuePositionsChanged(Vec<Pos>),
    /// The list of queues changed.
    QueuesChanged(Vec<QueueInfo>),
    /// The priority task changed; tasks paused to make room are counted.
    PriorityTaskChanged { priority_task_id: String, auto_paused_count: u32 },
    /// A segment of a task was split in two.
    SegmentSplit { task_id: String, split: SegmentSplit },
    /// Tasks whose downloaded file went missing (`true`) or came back (`false`).
    FileMissingChanged(Vec<(String, bool)>),
}

/// The task ids of a task list, as character sequences.
pub open spec fn task_id_set(tasks: Seq<TaskInfo>) -> Set<Seq<char>> {
    tasks.map_values(|t: TaskInfo| t.task_id@).to_set()
}

} // verus!
