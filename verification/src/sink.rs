//! What the two event sinks make of each engine event.
//!
//! The desktop hub forwards every event to the Dart side as one signal; the
//! WebSocket server broadcasts every event it has a frame for to its
//! clients. Both pass the event's fields on unchanged and its lists in
//! order, and both keep the live-speed table up to date from task progress
//! reports; the server also uses each authoritative task list to forget the
//! speeds of tasks that no longer exist (a deleted task has no event of its
//! own). Sending the signal or the frame is the host's part.
use vstd::prelude::*;

use crate::events::{task_id_set, EngineEvent, QueueInfo, SegmentSplit, TaskInfo, TaskProgress};
use crate::live_speeds::{
    after_progress, after_snapshot, apply_task_progress_speed, hub_status_is_active,
    prune_to_snapshot, track_live_speed, ws_status_is_active, LiveSpeedTable,
};
use crate::service::LiveSpeed;
use crate::task_table::id_views;

verus! {

/// One entry of the missing-file signal.
#[derive(Debug, Clone, PartialEq, Eq)]
pub struct FileMissingUpdate {
    pub task_id: String,
    /// Whether the task's downloaded file is missing.
    pub missing: bool,
}

/// A signal of the desktop hub to the Dart side.
pub enum HubSignal<Seg, Pos> {
    TaskProgress(TaskProgress),
    AllTasks { tasks: Vec<TaskInfo> },
    SegmentProgress { task_id: String, total_bytes: i64, segment_count: i32, segments: Vec<Seg> },
    TaskMetaProbed { task_id: String, file_name: String, total_bytes: i64 },
    QueuePositionsUpdate { positions: Vec<Pos> },
    AllQueues { queues: Vec<QueueInfo> },
    PriorityTaskChanged { priority_task_id: String, auto_paused_count: u32 },
    SegmentSplitEvent { task_id: String, split: SegmentSplit },
    FileMissingChanged { updates: Vec<FileMissingUpdate> },
}

/// A frame that the WebSocket server broadcasts to its clients.
pub enum WsFrame<Seg, Pos> {
    TaskProgress(TaskProgress),
    TasksSnapshot { tasks: Vec<TaskInfo> },
    SegmentProgress { task_id: String, total_bytes: i64, segment_count: i32, segments: Vec<Seg> },
    TaskMetaProbed { task_id: String, file_name: String, total_bytes: i64 },
    QueuePositionsChanged { positions: Vec<Pos> },
    QueuesChanged { queues: Vec<QueueInfo> },
    PriorityTaskChanged { priority_task_id: String, auto_paused_count: u32 },
    SegmentSplit { task_id: String, split: SegmentSplit },
}

/// The `type` tag of each frame on the wire.
pub open spec fn ws_frame_tag<Seg, Pos>(frame: WsFrame<Seg, Pos>) -> Seq<char> {
    match frame {
        WsFrame::TaskProgress(_) => "taskProgress"@,
        WsFrame::TasksSnapshot { .. } => "tasksSnapshot"@,
        WsFrame::SegmentProgress { .. } => "segmentProgress"@,
        WsFrame::TaskMetaProbed { .. } => "taskMetaProbed"@,
        WsFrame::QueuePositionsChanged { .. } => "queuePositionsChanged"@,
        WsFrame::QueuesChanged { .. } => "queuesChanged"@,
        WsFrame::PriorityTaskChanged { .. } => "priorityTaskChanged"@,
        WsFrame::SegmentSplit { .. } => "segmentSplit"@,
    }
}

impl<Seg, Pos> WsFrame<Seg, Pos> {
    /// The frame's `type` tag on the wire.
    pub fn type_tag(&self) -> (tag: &'static str)
        ensures
            tag@ == ws_frame_tag(*self),
    {
        match self {
            WsFrame::TaskProgress(_) => "taskProgress",
            WsFrame::TasksSnapshot { .. } => "tasksSnapshot",
            WsFrame::SegmentProgress { .. } => "segmentProgress",
            WsFrame::TaskMetaProbed { .. } => "taskMetaProbed",
            WsFrame::QueuePositionsChanged { .. } => "queuePositionsChanged",
            WsFrame::QueuesChanged { .. } => "queuesChanged",
            WsFrame::PriorityTaskChanged { .. } => "priorityTaskChanged",
            WsFrame::SegmentSplit { .. } => "segmentSplit",
        }
    }
}

/// Whether `updates` carries the (task id, missing) pairs `pairs`, one
/// update per pair, in order.
pub open spec fn carries_file_missing(
    pairs: Seq<(String, bool)>,
    updates: Seq<FileMissingUpdate>,
) -> bool {
    &&& updates.len() == pairs.len()
    &&& forall|i: int|
        0 <= i < pairs.len() ==> #[trigger] updates[i] == (FileMissingUpdate {
            task_id: pairs[i].0,
            missing: pairs[i].1,
        })
}

/// Whether `signal` is the hub's signal for `event`: the matching signal
/// kind, with the event's fields and lists unchanged.
pub open spec fn hub_signal_for<Seg, Pos>(
    event: EngineEvent<Seg, Pos>,
    signal: HubSignal<Seg, Pos>,
) -> bool {
    match event {
        EngineEvent::TaskProgress(p) => signal == HubSignal::<Seg, Pos>::TaskProgress(p),
        EngineEvent::TasksSnapshot(tasks) => signal == HubSignal::<Seg, Pos>::AllTasks { tasks },
        EngineEvent::SegmentProgress { task_id, total_bytes, segment_count, segments } => signal
            == HubSignal::<Seg, Pos>::SegmentProgress {
            task_id,
            total_bytes,
            segment_count,
            segments,
        },
        EngineEvent::TaskMetaProbed { task_id, file_name, total_bytes } => signal
            == HubSignal::<Seg, Pos>::TaskMetaProbed { task_id, file_name, total_bytes },
        EngineEvent::QueuePositionsChanged(positions) => signal
            == HubSignal::<Seg, Pos>::QueuePositionsUpdate { positions },
        EngineEvent::QueuesChanged(queues) => signal == HubSignal::<Seg, Pos>::AllQueues { queues },
        EngineEvent::PriorityTaskChanged { priority_task_id, auto_paused_count } => signal
            == HubSignal::<Seg, Pos>::PriorityTaskChanged { priority_task_id, auto_paused_count },
        EngineEvent::SegmentSplit { task_id, split } => signal
            == HubSignal::<Seg, Pos>::SegmentSplitEvent { task_id, split },
        EngineEvent::FileMissingChanged(pairs) => signal matches HubSignal::FileMissingChanged {
            updates,
        } && carries_file_missing(pairs@, updates@),
    }
}

/// The server's frame for `event`: the matching frame kind, with the
/// event's fields and lists unchanged; none for the missing-file updates,
/// which the server does not broadcast.
pub open spec fn ws_frame_for<Seg, Pos>(event: EngineEvent<Seg, Pos>) -> Option<WsFrame<Seg, Pos>> {
    match event {
        EngineEvent::TaskProgress(p) => Some(WsFrame::TaskProgress(p)),
        EngineEvent::TasksSnapshot(tasks) => Some(WsFrame::TasksSnapshot { tasks }),
        EngineEvent::SegmentProgress { task_id, total_bytes, segment_count, segments } => Some(
            WsFrame::SegmentProgress { task_id, total_bytes, segment_count, segments },
        ),
        EngineEvent::TaskMetaProbed { task_id, file_name, total_bytes } => Some(
            WsFrame::TaskMetaProbed { task_id, file_name, total_bytes },
        ),
        EngineEvent::QueuePositionsChanged(positions) => Some(
            WsFrame::QueuePositionsChanged { positions },
        ),
        EngineEvent::QueuesChanged(queues) => Some(WsFrame::QueuesChanged { queues }),
        EngineEvent::PriorityTaskChanged { priority_task_id, auto_paused_count } => Some(
            WsFrame::PriorityTaskChanged { priority_task_id, auto_paused_count },
        ),
        EngineEvent::SegmentSplit { task_id, split } => Some(WsFrame::SegmentSplit { task_id, split }),
        EngineEvent::FileMissingChanged(_) => None,
    }
}

/// The desktop hub's table after an event: progress reports follow the hub
/// rule; no other event touches the table.
pub open spec fn hub_after_event<Seg, Pos>(
    speeds: Map<Seq<char>, LiveSpeed>,
    event: EngineEvent<Seg, Pos>,
) -> Map<Seq<char>, LiveSpeed> {
    match event {
        EngineEvent::TaskProgress(p) => after_progress(
            speeds,
            p.task_id@,
            hub_status_is_active(p.status),
            p.speed,
        ),
        _ => speeds,
    }
}

/// The WebSocket server's table after an event: progress reports follow the
/// server rule, a task list drops the unlisted tasks, and no other event
/// touches the table.
pub open spec fn ws_after_event<Seg, Pos>(
    speeds: Map<Seq<char>, LiveSpeed>,
    event: EngineEvent<Seg, Pos>,
) -> Map<Seq<char>, LiveSpeed> {
    match event {
        EngineEvent::TaskProgress(p) => after_progress(
            speeds,
            p.task_id@,
            ws_status_is_active(p.status),
            p.speed,
        ),
        EngineEvent::TasksSnapshot(tasks) => after_snapshot(speeds, task_id_set(tasks@)),
        _ => speeds,
    }
}

/// The missing-file updates for the (task id, missing) pairs, in order.
fn file_missing_updates(pairs: Vec<(String, bool)>) -> (updates: Vec<FileMissingUpdate>)
    ensures
        carries_file_missing(pairs@, updates@),
{
    let ghost all = pairs@;
    let mut rest = pairs;
    let mut reversed: Vec<FileMissingUpdate> = Vec::new();
    while rest.len() > 0
        invariant
            rest@.len() <= all.len(),
            rest@ == all.subrange(0, rest@.len() as int),
            reversed@.len() + rest@.len() == all.len(),
            forall|i: int|
                0 <= i < reversed@.len() ==> #[trigger] reversed@[i] == (FileMissingUpdate {
                    task_id: all[all.len() - 1 - i].0,
                    missing: all[all.len() - 1 - i].1,
                }),
        decreases rest@.len(),
    {
        let ghost n = rest@.len() - 1;
        let (task_id, missing) = rest.pop().unwrap();
        proof {
            assert(all[n] == (task_id, missing));
        }
        reversed.push(FileMissingUpdate { task_id, missing });
    }
    let mut updates: Vec<FileMissingUpdate> = Vec::new();
    while reversed.len() > 0
        invariant
            reversed@.len() + updates@.len() == all.len(),
            forall|i: int|
                0 <= i < reversed@.len() ==> #[trigger] reversed@[i] == (FileMissingUpdate {
                    task_id: all[all.len() - 1 - i].0,
                    missing: all[all.len() - 1 - i].1,
                }),
            forall|i: int|
                0 <= i < updates@.len() ==> #[trigger] updates@[i] == (FileMissingUpdate {
                    task_id: all[i].0,
                    missing: all[i].1,
                }),
        decreases reversed@.len(),
    {
        let update = reversed.pop().unwrap();
        updates.push(update);
    }
    updates
}

/// The task ids of a task list, in order.
fn task_ids_of(tasks: &Vec<TaskInfo>) -> (ids: Vec<String>)
    ensures
        id_views(ids@) == tasks@.map_values(|t: TaskInfo| t.task_id@),
{
    let mut ids: Vec<String> = Vec::new();
    let mut i: usize = 0;
    while i < tasks.len()
        invariant
            i <= tasks@.len(),
            ids@.len() == i,
            forall|j: int| 0 <= j < i ==> #[trigger] ids@[j]@ == tasks@[j].task_id@,
        decreases tasks@.len() - i,
    {
        ids.push(tasks[i].task_id.clone());
        i += 1;
    }
    proof {
        assert(id_views(ids@) =~= tasks@.map_values(|t: TaskInfo| t.task_id@));
    }
    ids
}

/// Event sink of the desktop hub: forwards every engine event to Dart and
/// keeps the live-speed table that the hub's API host reads.
pub struct RinfEventSink {
    live_speeds: LiveSpeedTable,
}

impl View for RinfEventSink {
    type V = Map<Seq<char>, LiveSpeed>;

    closed spec fn view(&self) -> Map<Seq<char>, LiveSpeed> {
        self.live_speeds@
    }
}

impl RinfEventSink {
    /// A sink that keeps its speeds in `live_speeds`.
    pub fn new(live_speeds: LiveSpeedTable) -> (sink: Self)
        ensures
            sink@ == live_speeds@,
    {
        RinfEventSink { live_speeds }
    }

    /// The live-speed table the sink keeps.
    pub fn live_speeds(&self) -> (speeds: &LiveSpeedTable)
        ensures
            speeds@ == self@,
    {
        &self.live_speeds
    }

    /// Takes in one engine event and gives back the one signal that carries
    /// it to Dart: the matching signal kind with the event's fields and lists
    /// unchanged (the missing-file pairs become updates, in order). A progress
    /// report also updates the live-speed table by the hub rule; no other
    /// event touches the table.
    pub fn emit<Seg, Pos>(&mut self, event: EngineEvent<Seg, Pos>) -> (signal: HubSignal<Seg, Pos>)
        ensures
            final(self)@ == hub_after_event(old(self)@, event),
            hub_signal_for(event, signal),
    {
        match event {
            EngineEvent::TaskProgress(p) => {
                apply_task_progress_speed(&mut self.live_speeds, p.task_id.as_str(), p.status, p.speed);
                HubSignal::TaskProgress(p)
            },
            EngineEvent::TasksSnapshot(tasks) => HubSignal::AllTasks { tasks },
            EngineEvent::SegmentProgress { task_id, total_bytes, segment_count, segments } => {
                HubSignal::SegmentProgress { task_id, total_bytes, segment_count, segments }
            },
            EngineEvent::TaskMetaProbed { task_id, file_name, total_bytes } => {
                HubSignal::TaskMetaProbed { task_id, file_name, total_bytes }
            },
            EngineEvent::QueuePositionsChanged(positions) => {
                HubSignal::QueuePositionsUpdate { positions }
            },
            EngineEvent::QueuesChanged(queues) => HubSignal::AllQueues { queues },
            EngineEvent::PriorityTaskChanged { priority_task_id, auto_paused_count } => {
                HubSignal::PriorityTaskChanged { priority_task_id, auto_paused_count }
            },
            EngineEvent::SegmentSplit { task_id, split } => {
                HubSignal::SegmentSplitEvent { task_id, split }
            },
            EngineEvent::FileMissingChanged(pairs) => {
                HubSignal::FileMissingChanged { updates: file_missing_updates(pairs) }
            },
        }
    }
}

/// What the WebSocket server's event sink makes of one engine event: the
/// frame it broadcasts (the matching frame kind with the event's fields and
/// lists unchanged; none for the missing-file updates), and the change to
/// its live-speed table (progress reports follow the server rule, a task
/// list drops the speeds of tasks it no longer names).
pub fn ws_emit<Seg, Pos>(live_speeds: &mut LiveSpeedTable, event: EngineEvent<Seg, Pos>) -> (frame:
    Option<WsFrame<Seg, Pos>>)
    ensures
        final(live_speeds)@ == ws_after_event(old(live_speeds)@, event),
        frame == ws_frame_for(event),
{
    match event {
        EngineEvent::TaskProgress(p) => {
            track_live_speed(live_speeds, p.task_id.as_str(), p.status, p.speed);
            Some(WsFrame::TaskProgress(p))
        },
        EngineEvent::TasksSnapshot(tasks) => {
            let ids = task_ids_of(&tasks);
            prune_to_snapshot(live_speeds, ids.as_slice());
            Some(WsFrame::TasksSnapshot { tasks })
        },
        EngineEvent::SegmentProgress { task_id, total_bytes, segment_count, segments } => Some(
            WsFrame::SegmentProgress { task_id, total_bytes, segment_count, segments },
        ),
        EngineEvent::TaskMetaProbed { task_id, file_name, total_bytes } => Some(
            WsFrame::TaskMetaProbed { task_id, file_name, total_bytes },
        ),
        EngineEvent::QueuePositionsChanged(positions) => Some(
            WsFrame::QueuePositionsChanged { positions },
        ),
        EngineEvent::QueuesChanged(queues) => Some(WsFrame::QueuesChanged { queues }),
        EngineEvent::PriorityTaskChanged { priority_task_id, auto_paused_count } => Some(
            WsFrame::PriorityTaskChanged { priority_task_id, auto_paused_count },
        ),
        EngineEvent::SegmentSplit { task_id, split } => Some(WsFrame::SegmentSplit { task_id, split }),
        EngineEvent::FileMissingChanged(_) => None,
    }
}

/// The wire tag of each frame kind is the camelCase name of the kind.
pub proof fn law_ws_frame_tags<Seg, Pos>(frame: WsFrame<Seg, Pos>)
    ensures
        frame is TaskProgress ==> ws_frame_tag(frame) == "taskProgress"@,
        frame is TasksSnapshot ==> ws_frame_tag(frame) == "tasksSnapshot"@,
        frame is SegmentProgress ==> ws_frame_tag(frame) == "segmentProgress"@,
        frame is TaskMetaProbed ==> ws_frame_tag(frame) == "taskMetaProbed"@,
        frame is QueuePositionsChanged ==> ws_frame_tag(frame) == "queuePositionsChanged"@,
        frame is QueuesChanged ==> ws_frame_tag(frame) == "queuesChanged"@,
        frame is PriorityTaskChanged ==> ws_frame_tag(frame) == "priorityTaskChanged"@,
        frame is SegmentSplit ==> ws_frame_tag(frame) == "segmentSplit"@,
{
}

/// The server broadcasts a progress report as that report: every one of
/// its fields reaches the clients unchanged.
pub proof fn law_ws_progress_frame_is_the_report<Seg, Pos>(p: TaskProgress)
    ensures
        ws_frame_for::<Seg, Pos>(EngineEvent::TaskProgress(p)) matches Some(
            WsFrame::TaskProgress(q),
        ) && q.task_id == p.task_id && q.status == p.status && q.downloaded_bytes
            == p.downloaded_bytes && q.total_bytes == p.total_bytes && q.speed == p.speed
            && q.file_name == p.file_name && q.save_dir == p.save_dir && q.url == p.url
            && q.error_message == p.error_message,
{
}

/// The server broadcasts every event but the missing-file updates, in the
/// frame of the same kind, with the event's fields unchanged and its lists
/// element for element in order.
pub proof fn law_ws_frame_carries_the_event<Seg, Pos>(event: EngineEvent<Seg, Pos>)
    ensures
        event matches EngineEvent::TasksSnapshot(tasks) ==> (ws_frame_for(event) matches Some(
            WsFrame::TasksSnapshot { tasks: t },
        ) && t@ == tasks@),
        event matches EngineEvent::SegmentProgress { task_id, total_bytes, segment_count, segments }
            ==> (ws_frame_for(event) matches Some(
            WsFrame::SegmentProgress { task_id: t, total_bytes: n, segment_count: c, segments: s },
        ) && t == task_id && n == total_bytes && c == segment_count && s@ == segments@),
        event matches EngineEvent::TaskMetaProbed { task_id, file_name, total_bytes } ==> (
        ws_frame_for(event) matches Some(
            WsFrame::TaskMetaProbed { task_id: t, file_name: f, total_bytes: n },
        ) && t == task_id && f == file_name && n == total_bytes),
        event matches EngineEvent::QueuePositionsChanged(positions) ==> (ws_frame_for(
            event,
        ) matches Some(WsFrame::QueuePositionsChanged { positions: ps }) && ps@ == positions@),
        event matches EngineEvent::QueuesChanged(queues) ==> (ws_frame_for(event) matches Some(
            WsFrame::QueuesChanged { queues: qs },
        ) && qs@ == queues@),
        event matches EngineEvent::PriorityTaskChanged { priority_task_id, auto_paused_count }
            ==> (ws_frame_for(event) matches Some(
            WsFrame::PriorityTaskChanged { priority_task_id: t, auto_paused_count: c },
        ) && t == priority_task_id && c == auto_paused_count),
        event matches EngineEvent::SegmentSplit { task_id, split } ==> (ws_frame_for(
            event,
        ) matches Some(WsFrame::SegmentSplit { task_id: t, split: s }) && t == task_id
            && s.parent_index == split.parent_index && s.parent_new_end == split.parent_new_end
            && s.child_index == split.child_index && s.child_start == split.child_start
            && s.child_end == split.child_end && s.is_proactive == split.is_proactive
            && s.total_segments == split.total_segments),
        event is FileMissingChanged ==> ws_frame_for(event) is None,
        !(event is FileMissingChanged) ==> ws_frame_for(event) is Some,
{
}

/// The hub sends a progress report to Dart as that report: every one of its
/// fields arrives unchanged.
pub proof fn law_hub_progress_signal_is_the_report<Seg, Pos>(
    p: TaskProgress,
    signal: HubSignal<Seg, Pos>,
)
    requires
        hub_signal_for(EngineEvent::TaskProgress(p), signal),
    ensures
        signal matches HubSignal::TaskProgress(q) && q.task_id == p.task_id && q.status
            == p.status && q.downloaded_bytes == p.downloaded_bytes && q.total_bytes
            == p.total_bytes && q.speed == p.speed && q.file_name == p.file_name && q.save_dir
            == p.save_dir && q.url == p.url && q.error_message == p.error_message,
{
}

/// The hub sends every event to Dart as the signal of the matching kind,
/// with the event's fields unchanged and its lists element for element in
/// order; each missing-file pair becomes the update for the same task.
pub proof fn law_hub_signal_carries_the_event<Seg, Pos>(
    event: EngineEvent<Seg, Pos>,
    signal: HubSignal<Seg, Pos>,
)
    requires
        hub_signal_for(event, signal),
    ensures
        event matches EngineEvent::TasksSnapshot(tasks) ==> (signal matches HubSignal::AllTasks {
            tasks: t,
        } && t@ == tasks@),
        event matches EngineEvent::SegmentProgress { task_id, total_bytes, segment_count, segments }
            ==> (signal matches HubSignal::SegmentProgress {
            task_id: t,
            total_bytes: n,
            segment_count: c,
            segments: s,
        } && t == task_id && n == total_bytes && c == segment_count && s@ == segments@),
        event matches EngineEvent::TaskMetaProbed { task_id, file_name, total_bytes } ==> (
        signal matches HubSignal::TaskMetaProbed { task_id: t, file_name: f, total_bytes: n }
            && t == task_id && f == file_name && n == total_bytes),
        event matches EngineEvent::QueuePositionsChanged(positions) ==> (
        signal matches HubSignal::QueuePositionsUpdate { positions: ps } && ps@ == positions@),
        event matches EngineEvent::QueuesChanged(queues) ==> (signal matches HubSignal::AllQueues {
            queues: qs,
        } && qs@ == queues@),
        event matches EngineEvent::PriorityTaskChanged { priority_task_id, auto_paused_count }
            ==> (signal matches HubSignal::PriorityTaskChanged {
            priority_task_id: t,
            auto_paused_count: c,
        } && t == priority_task_id && c == auto_paused_count),
        event matches EngineEvent::SegmentSplit { task_id, split } ==> (
        signal matches HubSignal::SegmentSplitEvent { task_id: t, split: s } && t == task_id
            && s.parent_index == split.parent_index && s.parent_new_end == split.parent_new_end
            && s.child_index == split.child_index && s.child_start == split.child_start
            && s.child_end == split.child_end && s.is_proactive == split.is_proactive
            && s.total_segments == split.total_segments),
        event matches EngineEvent::FileMissingChanged(pairs) ==> (
        signal matches HubSignal::FileMissingChanged { updates } && updates@.len() == pairs@.len()
            && forall|i: int|
            0 <= i < pairs@.len() ==> #[trigger] updates@[i].task_id == pairs@[i].0
                && updates@[i].missing == pairs@[i].1),
{
}

/// What a progress report does to the server's live speeds: the task keeps
/// its reported download speed (and no upload speed) exactly while it is
/// downloading (1) or preparing (5), and no other task's entry changes.
pub proof fn law_ws_progress_updates_only_its_task<Seg, Pos>(
    speeds: Map<Seq<char>, LiveSpeed>,
    p: TaskProgress,
    k: Seq<char>,
)
    ensures
        ({
            let after = ws_after_event::<Seg, Pos>(speeds, EngineEvent::TaskProgress(p));
            &&& k == p.task_id@ ==> (after.contains_key(k) <==> (p.status == 1 || p.status == 5))
            &&& (k == p.task_id@ && after.contains_key(k)) ==> after[k] == (LiveSpeed {
                download_bps: p.speed,
                upload_bps: 0,
            })
            &&& k != p.task_id@ ==> after.contains_key(k) == speeds.contains_key(k)
            &&& (k != p.task_id@ && speeds.contains_key(k)) ==> after[k] == speeds[k]
        }),
{
}

/// What a progress report does to the hub's live speeds: the task keeps its
/// reported download speed (and no upload speed) exactly while it is
/// pending (0), downloading (1) or preparing (5), and no other task's entry
/// changes.
pub proof fn law_hub_progress_updates_only_its_task<Seg, Pos>(
    speeds: Map<Seq<char>, LiveSpeed>,
    p: TaskProgress,
    k: Seq<char>,
)
    ensures
        ({
            let after = hub_after_event::<Seg, Pos>(speeds, EngineEvent::TaskProgress(p));
            &&& k == p.task_id@ ==> (after.contains_key(k) <==> (p.status == 0 || p.status == 1
                || p.status == 5))
            &&& (k == p.task_id@ && after.contains_key(k)) ==> after[k] == (LiveSpeed {
                download_bps: p.speed,
                upload_bps: 0,
            })
            &&& k != p.task_id@ ==> after.contains_key(k) == speeds.contains_key(k)
            &&& (k != p.task_id@ && speeds.contains_key(k)) ==> after[k] == speeds[k]
        }),
{
}

/// A task list keeps on the server exactly the entries of the listed tasks,
/// with their speeds unchanged.
pub proof fn law_ws_snapshot_keeps_listed_tasks<Seg, Pos>(
    speeds: Map<Seq<char>, LiveSpeed>,
    tasks: Vec<TaskInfo>,
    k: Seq<char>,
)
    ensures
        ({
            let after = ws_after_event::<Seg, Pos>(speeds, EngineEvent::TasksSnapshot(tasks));
            &&& after.contains_key(k) <==> (speeds.contains_key(k) && exists|i: int|
                0 <= i < tasks@.len() && #[trigger] tasks@[i].task_id@ == k)
            &&& after.contains_key(k) ==> after[k] == speeds[k]
        }),
{
    let ids = tasks@.map_values(|t: TaskInfo| t.task_id@);
    if exists|i: int| 0 <= i < tasks@.len() && #[trigger] tasks@[i].task_id@ == k {
        let i = choose|i: int| 0 <= i < tasks@.len() && #[trigger] tasks@[i].task_id@ == k;
        assert(ids[i] == k);
    }
    if ids.contains(k) {
        let i = choose|i: int| 0 <= i < ids.len() && ids[i] == k;
        assert(tasks@[i].task_id@ == k);
    }
}

/// Events other than progress reports and task lists leave the live speeds
/// of both sinks as they were.
pub proof fn law_other_events_keep_speeds<Seg, Pos>(
    speeds: Map<Seq<char>, LiveSpeed>,
    event: EngineEvent<Seg, Pos>,
)
    requires
        !(event is TaskProgress),
    ensures
        hub_after_event(speeds, event) == speeds,
        !(event is TasksSnapshot) ==> ws_after_event(speeds, event) == speeds,
{
}

} // verus!
