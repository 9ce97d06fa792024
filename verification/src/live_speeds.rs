//! The live-speed table (task id → current speed) that feeds the aria2
//! compatibility layer's `downloadSpeed`, and the rules by which a task's
//! progress report updates it.
//!
//! A progress report in an active status records the reported speed; one in
//! any other status drops the task's entry, since the engine sends no further
//! progress for such a task and a stale speed would otherwise linger. The
//! desktop hub counts pending (0), downloading (1) and preparing (5) as
//! active; the WebSocket server keeps speeds only while downloading (1) or
//! preparing (5). Deleting a task ends with an error-status (4) report, so a
//! deleted task leaves no entry behind either.
use vstd::prelude::*;

use crate::service::LiveSpeed;
use crate::task_table::{id_set, TaskTable};

verus! {

/// Live speed per task id.
pub type LiveSpeedTable = TaskTable<LiveSpeed>;

/// Statuses in which the desktop hub keeps a task's speed: pending (0),
/// downloading (1), preparing (5).
pub open spec fn hub_status_is_active(status: i32) -> bool {
    status == 0 || status == 1 || status == 5
}

/// Statuses in which the WebSocket server keeps a task's speed: downloading
/// (1), preparing (5).
pub open spec fn ws_status_is_active(status: i32) -> bool {
    status == 1 || status == 5
}

/// The entry recorded for a reported speed. The engine reports only the
/// download speed, so the upload speed is recorded as 0.
pub open spec fn recorded_speed(speed: i64) -> LiveSpeed {
    LiveSpeed { download_bps: speed, upload_bps: 0 }
}

/// The table after a progress report for `task_id`: the reported speed
/// while the task is active, no entry otherwise.
pub open spec fn after_progress(
    speeds: Map<Seq<char>, LiveSpeed>,
    task_id: Seq<char>,
    active: bool,
    speed: i64,
) -> Map<Seq<char>, LiveSpeed> {
    if active {
        speeds.insert(task_id, recorded_speed(speed))
    } else {
        speeds.remove(task_id)
    }
}

/// The table after an authoritative task list naming the tasks `listed`:
/// only the listed tasks keep their entries.
pub open spec fn after_snapshot(
    speeds: Map<Seq<char>, LiveSpeed>,
    listed: Set<Seq<char>>,
) -> Map<Seq<char>, LiveSpeed> {
    speeds.restrict(listed)
}

/// Desktop hub rule: records `speed` for `task_id` when `status` is pending,
/// downloading or preparing, and drops the task's entry for any other status
/// (paused, completed, error, and the error report sent on deletion).
pub fn apply_task_progress_speed(map: &mut LiveSpeedTable, task_id: &str, status: i32, speed: i64)
    ensures
        final(map)@ == after_progress(old(map)@, task_id@, hub_status_is_active(status), speed),
{
    match status {
        0 | 1 | 5 => {
            map.insert(task_id.to_owned(), LiveSpeed { download_bps: speed, upload_bps: 0 });
        },
        _ => {
            map.remove(task_id);
        },
    }
}

/// WebSocket server rule: records `speed` for `task_id` while `status` is
/// downloading or preparing, and drops the task's entry for any other status.
pub fn track_live_speed(speeds: &mut LiveSpeedTable, task_id: &str, status: i32, speed: i64)
    ensures
        final(speeds)@ == after_progress(old(speeds)@, task_id@, ws_status_is_active(status), speed),
{
    if status == 1 || status == 5 {
        speeds.insert(task_id.to_owned(), LiveSpeed { download_bps: speed, upload_bps: 0 });
    } else {
        speeds.remove(task_id);
    }
}

/// Drops the entries of every task that the authoritative task list
/// `task_ids` no longer names; the others keep their speeds.
pub fn prune_to_snapshot(speeds: &mut LiveSpeedTable, task_ids: &[String])
    ensures
        final(speeds)@ == after_snapshot(old(speeds)@, id_set(task_ids@)),
{
    speeds.retain_ids(task_ids);
}

/// A progress report touches only the reporting task's entry.
pub proof fn law_progress_leaves_other_tasks(
    speeds: Map<Seq<char>, LiveSpeed>,
    task_id: Seq<char>,
    active: bool,
    speed: i64,
    other: Seq<char>,
)
    requires
        other != task_id,
    ensures
        after_progress(speeds, task_id, active, speed).contains_key(other) == speeds.contains_key(
            other,
        ),
        speeds.contains_key(other) ==> after_progress(speeds, task_id, active, speed)[other]
            == speeds[other],
{
}

/// Only the latest progress report of a task matters: a second report
/// overrides whatever the first one recorded or dropped.
pub proof fn law_latest_progress_wins(
    speeds: Map<Seq<char>, LiveSpeed>,
    task_id: Seq<char>,
    first_active: bool,
    first_speed: i64,
    active: bool,
    speed: i64,
)
    ensures
        after_progress(after_progress(speeds, task_id, first_active, first_speed), task_id, active, speed)
            == after_progress(speeds, task_id, active, speed),
{
    assert(after_progress(after_progress(speeds, task_id, first_active, first_speed), task_id, active, speed)
        =~= after_progress(speeds, task_id, active, speed));
}

/// A report in a status that is not active, for a task without an entry,
/// leaves the table as it was.
pub proof fn law_inactive_report_for_absent_task_is_noop(
    speeds: Map<Seq<char>, LiveSpeed>,
    task_id: Seq<char>,
    speed: i64,
)
    requires
        !speeds.contains_key(task_id),
    ensures
        after_progress(speeds, task_id, false, speed) == speeds,
{
    assert(after_progress(speeds, task_id, false, speed) =~= speeds);
}

/// Deleting a task needs no clean-up of its own: the error report (status 4)
/// that deletion sends drops the task's entry under both rules.
pub proof fn law_deletion_report_clears_speed(
    speeds: Map<Seq<char>, LiveSpeed>,
    task_id: Seq<char>,
    speed: i64,
)
    ensures
        !after_progress(speeds, task_id, hub_status_is_active(4), speed).contains_key(task_id),
        !after_progress(speeds, task_id, ws_status_is_active(4), speed).contains_key(task_id),
{
}

/// Every entry that progress reports put in the table has an upload speed of 0.
pub proof fn law_recorded_upload_speed_is_zero(
    speeds: Map<Seq<char>, LiveSpeed>,
    task_id: Seq<char>,
    active: bool,
    speed: i64,
)
    requires
        forall|k: Seq<char>| #[trigger] speeds.contains_key(k) ==> speeds[k].upload_bps == 0,
    ensures
        forall|k: Seq<char>| #[trigger] after_progress(speeds, task_id, active, speed).contains_key(k)
            ==> after_progress(speeds, task_id, active, speed)[k].upload_bps == 0,
{
}

/// An authoritative task list never adds entries: afterwards the table holds
/// exactly the listed tasks that it held before, with the same speeds.
pub proof fn law_snapshot_keeps_only_listed_tasks(
    speeds: Map<Seq<char>, LiveSpeed>,
    listed: Set<Seq<char>>,
    k: Seq<char>,
)
    ensures
        after_snapshot(speeds, listed).contains_key(k) == (speeds.contains_key(k) && listed.contains(k)),
        after_snapshot(speeds, listed).contains_key(k) ==> after_snapshot(speeds, listed)[k]
            == speeds[k],
{
}

/// An authoritative task list bounds the table: afterwards it holds no more
/// entries than the list names tasks, however many it held before.
pub proof fn law_snapshot_bounds_table_size(speeds: Map<Seq<char>, LiveSpeed>, ids: Seq<Seq<char>>)
    requires
        speeds.dom().finite(),
    ensures
        after_snapshot(speeds, ids.to_set()).dom().finite(),
        after_snapshot(speeds, ids.to_set()).len() <= ids.len(),
{
    let kept = after_snapshot(speeds, ids.to_set()).dom();
    assert(kept.subset_of(ids.to_set()));
    ids.lemma_cardinality_of_set();
    vstd::set_lib::lemma_len_subset(kept, ids.to_set());
}

/// The statuses in which each host keeps a task's speed: the desktop hub
/// keeps it while pending (0), downloading (1) or preparing (5); the
/// WebSocket server only while downloading (1) or preparing (5).
pub proof fn law_active_statuses(status: i32)
    ensures
        hub_status_is_active(status) <==> (status == 0 || status == 1 || status == 5),
        ws_status_is_active(status) <==> (status == 1 || status == 5),
{
}

/// Pruning by a list of task ids keeps exactly the entries of the tasks the
/// list names, with their speeds unchanged.
pub proof fn law_prune_keeps_named_tasks(
    speeds: Map<Seq<char>, LiveSpeed>,
    task_ids: Seq<String>,
    k: Seq<char>,
)
    ensures
        after_snapshot(speeds, id_set(task_ids)).contains_key(k) <==> (speeds.contains_key(k)
            && exists|i: int| 0 <= i < task_ids.len() && #[trigger] task_ids[i]@ == k),
        after_snapshot(speeds, id_set(task_ids)).contains_key(k) ==> after_snapshot(
            speeds,
            id_set(task_ids),
        )[k] == speeds[k],
{
    let ids = crate::task_table::id_views(task_ids);
    if exists|i: int| 0 <= i < task_ids.len() && #[trigger] task_ids[i]@ == k {
        let i = choose|i: int| 0 <= i < task_ids.len() && #[trigger] task_ids[i]@ == k;
        assert(ids[i] == k);
    }
    if ids.contains(k) {
        let i = choose|i: int| 0 <= i < ids.len() && ids[i] == k;
        assert(task_ids[i]@ == k);
    }
}

} // verus!
