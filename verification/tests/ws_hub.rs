use fluxdown_native::events::{EngineEvent, QueueInfo, SegmentSplit, TaskInfo, TaskProgress};
use fluxdown_native::live_speeds::{prune_to_snapshot, track_live_speed, LiveSpeedTable};
use fluxdown_native::selection::{
    bt_outcome, bt_selection_wait, default_hls_choice, hls_outcome, HlsQualityOption,
    PendingSelections, SelectionOutcome, BT_SELECTION_TIMEOUT_SECS,
};
use fluxdown_native::sink::{ws_emit, WsFrame};
use tokio::sync::oneshot;

type Event = EngineEvent<u8, u16>;
type Frame = WsFrame<u8, u16>;

fn progress(task_id: &str, status: i32, downloaded: i64, total: i64, speed: i64) -> TaskProgress {
    TaskProgress {
        task_id: task_id.to_string(),
        status,
        downloaded_bytes: downloaded,
        total_bytes: total,
        speed,
        file_name: "a.bin".to_string(),
        save_dir: "/tmp".to_string(),
        url: "http://x".to_string(),
        error_message: String::new(),
    }
}

fn task(task_id: &str) -> TaskInfo {
    TaskInfo {
        task_id: task_id.to_string(),
        url: "http://x".to_string(),
        file_name: "f".to_string(),
        save_dir: "/tmp".to_string(),
        status: 1,
        downloaded_bytes: 0,
        total_bytes: 100,
        error_message: String::new(),
        created_at: "0".to_string(),
        proxy_url: String::new(),
        queue_id: String::new(),
        checksum: String::new(),
        file_missing: false,
    }
}

#[test]
fn engine_event_sink_maps_task_progress_to_camel_case_json() {
    let mut speeds = LiveSpeedTable::new();
    let frame = ws_emit(&mut speeds, Event::TaskProgress(progress("t1", 1, 50, 200, 1024)))
        .expect("broadcast");
    assert_eq!(frame.type_tag(), "taskProgress");
    match frame {
        Frame::TaskProgress(p) => {
            assert_eq!(p.task_id, "t1");
            assert_eq!(p.downloaded_bytes, 50);
            assert_eq!(p.total_bytes, 200);
            assert_eq!(p.speed, 1024);
            assert_eq!(p.file_name, "a.bin");
        },
        _ => panic!("expected a taskProgress frame"),
    }
}

#[test]
fn engine_event_sink_maps_segment_split_to_camel_case_json() {
    let mut speeds = LiveSpeedTable::new();
    let split = SegmentSplit {
        parent_index: 0,
        parent_new_end: 400,
        child_index: 1,
        child_start: 400,
        child_end: 800,
        is_proactive: false,
        total_segments: 2,
    };
    let frame = ws_emit(&mut speeds, Event::SegmentSplit { task_id: "t1".to_string(), split })
        .expect("broadcast");
    assert_eq!(frame.type_tag(), "segmentSplit");
    match frame {
        Frame::SegmentSplit { task_id, split } => {
            assert_eq!(task_id, "t1");
            assert_eq!(split.parent_index, 0);
            assert_eq!(split.parent_new_end, 400);
            assert_eq!(split.child_index, 1);
            assert_eq!(split.child_start, 400);
            assert_eq!(split.child_end, 800);
            assert_eq!(split.is_proactive, false);
            assert_eq!(split.total_segments, 2);
        },
        _ => panic!("expected a segmentSplit frame"),
    }
}

#[test]
fn engine_event_sink_maps_queues_changed_to_camel_case_json() {
    let mut speeds = LiveSpeedTable::new();
    let frame = ws_emit(
        &mut speeds,
        Event::QueuesChanged(vec![QueueInfo {
            queue_id: "q1".to_string(),
            name: "work".to_string(),
            speed_limit_kbps: 256,
            max_concurrent: 2,
            default_save_dir: "/downloads/work".to_string(),
            position: 0,
            default_segments: 4,
            default_user_agent: String::new(),
        }]),
    )
    .expect("broadcast");
    assert_eq!(frame.type_tag(), "queuesChanged");
    match frame {
        Frame::QueuesChanged { queues } => {
            assert_eq!(queues[0].queue_id, "q1");
            assert_eq!(queues[0].speed_limit_kbps, 256);
            assert_eq!(queues[0].max_concurrent, 2);
        },
        _ => panic!("expected a queuesChanged frame"),
    }
}

#[test]
fn ws_host_selection_bt_files_answered_before_timeout_returns_user_chose() {
    let mut pending: PendingSelections<oneshot::Sender<Vec<i32>>> = PendingSelections::new();
    let (tx, mut rx) = oneshot::channel();
    pending.insert("task-a".to_string(), tx);
    // A client answers: the answer goes through the slot registered for the task.
    let slot = pending.remove("task-a").expect("pending selection");
    slot.send(vec![1, 2]).expect("waiting selection");
    let answer = rx.try_recv().ok();
    let outcome = bt_outcome(answer);
    assert_eq!(outcome, SelectionOutcome::UserChose(vec![1, 2]));
    assert!(pending.is_empty());
}

#[test]
fn ws_host_selection_bt_files_times_out_with_no_answer_defaults_to_empty_vec() {
    let mut pending: PendingSelections<oneshot::Sender<Vec<i32>>> = PendingSelections::new();
    let (tx, mut rx) = oneshot::channel::<Vec<i32>>();
    pending.insert("task-b".to_string(), tx);
    // Nobody answers; the selection gives up and drops its slot.
    let answer = rx.try_recv().ok();
    pending.remove("task-b");
    let outcome = bt_outcome(answer);
    assert_eq!(outcome, SelectionOutcome::TimedOutDefaulted(Vec::new()));
}

#[test]
fn ws_host_selection_hls_quality_times_out_defaults_to_highest_bandwidth_slot() {
    // The best-bandwidth option sits at slice position 1 with an unrelated
    // `index` (9): the default is the slice position.
    let options = [
        HlsQualityOption {
            index: 7,
            bandwidth: 500_000,
            width: 640,
            height: 360,
        },
        HlsQualityOption {
            index: 9,
            bandwidth: 5_000_000,
            width: 1920,
            height: 1080,
        },
        HlsQualityOption {
            index: 3,
            bandwidth: 2_000_000,
            width: 1280,
            height: 720,
        },
    ];
    let outcome = hls_outcome(None, &options);
    assert_eq!(outcome, SelectionOutcome::TimedOutDefaulted(1));
}

#[test]
fn engine_event_sink_tracks_live_speed_while_active_and_clears_on_terminal_status() {
    let mut speeds = LiveSpeedTable::new();
    assert!(ws_emit(&mut speeds, Event::TaskProgress(progress("t1", 1, 50, 200, 4096))).is_some());
    assert_eq!(speeds.get("t1").map(|s| s.download_bps), Some(4096));
    assert!(ws_emit(&mut speeds, Event::TaskProgress(progress("t1", 3, 200, 200, 0))).is_some());
    assert!(
        !speeds.contains_key("t1"),
        "terminal status must clear the live-speed entry"
    );
}

#[test]
fn engine_event_sink_prunes_live_speed_for_tasks_missing_from_snapshot() {
    let mut speeds = LiveSpeedTable::new();
    for id in ["keep-me", "drop-me"] {
        ws_emit(&mut speeds, Event::TaskProgress(progress(id, 1, 0, 100, 1000)));
    }
    assert_eq!(speeds.len(), 2);
    let frame = ws_emit(&mut speeds, Event::TasksSnapshot(vec![task("keep-me")]));
    match frame {
        Some(Frame::TasksSnapshot { tasks }) => assert_eq!(tasks, vec![task("keep-me")]),
        _ => panic!("expected a tasksSnapshot frame"),
    }
    assert!(speeds.contains_key("keep-me"));
    assert!(!speeds.contains_key("drop-me"));
}

#[test]
fn ws_pending_status_drops_speed() {
    // Unlike the desktop hub, the server keeps no speed for a pending task.
    let mut speeds = LiveSpeedTable::new();
    track_live_speed(&mut speeds, "t1", 1, 100);
    track_live_speed(&mut speeds, "t1", 0, 100);
    assert!(!speeds.contains_key("t1"));
    track_live_speed(&mut speeds, "t2", 5, 64);
    assert_eq!(speeds.get("t2").map(|s| (s.download_bps, s.upload_bps)), Some((64, 0)));
}

#[test]
fn snapshot_keeps_speeds_of_listed_tasks_and_adds_none() {
    let mut speeds = LiveSpeedTable::new();
    track_live_speed(&mut speeds, "a", 1, 10);
    track_live_speed(&mut speeds, "b", 1, 20);
    track_live_speed(&mut speeds, "c", 5, 30);
    prune_to_snapshot(
        &mut speeds,
        &["c".to_string(), "a".to_string(), "new".to_string(), "a".to_string()],
    );
    assert_eq!(speeds.len(), 2);
    assert_eq!(speeds.get("a").map(|s| s.download_bps), Some(10));
    assert_eq!(speeds.get("c").map(|s| s.download_bps), Some(30));
    assert!(!speeds.contains_key("b"));
    assert!(!speeds.contains_key("new"));
}

#[test]
fn empty_snapshot_clears_all_speeds() {
    let mut speeds = LiveSpeedTable::new();
    track_live_speed(&mut speeds, "a", 1, 10);
    let frame = ws_emit(&mut speeds, Event::TasksSnapshot(Vec::new()));
    assert_eq!(frame.map(|f| f.type_tag()), Some("tasksSnapshot"));
    assert!(speeds.is_empty());
}

#[test]
fn file_missing_updates_are_not_broadcast() {
    let mut speeds = LiveSpeedTable::new();
    track_live_speed(&mut speeds, "a", 1, 10);
    assert!(ws_emit(&mut speeds, Event::FileMissingChanged(vec![("a".to_string(), true)])).is_none());
    assert_eq!(speeds.len(), 1);
}

#[test]
fn other_events_are_broadcast_unchanged_and_leave_speeds() {
    let mut speeds = LiveSpeedTable::new();
    track_live_speed(&mut speeds, "a", 1, 10);
    match ws_emit(&mut speeds, Event::SegmentProgress {
        task_id: "a".to_string(),
        total_bytes: 100,
        segment_count: 2,
        segments: vec![4, 5],
    }) {
        Some(f @ Frame::SegmentProgress { .. }) => {
            assert_eq!(f.type_tag(), "segmentProgress");
            if let Frame::SegmentProgress { task_id, total_bytes, segment_count, segments } = f {
                assert_eq!((task_id.as_str(), total_bytes, segment_count), ("a", 100, 2));
                assert_eq!(segments, vec![4, 5]);
            }
        },
        _ => panic!("expected a segmentProgress frame"),
    }
    match ws_emit(&mut speeds, Event::TaskMetaProbed {
        task_id: "a".to_string(),
        file_name: "x.iso".to_string(),
        total_bytes: 9,
    }) {
        Some(f @ Frame::TaskMetaProbed { .. }) => assert_eq!(f.type_tag(), "taskMetaProbed"),
        _ => panic!("expected a taskMetaProbed frame"),
    }
    match ws_emit(&mut speeds, Event::QueuePositionsChanged(vec![3, 1])) {
        Some(Frame::QueuePositionsChanged { positions }) => assert_eq!(positions, vec![3, 1]),
        _ => panic!("expected a queuePositionsChanged frame"),
    }
    match ws_emit(&mut speeds, Event::PriorityTaskChanged {
        priority_task_id: "a".to_string(),
        auto_paused_count: 3,
    }) {
        Some(f @ Frame::PriorityTaskChanged { .. }) => {
            assert_eq!(f.type_tag(), "priorityTaskChanged");
            if let Frame::PriorityTaskChanged { priority_task_id, auto_paused_count } = f {
                assert_eq!((priority_task_id.as_str(), auto_paused_count), ("a", 3));
            }
        },
        _ => panic!("expected a priorityTaskChanged frame"),
    }
    assert_eq!(speeds.get("a").map(|s| s.download_bps), Some(10));
}

#[test]
fn hls_answer_in_time_is_the_users_choice() {
    let options = [HlsQualityOption {
        index: 0,
        bandwidth: 1,
        width: 1,
        height: 1,
    }];
    assert_eq!(hls_outcome(Some(4), &options), SelectionOutcome::UserChose(4));
}

#[test]
fn hls_default_prefers_the_last_of_equal_bandwidths() {
    let option = |bandwidth| HlsQualityOption {
        index: 0,
        bandwidth,
        width: 0,
        height: 0,
    };
    assert_eq!(default_hls_choice(&[option(5), option(9), option(9), option(3)]), 2);
    assert_eq!(default_hls_choice(&[option(9)]), 0);
    assert_eq!(default_hls_choice(&[option(1), option(2), option(3)]), 2);
}

#[test]
fn hls_default_without_options_is_zero() {
    assert_eq!(default_hls_choice(&[]), 0);
    assert_eq!(hls_outcome(None, &[]), SelectionOutcome::TimedOutDefaulted(0));
}

#[test]
fn bt_selection_waits_a_minute_unless_told_otherwise() {
    assert_eq!(BT_SELECTION_TIMEOUT_SECS, 60);
    assert_eq!(bt_selection_wait(None), (60, 0));
    assert_eq!(bt_selection_wait(Some((0, 500_000_000))), (0, 500_000_000));
}

#[test]
fn selection_is_answered_at_most_once() {
    let mut pending: PendingSelections<u32> = PendingSelections::new();
    pending.insert("task".to_string(), 1);
    pending.insert("other".to_string(), 2);
    assert_eq!(pending.remove("task"), Some(1));
    assert_eq!(pending.remove("task"), None);
    assert_eq!(pending.get("other"), Some(&2));
}
