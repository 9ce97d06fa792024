//! The rules that settle a host-side selection: which HLS quality the
//! engine gets when nobody answers in time, what a BT file selection falls
//! back to, and the table of selections that still wait for an answer.
//!
//! A host announces the choice to its clients, waits for one of them to
//! answer, and gives up after a timeout. An answer that arrives in time is
//! the user's choice; otherwise the engine gets the default: the HLS option
//! with the highest bandwidth, or, for BT, an empty list, which means that
//! every file is downloaded.
use vstd::prelude::*;

use crate::task_table::TaskTable;

verus! {

/// How long a BT file selection waits for an answer when the engine gives
/// no timeout, in seconds.
pub const BT_SELECTION_TIMEOUT_SECS: u64 = 60;

/// How long a BT file selection waits for an answer, as (seconds,
/// nanoseconds): the engine's timeout when it gives one, else
/// [`BT_SELECTION_TIMEOUT_SECS`].
pub fn bt_selection_wait(timeout: Option<(u64, u32)>) -> (wait: (u64, u32))
    ensures
        wait == match timeout {
            Some(given) => given,
            None => (BT_SELECTION_TIMEOUT_SECS, 0u32),
        },
{
    match timeout {
        Some(given) => given,
        None => (BT_SELECTION_TIMEOUT_SECS, 0),
    }
}

/// One quality an HLS stream offers.
#[derive(Debug, Clone, Copy, PartialEq, Eq)]
pub struct HlsQualityOption {
    /// The stream's own number for this quality.
    pub index: i32,
    /// Bandwidth in bits per second.
    pub bandwidth: u64,
    /// Frame width in pixels.
    pub width: u32,
    /// Frame height in pixels.
    pub height: u32,
}

/// How a selection was settled.
#[derive(Debug, Clone, PartialEq, Eq)]
pub enum SelectionOutcome<T> {
    /// A client answered in time with this choice.
    UserChose(T),
    /// Nobody answered in time; this is the default choice.
    TimedOutDefaulted(T),
}

/// Selections that wait for an answer, by task id; each holds the slot
/// through which the answer reaches the waiting task.
pub type PendingSelections<W> = TaskTable<W>;

/// Position of the default HLS option: the last of the options with the
/// highest bandwidth; 0 when there is none.
pub open spec fn default_hls_position(options: Seq<HlsQualityOption>) -> int
    decreases options.len(),
{
    if options.len() <= 1 {
        0
    } else {
        let p = default_hls_position(options.drop_last());
        if options.last().bandwidth >= options[p].bandwidth {
            options.len() - 1
        } else {
            p
        }
    }
}

/// The default HLS choice, the position of the option with the highest
/// bandwidth (the last such option when several share it); 0 when there
/// is no option. The position is a slice position, not the option's `index`.
pub fn default_hls_choice(options: &[HlsQualityOption]) -> (choice: i32)
    ensures
        choice == default_hls_position(options@) as i32,
{
    if options.len() == 0 {
        return 0;
    }
    let mut best: usize = 0;
    let mut i: usize = 1;
    while i < options.len()
        invariant
            1 <= i <= options@.len(),
            best < i,
            best == default_hls_position(options@.subrange(0, i as int)),
        decreases options@.len() - i,
    {
        proof {
            assert(options@.subrange(0, i + 1).drop_last() =~= options@.subrange(0, i as int));
        }
        if options[i].bandwidth >= options[best].bandwidth {
            best = i;
        }
        i += 1;
    }
    proof {
        assert(options@.subrange(0, options@.len() as int) =~= options@);
    }
    best as i32
}

/// How an HLS quality selection is settled: the answer, if one arrived in
/// time, else the default choice.
pub fn hls_outcome(answer: Option<i32>, options: &[HlsQualityOption]) -> (outcome:
    SelectionOutcome<i32>)
    ensures
        outcome == match answer {
            Some(chosen) => SelectionOutcome::UserChose(chosen),
            None => SelectionOutcome::TimedOutDefaulted(default_hls_position(options@) as i32),
        },
{
    match answer {
        Some(chosen) => SelectionOutcome::UserChose(chosen),
        None => SelectionOutcome::TimedOutDefaulted(default_hls_choice(options)),
    }
}

/// How a BT file selection is settled: the answer, if one arrived in time,
/// else the empty list, which downloads every file.
pub fn bt_outcome(answer: Option<Vec<i32>>) -> (outcome: SelectionOutcome<Vec<i32>>)
    ensures
        match answer {
            Some(chosen) => outcome == SelectionOutcome::UserChose(chosen),
            None => outcome matches SelectionOutcome::TimedOutDefaulted(files) && files@.len()
                == 0,
        },
{
    match answer {
        Some(chosen) => SelectionOutcome::UserChose(chosen),
        None => SelectionOutcome::TimedOutDefaulted(Vec::new()),
    }
}

/// The default HLS choice is an option of the highest bandwidth, and every
/// later option has a strictly lower bandwidth.
pub proof fn law_default_hls_choice_is_last_best(options: Seq<HlsQualityOption>)
    requires
        options.len() > 0,
    ensures
        0 <= default_hls_position(options) < options.len(),
        forall|j: int|
            0 <= j < options.len() ==> #[trigger] options[j].bandwidth <= options[default_hls_position(
                options,
            )].bandwidth,
        forall|j: int|
            default_hls_position(options) < j < options.len() ==> #[trigger] options[j].bandwidth
                < options[default_hls_position(options)].bandwidth,
    decreases options.len(),
{
    if options.len() > 1 {
        let rest = options.drop_last();
        law_default_hls_choice_is_last_best(rest);
        let p = default_hls_position(rest);
        assert forall|j: int| 0 <= j < options.len() - 1 implies #[trigger] options[j] == rest[j] by {}
        assert(options[p] == rest[p]);
    }
}

/// An answer reaches the selection that waits under its task id: after a
/// task registers its answer slot, taking the task's slot gives back that
/// slot and leaves the other pending selections as they were.
pub proof fn law_answer_reaches_registered_waiter<W>(
    pending: Map<Seq<char>, W>,
    task_id: Seq<char>,
    waiter: W,
)
    ensures
        pending.insert(task_id, waiter).contains_key(task_id),
        pending.insert(task_id, waiter)[task_id] == waiter,
        pending.insert(task_id, waiter).remove(task_id) == pending.remove(task_id),
{
    assert(pending.insert(task_id, waiter).remove(task_id) =~= pending.remove(task_id));
}

/// A selection is answered at most once: once its slot has been taken, the
/// task has no pending selection left to answer.
pub proof fn law_selection_answered_at_most_once<W>(pending: Map<Seq<char>, W>, task_id: Seq<char>)
    ensures
        !pending.remove(task_id).contains_key(task_id),
{
}

/// Without options the default HLS choice is position 0.
pub proof fn law_default_hls_choice_without_options(options: Seq<HlsQualityOption>)
    requires
        options.len() == 0,
    ensures
        default_hls_position(options) == 0,
{
}

/// A BT file selection that the engine gives no timeout waits one minute.
pub proof fn law_bt_default_wait_is_a_minute()
    ensures
        BT_SELECTION_TIMEOUT_SECS == 60,
{
}

} // verus!
