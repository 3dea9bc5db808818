//! State reports from a node to the root service.
//!
//! Replicas broadcast their state, their group's descriptor and their
//! schedule progress through a channel; a worker drains the channel,
//! batches updates up to a size limit, and reports them, backing off and
//! retrying until the root accepts. The channel and the report call live
//! outside; the update records, the batching threshold and the backoff
//! are decided here.

use vstd::prelude::*;
use crate::data::{GroupDesc, ReplicaState, ScheduleState};

verus! {

/// A batch of updates stops growing once its encoded size reaches this
/// many bytes.
pub const REPORT_BATCH_SIZE_LIMIT: u64 = 32768;

/// The backoff cap of the report retry loop, in milliseconds.
pub const REPORT_MAX_INTERVAL_MS: u64 = 120;

/// One update reported for a group: at most one of the three facets is
/// set per record.
#[derive(Debug)]
pub struct GroupUpdate {
    pub group_id: u64,
    pub replica_state: Option<ReplicaState>,
    pub group_desc: Option<GroupDesc>,
    pub schedule_state: Option<ScheduleState>,
}

impl GroupUpdate {
    /// An update carrying one replica's state.
    pub fn for_replica_state(group_id: u64, replica_state: ReplicaState) -> (r: GroupUpdate)
        ensures
            r.group_id == group_id,
            r.replica_state == Some(replica_state),
            r.group_desc is None,
            r.schedule_state is None,
    {
        GroupUpdate { group_id, replica_state: Some(replica_state), group_desc: None, schedule_state: None }
    }

    /// An update carrying a group's descriptor.
    pub fn for_group_descriptor(group_id: u64, group_desc: GroupDesc) -> (r: GroupUpdate)
        ensures
            r.group_id == group_id,
            r.replica_state is None,
            r.group_desc == Some(group_desc),
            r.schedule_state is None,
    {
        GroupUpdate { group_id, replica_state: None, group_desc: Some(group_desc), schedule_state: None }
    }

    /// An update carrying a group's schedule progress.
    pub fn for_schedule_state(group_id: u64, schedule_state: ScheduleState) -> (r: GroupUpdate)
        ensures
            r.group_id == group_id,
            r.replica_state is None,
            r.group_desc is None,
            r.schedule_state == Some(schedule_state),
    {
        GroupUpdate { group_id, replica_state: None, group_desc: None, schedule_state: Some(schedule_state) }
    }
}

/// A batch whose encoded updates amount to `size` bytes still takes
/// more.
pub fn batch_has_room(size: u64) -> (r: bool)
    ensures
        r == (size < REPORT_BATCH_SIZE_LIMIT),
{
    size < REPORT_BATCH_SIZE_LIMIT
}

/// The sleep before the next report retry: doubled each time, capped.
pub fn next_report_interval(interval_ms: u64) -> (r: u64)
    requires
        interval_ms <= REPORT_MAX_INTERVAL_MS,
    ensures
        2 * interval_ms < REPORT_MAX_INTERVAL_MS ==> r == 2 * interval_ms,
        2 * interval_ms >= REPORT_MAX_INTERVAL_MS ==> r == REPORT_MAX_INTERVAL_MS,
{
    if interval_ms * 2 < REPORT_MAX_INTERVAL_MS {
        interval_ms * 2
    } else {
        REPORT_MAX_INTERVAL_MS
    }
}

} // verus!
