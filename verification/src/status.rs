//! What a partition processor reports about itself.

use vstd::prelude::*;
use crate::identifiers::{LeaderEpoch, Lsn, MillisSinceEpoch, NodeId};

verus! {

/// How far the processor is in replaying its log.
#[derive(Clone, Copy, Debug, PartialEq, Eq, Structural)]
pub enum ReplayStatus {
    /// The processor has not looked at its log yet.
    Starting,
    /// The processor has caught up with the tail it found.
    Active,
    /// The processor is behind the tail it found.
    CatchingUp,
}

#[derive(Clone, Copy, Debug, PartialEq, Eq, Structural)]
pub enum RunMode {
    Leader,
    Follower,
}

#[derive(Clone, Copy, Debug, PartialEq, Eq, Structural)]
pub struct PartitionProcessorStatus {
    pub updated_at: MillisSinceEpoch,
    pub effective_mode: Option<RunMode>,
    pub last_observed_leader_epoch: Option<LeaderEpoch>,
    pub last_observed_leader_node: Option<NodeId>,
    pub last_applied_log_lsn: Option<Lsn>,
    pub last_record_applied_at: Option<MillisSinceEpoch>,
    pub num_skipped_records: u64,
    pub replay_status: ReplayStatus,
    pub target_tail_lsn: Option<Lsn>,
}

impl PartitionProcessorStatus {
    /// The status of a processor that has done nothing yet.
    pub open spec fn initial(updated_at: MillisSinceEpoch) -> PartitionProcessorStatus {
        PartitionProcessorStatus {
            updated_at,
            effective_mode: None,
            last_observed_leader_epoch: None,
            last_observed_leader_node: None,
            last_applied_log_lsn: None,
            last_record_applied_at: None,
            num_skipped_records: 0,
            replay_status: ReplayStatus::Starting,
            target_tail_lsn: None,
        }
    }

    pub fn new(updated_at: MillisSinceEpoch) -> (status: PartitionProcessorStatus)
        ensures
            status == PartitionProcessorStatus::initial(updated_at),
    {
        PartitionProcessorStatus {
            updated_at,
            effective_mode: None,
            last_observed_leader_epoch: None,
            last_observed_leader_node: None,
            last_applied_log_lsn: None,
            last_record_applied_at: None,
            num_skipped_records: 0,
            replay_status: ReplayStatus::Starting,
            target_tail_lsn: None,
        }
    }

    /// The position last applied, `Invalid` before anything was.
    pub open spec fn applied(self) -> Lsn {
        match self.last_applied_log_lsn {
            Some(lsn) => lsn,
            None => Lsn::Invalid,
        }
    }
}

/// Calls `rand::random::<u64>()`, which draws a number from the thread's
/// generator. Nothing is claimed of the number.
#[verifier::external_body]
fn random_u64() -> u64 {
    rand::random::<u64>()
}

/// The pause between two status publications for a drawn number: partitions
/// that share a process get different pauses, so that they do not publish
/// in step.
pub open spec fn update_interval_millis(drawn: u64) -> int {
    500 + drawn % 524
}

/// The pause, in milliseconds, that belongs to the drawn number.
pub fn status_update_interval_from(drawn: u64) -> (millis: u64)
    ensures
        millis == update_interval_millis(drawn),
        500 <= millis < 1024,
{
    500 + drawn % 524
}

/// Draws the pause, in milliseconds, between two status publications.
pub fn status_update_interval() -> (millis: u64)
    ensures
        500 <= millis < 1024,
        exists|drawn: u64| millis == update_interval_millis(drawn),
{
    let drawn: u64 = random_u64();
    status_update_interval_from(drawn)
}

} // verus!
