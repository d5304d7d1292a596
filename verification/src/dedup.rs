//! Sequence numbers by which a partition recognises messages it has already
//! seen, and messages of leaders that have been replaced.

use vstd::prelude::*;
use crate::identifiers::{LeaderEpoch, PartitionId};

verus! {

/// A sequence number qualified by the epoch of the leader that issued it.
/// Ordered by epoch first, then by counter.
#[derive(Clone, Copy, Debug, PartialEq, Eq, Hash, Structural)]
pub struct EpochSequenceNumber {
    pub leader_epoch: LeaderEpoch,
    pub sequence_number: u64,
}

impl EpochSequenceNumber {
    /// Lexicographic order on (epoch, counter).
    pub open spec fn at_most(self, other: EpochSequenceNumber) -> bool {
        self.leader_epoch.0 < other.leader_epoch.0 || (self.leader_epoch.0 == other.leader_epoch.0
            && self.sequence_number <= other.sequence_number)
    }

    /// The first sequence number of `leader_epoch`.
    pub fn new(leader_epoch: LeaderEpoch) -> (esn: EpochSequenceNumber)
        ensures
            esn == (EpochSequenceNumber { leader_epoch, sequence_number: 0 }),
    {
        EpochSequenceNumber { leader_epoch, sequence_number: 0 }
    }

    /// Whether `self` is `other` or comes before it.
    pub fn is_at_most(&self, other: &EpochSequenceNumber) -> (le: bool)
        ensures
            le == self.at_most(*other),
    {
        self.leader_epoch.0 < other.leader_epoch.0 || (self.leader_epoch.0 == other.leader_epoch.0
            && self.sequence_number <= other.sequence_number)
    }
}

/// The sequence number a producer attaches to a message: a plain counter, or
/// one qualified by a leader epoch. One producer uses one kind only.
#[derive(Clone, Copy, Debug, PartialEq, Eq, Hash, Structural)]
pub enum DedupSequenceNumber {
    Sn(u64),
    Esn(EpochSequenceNumber),
}

impl DedupSequenceNumber {
    /// Whether both numbers are of the same kind.
    pub open spec fn same_kind(self, other: DedupSequenceNumber) -> bool {
        (self is Sn) == (other is Sn)
    }

    /// The order within one kind. Numbers of different kinds are not
    /// ordered.
    pub open spec fn at_most(self, other: DedupSequenceNumber) -> bool {
        match (self, other) {
            (DedupSequenceNumber::Sn(a), DedupSequenceNumber::Sn(b)) => a <= b,
            (DedupSequenceNumber::Esn(a), DedupSequenceNumber::Esn(b)) => a.at_most(b),
            _ => false,
        }
    }

    /// Whether both numbers are of the same kind.
    pub fn is_same_kind(&self, other: &DedupSequenceNumber) -> (same: bool)
        ensures
            same == self.same_kind(*other),
    {
        match (self, other) {
            (DedupSequenceNumber::Sn(_), DedupSequenceNumber::Sn(_)) => true,
            (DedupSequenceNumber::Esn(_), DedupSequenceNumber::Esn(_)) => true,
            _ => false,
        }
    }
}

/// Who sent a message that asks for deduplication.
#[derive(Clone, Copy, Debug, PartialEq, Eq, Hash, Structural)]
pub enum ProducerId {
    /// The partition itself, through whichever node leads it.
    SelfProducer,
    /// Another partition.
    Partition(PartitionId),
    /// A producer outside the cluster.
    External(u64),
}

impl ProducerId {
    /// The producer under which a partition records its own leader epoch.
    pub fn self_producer() -> (producer: ProducerId)
        ensures
            producer == ProducerId::SelfProducer,
    {
        ProducerId::SelfProducer
    }
}

/// What a producer attaches to a message so that it takes effect once.
#[derive(Clone, Copy, Debug, PartialEq, Eq, Hash, Structural)]
pub struct DedupInformation {
    pub producer_id: ProducerId,
    pub sequence_number: DedupSequenceNumber,
}

/// The sequence numbers last committed for the two producers that applying
/// one record can ask about: the record's own producer, and the partition
/// itself. Which of the two have to be read depends on the record.
#[derive(Clone, Copy, Debug, PartialEq, Eq, Hash, Structural)]
pub struct DedupReads {
    /// Last committed for the record's producer; `None` if it was not
    /// read or nothing was committed for it.
    pub producer: Option<DedupSequenceNumber>,
    /// Last committed for `ProducerId::SelfProducer`; `None` if it was not
    /// read or nothing was committed for it.
    pub self_producer: Option<DedupSequenceNumber>,
}

/// A message is outdated or a duplicate when a sequence number was recorded
/// for its producer and the message's number does not exceed it.
pub open spec fn outdated_or_duplicate(
    sequence_number: DedupSequenceNumber,
    last: Option<DedupSequenceNumber>,
) -> bool {
    match last {
        Some(last) => sequence_number.at_most(last),
        None => false,
    }
}

} // verus!
