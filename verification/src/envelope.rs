//! What a partition reads from its log.

use vstd::prelude::*;
use crate::dedup::{DedupInformation, ProducerId};
use crate::identifiers::{LeaderEpoch, NodeId, PartitionKey};

verus! {

/// Declares `node_id` the leader of the partition from `leader_epoch` on.
#[derive(Clone, Copy, Debug, PartialEq, Eq, Structural)]
pub struct AnnounceLeader {
    pub node_id: NodeId,
    pub leader_epoch: LeaderEpoch,
}

/// What an envelope asks for. The processor reads leader announcements
/// itself and passes every other command, of type `C`, on to the state
/// machine without looking inside.
#[derive(Debug, PartialEq, Eq)]
pub enum Command<C> {
    AnnounceLeader(AnnounceLeader),
    Other(C),
}

/// Where an envelope is meant to go.
#[derive(Clone, Copy, Debug, PartialEq, Eq, Structural)]
pub enum Destination {
    /// The envelope is for no processor.
    Elsewhere,
    /// The processor that owns `partition_key`.
    Processor { partition_key: PartitionKey, dedup: Option<DedupInformation> },
}

#[derive(Clone, Copy, Debug, PartialEq, Eq, Structural)]
pub struct Header {
    pub dest: Destination,
}

/// One message of the log: a header and a command.
#[derive(Debug, PartialEq, Eq)]
pub struct Envelope<C> {
    pub header: Header,
    pub command: Command<C>,
}

impl<C> Envelope<C> {
    pub open spec fn spec_dedup_producer(&self) -> Option<ProducerId> {
        match self.header.dest {
            Destination::Processor { dedup: Some(info), .. } => Some(info.producer_id),
            _ => None,
        }
    }

    /// The producer whose last sequence number decides whether this
    /// envelope is a duplicate, if it names one.
    #[verifier::when_used_as_spec(spec_dedup_producer)]
    pub fn dedup_producer(&self) -> (producer: Option<ProducerId>)
        ensures
            producer == self.spec_dedup_producer(),
    {
        match self.header.dest {
            Destination::Processor { partition_key: _, dedup: Some(info) } => Some(
                info.producer_id,
            ),
            _ => None,
        }
    }
}

/// What a log holds at one position.
#[derive(Debug, PartialEq, Eq)]
pub enum Record<C> {
    /// A payload that decoded to an envelope.
    Data(Envelope<C>),
    /// A payload that is no envelope.
    Malformed,
    /// The records that were here have been trimmed.
    TrimGap,
    /// The log was sealed here.
    Seal,
}

} // verus!
