//! The partition processor: it follows one partition's log and decides, for
//! each thing that happens, what is stored, what is committed, and what is
//! handed to the actuators afterwards.
//!
//! The processor performs no I/O. The caller feeds it events and carries
//! out, in order, the directives it answers with.

use vstd::prelude::*;
use crate::dedup::{
    outdated_or_duplicate, DedupInformation, DedupReads, DedupSequenceNumber,
    EpochSequenceNumber, ProducerId,
};
use crate::envelope::{AnnounceLeader, Command, Destination, Envelope, Header, Record};
use crate::identifiers::{
    LeaderEpoch, Lsn, MillisSinceEpoch, NodeId, PartitionId, PartitionKeyRange,
};
use crate::leadership::LeadershipState;
use crate::status::{PartitionProcessorStatus, ReplayStatus, RunMode};

verus! {

/// Control messages from the manager to a single partition processor. None
/// is defined yet: the one variant is reserved for directives on leadership,
/// and a processor ignores it.
#[derive(Clone, Copy, Debug, PartialEq, Eq, Structural)]
pub enum PartitionProcessorControlCommand {
    Reserved,
}

/// Why a partition processor gave up. Each of these takes the partition out
/// of service until it is restarted.
#[derive(Clone, Copy, Debug, PartialEq, Eq, Structural)]
pub enum ProcessorError {
    /// A record's payload is no envelope.
    RecordDecoding,
    /// The store failed to read or write.
    Storage,
    /// The log reader ended, which it never should.
    LogReaderTerminated,
    /// The log holds a trim gap or a seal, which the processor cannot cross.
    UnsupportedRecord,
    /// The state machine failed to apply a command.
    StateMachine,
}

/// Where a processor is in its life.
#[derive(Clone, Copy, Debug, PartialEq, Eq, Structural)]
pub enum Phase {
    /// Built, and waiting to learn where its log stands.
    Created,
    /// Following the log.
    Running,
    /// Done, after a cancellation or an error.
    Stopped,
}

/// What can happen to a running processor.
#[derive(Debug, PartialEq, Eq)]
pub enum Event<C> {
    /// The store reported the last applied position, if any, and the log
    /// reported its tail.
    Started { applied_lsn: Option<Lsn>, tail: Lsn },
    /// The process is shutting down.
    Cancelled,
    /// The manager sent a control message.
    Control(PartitionProcessorControlCommand),
    /// It is time to publish the status.
    StatusTick { now: MillisSinceEpoch },
    /// The log reader delivered the record at `lsn`. `reads` holds what the
    /// store has committed for the producers the record asks about; what
    /// did not have to be read is left out.
    Record { lsn: Lsn, record: Record<C>, reads: DedupReads, now: MillisSinceEpoch },
    /// The log reader ended.
    ReaderTerminated,
    /// Actuators started under `issued_under` reported effects.
    ActionEffects { issued_under: LeaderEpoch },
    /// The caller could not carry out what it was told: the store or the
    /// state machine failed, and the open transaction is lost.
    Failed(ProcessorError),
}

/// One thing the caller has to do. Directives are carried out in the order
/// in which the processor lists them.
#[derive(Debug, PartialEq, Eq)]
pub enum Directive<C> {
    /// Read the log from `from` up to `to`.
    OpenReader { from: Lsn, to: Lsn },
    /// Publish this status.
    PublishStatus(PartitionProcessorStatus),
    /// Open a transaction on the store.
    BeginTransaction,
    /// Empty the buffers that collect effects and actions.
    ClearBuffers,
    /// Within the transaction, record the position being applied.
    StoreAppliedLsn(Lsn),
    /// Within the transaction, record a producer's sequence number.
    StoreDedupSequenceNumber { producer_id: ProducerId, sequence_number: DedupSequenceNumber },
    /// Within the transaction, let the state machine apply the command. It
    /// collects actions only if `is_leader` holds.
    ApplyCommand { command: C, is_leader: bool },
    /// Commit the transaction.
    Commit,
    /// Drop the actions collected so far.
    ClearActions,
    /// Start the actuators afresh under this epoch.
    BecomeLeader(EpochSequenceNumber),
    /// Stop the actuators and release what they hold.
    BecomeFollower,
    /// Hand the collected actions to the actuators as one batch, in the
    /// order in which they were collected.
    HandleActions { epoch: LeaderEpoch },
    /// Hand the reported effects to the leader.
    HandleActionEffects,
}

/// What a processor decided about one envelope.
#[derive(Clone, Copy, Debug, PartialEq, Eq, Structural)]
pub enum Verdict {
    /// Not addressed to this partition.
    Skipped,
    /// Seen before, or sent by a leader that has been replaced.
    Duplicate,
    /// Announces a leader of a later epoch than any known.
    LeadershipChange(AnnounceLeader),
    /// Announces a leader of an epoch that is not later than the known one.
    OutdatedAnnouncement,
    /// A command for the state machine.
    Dispatched,
}

/// Everything a processor knows between two events.
#[derive(Clone, Copy, Debug, PartialEq, Eq, Structural)]
pub struct ProcessorState {
    pub partition_id: PartitionId,
    pub partition_key_range: PartitionKeyRange,
    pub my_node_id: NodeId,
    pub leadership: LeadershipState,
    pub status: PartitionProcessorStatus,
    pub phase: Phase,
}

/// The epoch of a recorded self sequence number, if one is recorded.
pub open spec fn known_epoch(last: Option<DedupSequenceNumber>) -> Option<LeaderEpoch> {
    match last {
        Some(DedupSequenceNumber::Esn(esn)) => Some(esn.leader_epoch),
        _ => None,
    }
}

impl ProcessorState {
    /// The dedup information of a header addressed to this partition;
    /// `None` if the header is addressed elsewhere.
    pub open spec fn targeted(self, header: Header) -> Option<Option<DedupInformation>> {
        match header.dest {
            Destination::Processor { partition_key, dedup } => {
                if self.partition_key_range.spec_contains(partition_key) {
                    Some(dedup)
                } else {
                    None
                }
            },
            Destination::Elsewhere => None,
        }
    }

    /// Whether the envelope is addressed here and passes deduplication.
    pub open spec fn fresh<C>(self, envelope: Envelope<C>, reads: DedupReads) -> bool {
        match self.targeted(envelope.header) {
            None => false,
            Some(None) => true,
            Some(Some(info)) => !outdated_or_duplicate(info.sequence_number, reads.producer),
        }
    }

    /// The producer whose last sequence number has to be read from the
    /// store before the envelope can be applied: the one the envelope
    /// names, if it is addressed here.
    pub open spec fn producer_to_read<C>(self, envelope: Envelope<C>) -> Option<ProducerId> {
        match self.targeted(envelope.header) {
            Some(Some(info)) => Some(info.producer_id),
            _ => None,
        }
    }

    /// Whether the partition's own sequence number has to be read too,
    /// given what was read for the envelope's producer: only for a leader
    /// announcement that is addressed here and passes deduplication.
    pub open spec fn reads_own_number<C>(
        self,
        envelope: Envelope<C>,
        producer_last: Option<DedupSequenceNumber>,
    ) -> bool {
        envelope.command is AnnounceLeader && self.fresh(
            envelope,
            DedupReads { producer: producer_last, self_producer: None },
        )
    }

    /// The sequence number the transaction sees for the partition itself
    /// once the envelope's own number has been stored.
    pub open spec fn self_sequence_number<C>(
        self,
        envelope: Envelope<C>,
        reads: DedupReads,
    ) -> Option<DedupSequenceNumber> {
        match self.targeted(envelope.header) {
            Some(Some(info)) if info.producer_id == ProducerId::SelfProducer => Some(
                info.sequence_number,
            ),
            _ => reads.self_producer,
        }
    }

    pub open spec fn verdict<C>(self, envelope: Envelope<C>, reads: DedupReads) -> Verdict {
        if self.targeted(envelope.header) is None {
            Verdict::Skipped
        } else if !self.fresh(envelope, reads) {
            Verdict::Duplicate
        } else {
            match envelope.command {
                Command::AnnounceLeader(announcement) => {
                    match known_epoch(self.self_sequence_number(envelope, reads)) {
                        Some(known) if known.0 >= announcement.leader_epoch.0 => {
                            Verdict::OutdatedAnnouncement
                        },
                        _ => Verdict::LeadershipChange(announcement),
                    }
                },
                Command::Other(_) => Verdict::Dispatched,
            }
        }
    }

    /// What a processor can be asked to apply: the record comes after the
    /// last one applied, the count of skipped records has room for it, the
    /// numbers to compare are of one kind, and the partition's own number,
    /// where it is read, is qualified by an epoch.
    pub open spec fn admits<C>(self, lsn: Lsn, envelope: Envelope<C>, reads: DedupReads) -> bool {
        &&& self.status.applied().ord() < lsn.ord()
        &&& self.targeted(envelope.header) is None ==> self.status.num_skipped_records < u64::MAX
        &&& match (self.targeted(envelope.header), reads.producer) {
            (Some(Some(info)), Some(last)) => info.sequence_number.same_kind(last),
            _ => true,
        }
        &&& self.fresh(envelope, reads) && envelope.command is AnnounceLeader ==> !(
        self.self_sequence_number(envelope, reads) matches Some(DedupSequenceNumber::Sn(_)))
    }

    /// What a processor in this state can be told.
    pub open spec fn accepts<C>(self, event: Event<C>) -> bool {
        match event {
            Event::Started { applied_lsn, .. } => {
                &&& self.phase is Created
                &&& applied_lsn matches Some(lsn) ==> lsn.ord() < u64::MAX
            },
            Event::Record { lsn, record: Record::Data(envelope), reads, .. } => self.phase
                is Running && self.admits(lsn, envelope, reads),
            Event::Failed(_) => !(self.phase is Stopped),
            _ => self.phase is Running,
        }
    }

    /// The state after learning where store and log stand: caught up if
    /// the tail is the position after the last applied one, behind
    /// otherwise.
    pub open spec fn started(self, applied_lsn: Option<Lsn>, tail: Lsn) -> ProcessorState {
        let applied = match applied_lsn {
            Some(lsn) => lsn,
            None => Lsn::Invalid,
        };
        let caught_up = tail.ord() == applied.ord() + 1;
        ProcessorState {
            status: PartitionProcessorStatus {
                last_applied_log_lsn: Some(applied),
                replay_status: if caught_up {
                    ReplayStatus::Active
                } else {
                    ReplayStatus::CatchingUp
                },
                target_tail_lsn: if caught_up {
                    self.status.target_tail_lsn
                } else {
                    Some(tail)
                },
                ..self.status
            },
            phase: Phase::Running,
            ..self
        }
    }

    /// The status once the record at `lsn` has been taken up.
    pub open spec fn observed(self, lsn: Lsn, now: MillisSinceEpoch) -> PartitionProcessorStatus {
        let reached = self.status.replay_status is CatchingUp && match self.status.target_tail_lsn {
            Some(target) => lsn.ord() >= target.ord(),
            None => false,
        };
        PartitionProcessorStatus {
            last_applied_log_lsn: Some(lsn),
            last_record_applied_at: Some(now),
            replay_status: if reached {
                ReplayStatus::Active
            } else {
                self.status.replay_status
            },
            ..self.status
        }
    }

    /// The state once the record at `lsn` has been taken up inside its
    /// transaction: the status tells of it, and counts it if it was skipped.
    pub open spec fn taken_up<C>(
        self,
        lsn: Lsn,
        envelope: Envelope<C>,
        now: MillisSinceEpoch,
    ) -> ProcessorState {
        let status = self.observed(lsn, now);
        if self.targeted(envelope.header) is None {
            ProcessorState {
                status: PartitionProcessorStatus {
                    num_skipped_records: (status.num_skipped_records + 1) as u64,
                    ..status
                },
                ..self
            }
        } else {
            ProcessorState { status, ..self }
        }
    }

    /// The state after a leader was announced: this node leads exactly if
    /// it is the one announced.
    pub open spec fn led_by(self, announcement: AnnounceLeader) -> ProcessorState {
        let leads = announcement.node_id == self.my_node_id;
        ProcessorState {
            status: PartitionProcessorStatus {
                last_observed_leader_epoch: Some(announcement.leader_epoch),
                last_observed_leader_node: Some(announcement.node_id),
                effective_mode: Some(
                    if leads {
                        RunMode::Leader
                    } else {
                        RunMode::Follower
                    },
                ),
                ..self.status
            },
            leadership: if leads {
                LeadershipState::Leader { epoch: announcement.leader_epoch }
            } else {
                LeadershipState::Follower
            },
            ..self
        }
    }

    /// The state after the record at `lsn` has been applied.
    pub open spec fn applied<C>(
        self,
        lsn: Lsn,
        envelope: Envelope<C>,
        reads: DedupReads,
        now: MillisSinceEpoch,
    ) -> ProcessorState {
        let taken_up = self.taken_up(lsn, envelope, now);
        match self.verdict(envelope, reads) {
            Verdict::LeadershipChange(announcement) => taken_up.led_by(announcement),
            _ => taken_up,
        }
    }

    /// What is written inside the transaction while the record is applied.
    pub open spec fn in_transaction<C>(
        self,
        lsn: Lsn,
        envelope: Envelope<C>,
        reads: DedupReads,
    ) -> Seq<Directive<C>> {
        let applied_lsn = seq![Directive::<C>::StoreAppliedLsn(lsn)];
        let dedup = match self.targeted(envelope.header) {
            Some(Some(info)) if self.fresh(envelope, reads) => seq![
                Directive::<C>::StoreDedupSequenceNumber {
                    producer_id: info.producer_id,
                    sequence_number: info.sequence_number,
                },
            ],
            _ => Seq::<Directive<C>>::empty(),
        };
        let command = match (self.verdict(envelope, reads), envelope.command) {
            (Verdict::Dispatched, Command::Other(command)) => seq![
                Directive::<C>::ApplyCommand {
                    command,
                    is_leader: self.leadership.spec_is_leader(),
                },
            ],
            _ => Seq::<Directive<C>>::empty(),
        };
        applied_lsn + dedup + command
    }

    /// What follows once the record has been applied. A change of leader
    /// stores the new epoch and commits before the leadership changes
    /// hands. Anything else commits, and only then, and only under a
    /// leader, are the actions of an applied command handed out.
    pub open spec fn after_apply<C>(self, verdict: Verdict) -> Seq<Directive<C>> {
        match verdict {
            Verdict::LeadershipChange(announcement) => seq![
                Directive::<C>::StoreDedupSequenceNumber {
                    producer_id: ProducerId::SelfProducer,
                    sequence_number: DedupSequenceNumber::Esn(
                        EpochSequenceNumber {
                            leader_epoch: announcement.leader_epoch,
                            sequence_number: 0,
                        },
                    ),
                },
                Directive::<C>::Commit,
                Directive::<C>::ClearActions,
                if announcement.node_id == self.my_node_id {
                    Directive::<C>::BecomeLeader(
                        EpochSequenceNumber {
                            leader_epoch: announcement.leader_epoch,
                            sequence_number: 0,
                        },
                    )
                } else {
                    Directive::<C>::BecomeFollower
                },
            ],
            Verdict::Dispatched => match self.leadership {
                LeadershipState::Leader { epoch } => seq![
                    Directive::<C>::Commit,
                    Directive::<C>::HandleActions { epoch },
                ],
                LeadershipState::Follower => seq![Directive::<C>::Commit],
            },
            _ => seq![Directive::<C>::Commit],
        }
    }

    /// Everything the caller is told to do for the record at `lsn`.
    pub open spec fn script<C>(self, lsn: Lsn, envelope: Envelope<C>, reads: DedupReads) -> Seq<
        Directive<C>,
    > {
        seq![Directive::<C>::BeginTransaction, Directive::<C>::ClearBuffers] + self.in_transaction(
            lsn,
            envelope,
            reads,
        ) + self.after_apply(self.verdict(envelope, reads))
    }

    /// The state after `event`.
    pub open spec fn next<C>(self, event: Event<C>) -> ProcessorState {
        match event {
            Event::Started { applied_lsn, tail } => self.started(applied_lsn, tail),
            Event::Cancelled => ProcessorState {
                leadership: LeadershipState::Follower,
                phase: Phase::Stopped,
                ..self
            },
            Event::Record { lsn, record: Record::Data(envelope), reads, now } => self.applied(
                lsn,
                envelope,
                reads,
                now,
            ),
            Event::Record { .. } => ProcessorState { phase: Phase::Stopped, ..self },
            Event::ReaderTerminated => ProcessorState { phase: Phase::Stopped, ..self },
            Event::Failed(_) => ProcessorState { phase: Phase::Stopped, ..self },
            _ => self,
        }
    }

    /// What the processor answers to `event`: the directives to carry out,
    /// or the error it stopped on.
    pub open spec fn answer<C>(self, event: Event<C>) -> Result<Seq<Directive<C>>, ProcessorError> {
        match event {
            Event::Started { applied_lsn, tail } => Ok(
                seq![
                    Directive::<C>::OpenReader {
                        from: match self.started(applied_lsn, tail).status.applied() {
                            Lsn::Invalid => Lsn::Offset(0),
                            Lsn::Offset(o) => Lsn::Offset((o + 1) as u64),
                        },
                        to: Lsn::Offset(u64::MAX),
                    },
                ],
            ),
            Event::Cancelled => Ok(seq![Directive::<C>::BecomeFollower]),
            Event::Control(_) => Ok(Seq::<Directive<C>>::empty()),
            Event::StatusTick { now } => Ok(
                seq![
                    Directive::<C>::PublishStatus(
                        PartitionProcessorStatus { updated_at: now, ..self.status },
                    ),
                ],
            ),
            Event::Record { lsn, record: Record::Data(envelope), reads, .. } => Ok(
                self.script(lsn, envelope, reads),
            ),
            Event::Record { record: Record::Malformed, .. } => Err(ProcessorError::RecordDecoding),
            Event::Record { .. } => Err(ProcessorError::UnsupportedRecord),
            Event::ReaderTerminated => Err(ProcessorError::LogReaderTerminated),
            Event::Failed(error) => Err(error),
            Event::ActionEffects { issued_under } => Ok(
                if self.leadership.accepts_effects_of(issued_under) {
                    seq![Directive::<C>::HandleActionEffects]
                } else {
                    Seq::<Directive<C>>::empty()
                },
            ),
        }
    }
}

} // verus!
