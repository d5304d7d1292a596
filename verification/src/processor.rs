//! The partition processor as it runs: built by its builder, then driven
//! one event at a time.

use vstd::prelude::*;
use crate::dedup::{
    outdated_or_duplicate, DedupInformation, DedupReads, DedupSequenceNumber,
    EpochSequenceNumber, ProducerId,
};
use crate::envelope::{Command, Destination, Envelope, Header, Record};
use crate::identifiers::{Lsn, MillisSinceEpoch, NodeId, PartitionId, PartitionKeyRange};
use crate::leadership::LeadershipState;
use crate::partition::{Directive, Event, Phase, ProcessorError, ProcessorState, Verdict};
use crate::status::{PartitionProcessorStatus, ReplayStatus, RunMode};

verus! {

/// Collects what a partition processor is made from.
#[derive(Debug)]
pub struct PartitionProcessorBuilder {
    pub partition_id: PartitionId,
    pub partition_key_range: PartitionKeyRange,
    pub num_timers_in_memory_limit: Option<usize>,
    pub channel_size: usize,
    pub status: PartitionProcessorStatus,
}

impl PartitionProcessorBuilder {
    pub fn new(
        partition_id: PartitionId,
        partition_key_range: PartitionKeyRange,
        status: PartitionProcessorStatus,
        num_timers_in_memory_limit: Option<usize>,
        channel_size: usize,
    ) -> (builder: PartitionProcessorBuilder)
        ensures
            builder == (PartitionProcessorBuilder {
                partition_id,
                partition_key_range,
                num_timers_in_memory_limit,
                channel_size,
                status,
            }),
    {
        PartitionProcessorBuilder {
            partition_id,
            partition_key_range,
            num_timers_in_memory_limit,
            channel_size,
            status,
        }
    }

    /// Builds the processor of the node `my_node_id`. It starts out as a
    /// follower that has not looked at its log yet.
    pub fn build(self, my_node_id: NodeId) -> (processor: PartitionProcessor)
        ensures
            processor@ == (ProcessorState {
                partition_id: self.partition_id,
                partition_key_range: self.partition_key_range,
                my_node_id,
                leadership: LeadershipState::Follower,
                status: self.status,
                phase: Phase::Created,
            }),
            processor.num_timers_in_memory_limit() == self.num_timers_in_memory_limit,
            processor.channel_size() == self.channel_size,
    {
        PartitionProcessor {
            state: ProcessorState {
                partition_id: self.partition_id,
                partition_key_range: self.partition_key_range,
                my_node_id,
                leadership: LeadershipState::follower(),
                status: self.status,
                phase: Phase::Created,
            },
            num_timers_in_memory_limit: self.num_timers_in_memory_limit,
            channel_size: self.channel_size,
        }
    }
}

/// Follows one partition's log.
#[derive(Debug)]
pub struct PartitionProcessor {
    state: ProcessorState,
    num_timers_in_memory_limit: Option<usize>,
    channel_size: usize,
}

impl View for PartitionProcessor {
    type V = ProcessorState;

    closed spec fn view(&self) -> ProcessorState {
        self.state
    }
}

impl PartitionProcessor {
    pub closed spec fn spec_num_timers_in_memory_limit(&self) -> Option<usize> {
        self.num_timers_in_memory_limit
    }

    pub closed spec fn spec_channel_size(&self) -> usize {
        self.channel_size
    }

    /// How many timers a leader's timer service may keep in memory.
    #[verifier::when_used_as_spec(spec_num_timers_in_memory_limit)]
    pub fn num_timers_in_memory_limit(&self) -> (limit: Option<usize>)
        ensures
            limit == self.spec_num_timers_in_memory_limit(),
    {
        self.num_timers_in_memory_limit
    }

    /// The size of the channels between a leader and its actuators.
    #[verifier::when_used_as_spec(spec_channel_size)]
    pub fn channel_size(&self) -> (size: usize)
        ensures
            size == self.spec_channel_size(),
    {
        self.channel_size
    }

    /// Everything the processor knows right now.
    pub fn state(&self) -> (state: ProcessorState)
        ensures
            state == self@,
    {
        self.state
    }

    /// The dedup information of a header addressed to this partition;
    /// `None` if the header is addressed elsewhere.
    pub fn is_targeted_to_me(&self, header: &Header) -> (dedup: Option<Option<DedupInformation>>)
        ensures
            dedup == self@.targeted(*header),
    {
        match header.dest {
            Destination::Processor { partition_key, dedup } => {
                if self.state.partition_key_range.contains(partition_key) {
                    Some(dedup)
                } else {
                    None
                }
            },
            Destination::Elsewhere => None,
        }
    }

    /// The producer whose last sequence number has to be read from the
    /// store before the envelope can be applied, if any.
    pub fn producer_to_read<C>(&self, envelope: &Envelope<C>) -> (producer: Option<ProducerId>)
        ensures
            producer == self@.producer_to_read(*envelope),
    {
        match self.is_targeted_to_me(&envelope.header) {
            Some(Some(info)) => Some(info.producer_id),
            _ => None,
        }
    }

    /// Whether the partition's own sequence number has to be read too,
    /// given what was read for the envelope's producer.
    pub fn reads_own_number<C>(
        &self,
        envelope: &Envelope<C>,
        producer_last: Option<DedupSequenceNumber>,
    ) -> (needed: bool)
        ensures
            needed == self@.reads_own_number(*envelope, producer_last),
    {
        let announces = match envelope.command {
            Command::AnnounceLeader(_) => true,
            Command::Other(_) => false,
        };
        announces && match self.is_targeted_to_me(&envelope.header) {
            None => false,
            Some(None) => true,
            Some(Some(info)) => !Self::does_not_exceed(&info.sequence_number, producer_last),
        }
    }

    /// Whether a number is recorded and `sequence_number` does not exceed
    /// it. Numbers of different kinds do not exceed each other.
    fn does_not_exceed(
        sequence_number: &DedupSequenceNumber,
        last: Option<DedupSequenceNumber>,
    ) -> (duplicate: bool)
        ensures
            duplicate == outdated_or_duplicate(*sequence_number, last),
    {
        match last {
            Some(last) => match (last, *sequence_number) {
                (DedupSequenceNumber::Esn(last_esn), DedupSequenceNumber::Esn(esn)) => {
                    esn.is_at_most(&last_esn)
                },
                (DedupSequenceNumber::Sn(last_sn), DedupSequenceNumber::Sn(sn)) => sn <= last_sn,
                _ => false,
            },
            None => false,
        }
    }

    /// Whether a message was seen before: a number is recorded for its
    /// producer, and the message's number does not exceed it. The two
    /// numbers must be of one kind.
    pub fn is_outdated_or_duplicate(
        dedup_information: &DedupInformation,
        last_dsn: Option<DedupSequenceNumber>,
    ) -> (duplicate: bool)
        requires
            last_dsn matches Some(last) ==> dedup_information.sequence_number.same_kind(last),
        ensures
            duplicate == outdated_or_duplicate(dedup_information.sequence_number, last_dsn),
    {
        Self::does_not_exceed(&dedup_information.sequence_number, last_dsn)
    }

    /// Whether the processor can be told `event` right now.
    pub fn ready_for<C>(&self, event: &Event<C>) -> (ready: bool)
        ensures
            ready == self@.accepts(*event),
    {
        match event {
            Event::Started { applied_lsn, tail: _ } => {
                let fits = match applied_lsn {
                    Some(Lsn::Offset(o)) => *o < u64::MAX,
                    _ => true,
                };
                matches!(self.state.phase, Phase::Created) && fits
            },
            Event::Record { lsn, record: Record::Data(envelope), reads, now: _ } => {
                matches!(self.state.phase, Phase::Running) && self.admits(*lsn, envelope, reads)
            },
            Event::Failed(_) => !matches!(self.state.phase, Phase::Stopped),
            _ => matches!(self.state.phase, Phase::Running),
        }
    }

    /// Whether the record can be applied: see `ProcessorState::admits`.
    fn admits<C>(&self, lsn: Lsn, envelope: &Envelope<C>, reads: &DedupReads) -> (ok: bool)
        ensures
            ok == self@.admits(lsn, *envelope, *reads),
    {
        let applied = match self.state.status.last_applied_log_lsn {
            Some(l) => l,
            None => Lsn::Invalid,
        };
        if !applied.is_before(&lsn) {
            return false;
        }
        match self.is_targeted_to_me(&envelope.header) {
            None => self.state.status.num_skipped_records < u64::MAX,
            Some(None) => match envelope.command {
                Command::AnnounceLeader(_) => !matches!(
                    reads.self_producer,
                    Some(DedupSequenceNumber::Sn(_))
                ),
                Command::Other(_) => true,
            },
            Some(Some(info)) => {
                let one_kind = match reads.producer {
                    Some(last) => info.sequence_number.is_same_kind(&last),
                    None => true,
                };
                if !one_kind {
                    return false;
                }
                if Self::is_outdated_or_duplicate(&info, reads.producer) {
                    return true;
                }
                match envelope.command {
                    Command::AnnounceLeader(_) => {
                        let seen = match info.producer_id {
                            ProducerId::SelfProducer => Some(info.sequence_number),
                            _ => reads.self_producer,
                        };
                        !matches!(seen, Some(DedupSequenceNumber::Sn(_)))
                    },
                    Command::Other(_) => true,
                }
            },
        }
    }

    /// Applies the record at `lsn` inside its transaction: what is to be
    /// written is appended to `script`; the status tells of the record. A
    /// command for the state machine is passed on with the flag that tells
    /// whether this node leads. Returns what was decided about the record,
    /// so that the caller can finish the transaction: with a change of
    /// hands, if the record announces a leader of a later epoch than any
    /// known.
    pub fn apply_record<C>(
        &mut self,
        lsn: Lsn,
        envelope: Envelope<C>,
        reads: &DedupReads,
        now: MillisSinceEpoch,
        script: &mut Vec<Directive<C>>,
    ) -> (verdict: Verdict)
        requires
            old(self)@.phase is Running,
            old(self)@.admits(lsn, envelope, *reads),
        ensures
            final(self)@ == old(self)@.taken_up(lsn, envelope, now),
            final(script)@ == old(script)@ + old(self)@.in_transaction(lsn, envelope, *reads),
            verdict == old(self)@.verdict(envelope, *reads),
            final(self).num_timers_in_memory_limit() == old(self).num_timers_in_memory_limit(),
            final(self).channel_size() == old(self).channel_size(),
    {
        let Envelope { header, command } = envelope;
        let targeted = self.is_targeted_to_me(&header);

        script.push(Directive::StoreAppliedLsn(lsn));
        self.state.status.last_applied_log_lsn = Some(lsn);
        self.state.status.last_record_applied_at = Some(now);
        if let ReplayStatus::CatchingUp = self.state.status.replay_status {
            if let Some(target) = self.state.status.target_tail_lsn {
                if lsn.is_at_or_after(&target) {
                    self.state.status.replay_status = ReplayStatus::Active;
                }
            }
        }

        let dedup = match targeted {
            None => {
                self.state.status.num_skipped_records = self.state.status.num_skipped_records + 1;
                return Verdict::Skipped;
            },
            Some(dedup) => dedup,
        };
        let mut seen_for_self = reads.self_producer;
        if let Some(info) = dedup {
            if Self::is_outdated_or_duplicate(&info, reads.producer) {
                return Verdict::Duplicate;
            }
            script.push(
                Directive::StoreDedupSequenceNumber {
                    producer_id: info.producer_id,
                    sequence_number: info.sequence_number,
                },
            );
            if let ProducerId::SelfProducer = info.producer_id {
                seen_for_self = Some(info.sequence_number);
            }
        }

        match command {
            Command::AnnounceLeader(announcement) => {
                match seen_for_self {
                    Some(DedupSequenceNumber::Esn(last_known)) => {
                        if last_known.leader_epoch.0 < announcement.leader_epoch.0 {
                            Verdict::LeadershipChange(announcement)
                        } else {
                            Verdict::OutdatedAnnouncement
                        }
                    },
                    _ => Verdict::LeadershipChange(announcement),
                }
            },
            Command::Other(command) => {
                script.push(
                    Directive::ApplyCommand {
                        command,
                        is_leader: self.state.leadership.is_leader(),
                    },
                );
                Verdict::Dispatched
            },
        }
    }

    /// Tells the processor that `event` happened. It answers with what the
    /// caller has to do now, in this order, or with the error on which it
    /// stopped.
    ///
    /// For a record it plans one whole transaction: the position and the
    /// producer's sequence number are stored, then either leadership
    /// changes hands after the new epoch is committed, or a command is
    /// applied, committed, and only then its actions go to the actuators.
    pub fn run<C>(&mut self, event: Event<C>) -> (answer: Result<Vec<Directive<C>>, ProcessorError>)
        requires
            old(self)@.accepts(event),
        ensures
            final(self)@ == old(self)@.next(event),
            match old(self)@.answer(event) {
                Ok(script) => answer matches Ok(directives) && directives@ == script,
                Err(error) => answer matches Err(e) && e == error,
            },
            final(self).num_timers_in_memory_limit() == old(self).num_timers_in_memory_limit(),
            final(self).channel_size() == old(self).channel_size(),
    {
        let mut script: Vec<Directive<C>> = Vec::new();
        match event {
            Event::Started { applied_lsn, tail } => {
                let applied = match applied_lsn {
                    Some(lsn) => lsn,
                    None => Lsn::Invalid,
                };
                let from = applied.next();
                self.state.status.last_applied_log_lsn = Some(applied);
                if tail == from {
                    self.state.status.replay_status = ReplayStatus::Active;
                } else {
                    self.state.status.target_tail_lsn = Some(tail);
                    self.state.status.replay_status = ReplayStatus::CatchingUp;
                }
                self.state.phase = Phase::Running;
                script.push(Directive::OpenReader { from, to: Lsn::max() });
                Ok(script)
            },
            Event::Cancelled => {
                self.state.leadership.become_follower();
                self.state.phase = Phase::Stopped;
                script.push(Directive::BecomeFollower);
                Ok(script)
            },
            Event::Control(_) => {
                Ok(script)
            },
            Event::StatusTick { now } => {
                let mut published = self.state.status;
                published.updated_at = now;
                script.push(Directive::PublishStatus(published));
                Ok(script)
            },
            Event::Record { lsn, record, reads, now } => {
                let envelope = match record {
                    Record::Data(envelope) => envelope,
                    Record::Malformed => {
                        self.state.phase = Phase::Stopped;
                        return Err(ProcessorError::RecordDecoding);
                    },
                    Record::TrimGap => {
                        self.state.phase = Phase::Stopped;
                        return Err(ProcessorError::UnsupportedRecord);
                    },
                    Record::Seal => {
                        self.state.phase = Phase::Stopped;
                        return Err(ProcessorError::UnsupportedRecord);
                    },
                };
                script.push(Directive::BeginTransaction);
                script.push(Directive::ClearBuffers);
                match self.apply_record(lsn, envelope, &reads, now, &mut script) {
                    Verdict::LeadershipChange(announcement) => {
                        let new_esn = EpochSequenceNumber::new(announcement.leader_epoch);
                        self.state.status.last_observed_leader_epoch = Some(
                            announcement.leader_epoch,
                        );
                        self.state.status.last_observed_leader_node = Some(announcement.node_id);
                        script.push(
                            Directive::StoreDedupSequenceNumber {
                                producer_id: ProducerId::self_producer(),
                                sequence_number: DedupSequenceNumber::Esn(new_esn),
                            },
                        );
                        script.push(Directive::Commit);
                        script.push(Directive::ClearActions);
                        if announcement.node_id == self.state.my_node_id {
                            self.state.leadership.become_leader(new_esn);
                            self.state.status.effective_mode = Some(RunMode::Leader);
                            script.push(Directive::BecomeLeader(new_esn));
                        } else {
                            self.state.leadership.become_follower();
                            self.state.status.effective_mode = Some(RunMode::Follower);
                            script.push(Directive::BecomeFollower);
                        }
                    },
                    Verdict::Dispatched => {
                        script.push(Directive::Commit);
                        if let Some(epoch) = self.state.leadership.handle_actions() {
                            script.push(Directive::HandleActions { epoch });
                        }
                    },
                    _ => {
                        script.push(Directive::Commit);
                    },
                }
                Ok(script)
            },
            Event::ReaderTerminated => {
                self.state.phase = Phase::Stopped;
                Err(ProcessorError::LogReaderTerminated)
            },
            Event::Failed(error) => {
                self.state.phase = Phase::Stopped;
                Err(error)
            },
            Event::ActionEffects { issued_under } => {
                if self.state.leadership.handle_action_effect(issued_under) {
                    script.push(Directive::HandleActionEffects);
                }
                Ok(script)
            },
        }
    }

    /// Tells the processor that `event` happened, if the processor can be
    /// told so right now: see `run`. Otherwise nothing happens, and the
    /// answer is `None`.
    pub fn offer<C>(&mut self, event: Event<C>) -> (answer: Option<
        Result<Vec<Directive<C>>, ProcessorError>,
    >)
        ensures
            answer is Some <==> old(self)@.accepts(event),
            match answer {
                Some(answer) => final(self)@ == old(self)@.next(event) && match old(self)@.answer(
                    event,
                ) {
                    Ok(script) => answer matches Ok(directives) && directives@ == script,
                    Err(error) => answer matches Err(e) && e == error,
                },
                None => final(self)@ == old(self)@,
            },
            final(self).num_timers_in_memory_limit() == old(self).num_timers_in_memory_limit(),
            final(self).channel_size() == old(self).channel_size(),
    {
        if self.ready_for(&event) {
            Some(self.run(event))
        } else {
            None
        }
    }
}

} // verus!
