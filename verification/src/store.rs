//! The part of a partition's durable state that the processor reads and
//! writes, as a mathematical model: what the store holds once a script of
//! directives has been carried out.

use vstd::prelude::*;
use crate::dedup::{DedupReads, DedupSequenceNumber, EpochSequenceNumber, ProducerId};
use crate::envelope::Envelope;
use crate::identifiers::Lsn;
use crate::partition::{Directive, ProcessorState, Verdict};

verus! {

/// The last applied position and the sequence number recorded for each
/// producer.
pub struct Store {
    pub applied_lsn: Lsn,
    pub dedup: Map<ProducerId, DedupSequenceNumber>,
}

/// A store with a transaction that may be open on it: what is committed,
/// and what the transaction sees.
pub struct Session {
    pub committed: Store,
    pub pending: Store,
}

impl Store {
    /// The sequence number recorded for `producer`, if any.
    pub open spec fn lookup(self, producer: ProducerId) -> Option<DedupSequenceNumber> {
        if self.dedup.contains_key(producer) {
            Some(self.dedup[producer])
        } else {
            None
        }
    }

    /// What the store answers when asked about the producer of an envelope
    /// and about the partition itself.
    pub open spec fn reads(self, producer: Option<ProducerId>) -> DedupReads {
        DedupReads {
            producer: match producer {
                Some(producer) => self.lookup(producer),
                None => None,
            },
            self_producer: self.lookup(ProducerId::SelfProducer),
        }
    }

    /// Whether `reads` hold what the store holds, as far as the processor
    /// has to read before it applies the envelope.
    pub open spec fn answers<C>(
        self,
        processor: ProcessorState,
        envelope: Envelope<C>,
        reads: DedupReads,
    ) -> bool {
        &&& processor.producer_to_read(envelope) matches Some(producer) ==> reads.producer
            == self.lookup(producer)
        &&& processor.reads_own_number(envelope, reads.producer) ==> reads.self_producer
            == self.lookup(ProducerId::SelfProducer)
    }

    /// The store after the first `n` directives of `script`, with the
    /// transaction the script may have left open.
    pub open spec fn session<C>(self, script: Seq<Directive<C>>, n: nat) -> Session
        decreases n,
    {
        if n == 0 {
            Session { committed: self, pending: self }
        } else {
            let before = self.session(script, (n - 1) as nat);
            match script[n - 1] {
                Directive::BeginTransaction => Session {
                    committed: before.committed,
                    pending: before.committed,
                },
                Directive::StoreAppliedLsn(lsn) => Session {
                    committed: before.committed,
                    pending: Store { applied_lsn: lsn, ..before.pending },
                },
                Directive::StoreDedupSequenceNumber { producer_id, sequence_number } => Session {
                    committed: before.committed,
                    pending: Store {
                        dedup: before.pending.dedup.insert(producer_id, sequence_number),
                        ..before.pending
                    },
                },
                Directive::Commit => Session {
                    committed: before.pending,
                    pending: before.pending,
                },
                _ => before,
            }
        }
    }

    /// The store once `script` has been carried out. Writes take effect
    /// together, at the commit; without one they are lost.
    pub open spec fn carried_out<C>(self, script: Seq<Directive<C>>) -> Store {
        self.session(script, script.len()).committed
    }

    /// What applying one record leaves in the store: the record's
    /// position, its producer's sequence number unless the record is
    /// skipped or a duplicate, and the new epoch under the partition's own
    /// name if leadership changes. This depends on the processor only
    /// through the keys it owns.
    pub open spec fn applied<C>(
        self,
        processor: ProcessorState,
        lsn: Lsn,
        envelope: Envelope<C>,
    ) -> Store {
        let reads = self.reads(envelope.spec_dedup_producer());
        let deduplicated = match processor.targeted(envelope.header) {
            Some(Some(info)) if processor.fresh(envelope, reads) => self.dedup.insert(
                info.producer_id,
                info.sequence_number,
            ),
            _ => self.dedup,
        };
        Store {
            applied_lsn: lsn,
            dedup: match processor.verdict(envelope, reads) {
                Verdict::LeadershipChange(announcement) => deduplicated.insert(
                    ProducerId::SelfProducer,
                    DedupSequenceNumber::Esn(
                        EpochSequenceNumber {
                            leader_epoch: announcement.leader_epoch,
                            sequence_number: 0,
                        },
                    ),
                ),
                _ => deduplicated,
            },
        }
    }
}

/// Carrying out the script that a processor plans for a record leaves in
/// the store exactly what `Store::applied` says, whatever the reads hold
/// where nothing had to be read.
pub proof fn lemma_script_carried_out<C>(
    store: Store,
    processor: ProcessorState,
    lsn: Lsn,
    envelope: Envelope<C>,
    reads: DedupReads,
)
    requires
        store.answers(processor, envelope, reads),
    ensures
        store.carried_out(processor.script(lsn, envelope, reads)) == store.applied(
            processor,
            lsn,
            envelope,
        ),
{
    reveal_with_fuel(Store::session, 10);
}

} // verus!
