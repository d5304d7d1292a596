//! A processor together with the store it writes to, followed through a
//! history of events, and what holds of every such history.

use vstd::prelude::*;
use crate::dedup::{DedupInformation, DedupSequenceNumber, EpochSequenceNumber, ProducerId};
use crate::envelope::{AnnounceLeader, Envelope, Record};
use crate::identifiers::{LeaderEpoch, Lsn};
use crate::leadership::LeadershipState;
use crate::partition::{known_epoch, Directive, Event, ProcessorState, Verdict};
use crate::store::{lemma_script_carried_out, Store};

verus! {

/// A processor and the store of its partition.
pub struct World {
    pub processor: ProcessorState,
    pub store: Store,
}

/// Whether a directive writes inside the transaction.
pub open spec fn writes<C>(directive: Directive<C>) -> bool {
    directive is StoreAppliedLsn || directive is StoreDedupSequenceNumber
        || directive is ApplyCommand
}

/// Whether a directive reaches the actuators.
pub open spec fn reaches_actuators<C>(directive: Directive<C>) -> bool {
    directive is HandleActions || directive is BecomeLeader || directive is BecomeFollower
}

/// A script commits before it acts if it commits exactly once, writes only
/// before that, and reaches the actuators only after it.
pub open spec fn commits_before_acting<C>(script: Seq<Directive<C>>) -> bool {
    exists|c: int|
        {
            &&& 0 <= c < script.len()
            &&& #[trigger] script[c] is Commit
            &&& forall|i: int| 0 <= i < script.len() && script[i] is Commit ==> i == c
            &&& forall|i: int| 0 <= i < script.len() && writes(script[i]) ==> i < c
            &&& forall|i: int| 0 <= i < script.len() && reaches_actuators(script[i]) ==> c < i
        }
}

impl World {
    /// Whether processor and store agree on the last applied position. A
    /// processor that has not started yet agrees with any store.
    pub open spec fn coherent(self) -> bool {
        self.processor.phase is Running ==> self.processor.status.applied()
            == self.store.applied_lsn
    }

    /// Whether `event` reports of the store what the store holds. An
    /// event that reports a failure does not: the histories followed here
    /// are those in which every answer is carried out.
    pub open spec fn consistent<C>(self, event: Event<C>) -> bool {
        match event {
            Event::Failed(_) => false,
            Event::Started { applied_lsn, .. } => self.store.applied_lsn == match applied_lsn {
                Some(lsn) => lsn,
                None => Lsn::Invalid,
            },
            Event::Record { record: Record::Data(envelope), reads, .. } => self.store.answers(
                self.processor,
                envelope,
                reads,
            ),
            _ => true,
        }
    }

    /// Whether `event` can happen in this world.
    pub open spec fn takes<C>(self, event: Event<C>) -> bool {
        self.processor.accepts(event) && self.consistent(event)
    }

    /// The world after `event`, once the processor's answer has been
    /// carried out.
    pub open spec fn step<C>(self, event: Event<C>) -> World {
        World {
            processor: self.processor.next(event),
            store: match self.processor.answer(event) {
                Ok(script) => self.store.carried_out(script),
                Err(_) => self.store,
            },
        }
    }

    /// The world after the first `n` events of `history`.
    pub open spec fn after<C>(self, history: Seq<Event<C>>, n: nat) -> World
        decreases n,
    {
        if n == 0 {
            self
        } else {
            self.after(history, (n - 1) as nat).step(history[n - 1])
        }
    }

    /// Whether `history` can happen from this world on, event by event.
    pub open spec fn follows<C>(self, history: Seq<Event<C>>) -> bool {
        forall|k: nat|
            k < history.len() ==> #[trigger] self.after(history, k).takes(history[k as int])
    }

    /// The dedup information under which `event` reaches the state
    /// machine, if it does so under any.
    pub open spec fn dispatches<C>(self, event: Event<C>) -> Option<DedupInformation> {
        match event {
            Event::Record { record: Record::Data(envelope), reads, .. } => match (
                self.processor.verdict(envelope, reads),
                self.processor.targeted(envelope.header),
            ) {
                (Verdict::Dispatched, Some(Some(info))) => Some(info),
                _ => None,
            },
            _ => None,
        }
    }

    /// The leader announcement that `event` makes known, if it changes
    /// leadership.
    pub open spec fn announces<C>(self, event: Event<C>) -> Option<AnnounceLeader> {
        match event {
            Event::Record { record: Record::Data(envelope), reads, .. } => {
                match self.processor.verdict(envelope, reads) {
                    Verdict::LeadershipChange(announcement) => Some(announcement),
                    _ => None,
                }
            },
            _ => None,
        }
    }

    /// Whether nothing in this world is older than `epoch`: neither the
    /// leadership, if this node leads, nor the epoch recorded under the
    /// partition's own name.
    pub open spec fn fenced_at(self, epoch: LeaderEpoch) -> bool {
        &&& self.processor.leadership matches LeadershipState::Leader { epoch: led } ==> led.0
            >= epoch.0
        &&& known_epoch(self.store.lookup(ProducerId::SelfProducer)) matches Some(known)
        &&& known.0 >= epoch.0
    }
}

/// The script of every event but an applied record leaves the store as it
/// is.
proof fn lemma_other_events_keep_store<C>(world: World, event: Event<C>)
    requires
        !(event matches Event::Record { record: Record::Data(_), .. }),
    ensures
        world.step(event).store == world.store,
{
    reveal_with_fuel(Store::session, 3);
}

/// One step of a history: the store holds what `Store::applied` says after
/// a record, and what it held before after anything else.
proof fn lemma_step_store<C>(world: World, event: Event<C>)
    requires
        world.takes(event),
    ensures
        world.step(event).store == match event {
            Event::Record { lsn, record: Record::Data(envelope), .. } => world.store.applied(
                world.processor,
                lsn,
                envelope,
            ),
            _ => world.store,
        },
{
    match event {
        Event::Record { lsn, record: Record::Data(envelope), reads, .. } => {
            lemma_script_carried_out(world.store, world.processor, lsn, envelope, reads);
        },
        _ => {
            lemma_other_events_keep_store(world, event);
        },
    }
}

/// One step keeps processor and store in agreement, and moves the applied
/// position forward or leaves it.
proof fn lemma_step_coherent<C>(world: World, event: Event<C>)
    requires
        world.coherent(),
        world.takes(event),
    ensures
        world.step(event).coherent(),
        world.store.applied_lsn.ord() <= world.step(event).store.applied_lsn.ord(),
        event matches Event::Record { lsn, record: Record::Data(_), .. } ==> {
            &&& world.store.applied_lsn.ord() < lsn.ord()
            &&& world.step(event).store.applied_lsn == lsn
        },
{
    lemma_step_store(world, event);
}

/// Every world of a history that started in agreement is in agreement.
proof fn lemma_history_coherent<C>(world: World, history: Seq<Event<C>>, n: nat)
    requires
        world.coherent(),
        world.follows(history),
        n <= history.len(),
    ensures
        world.after(history, n).coherent(),
    decreases n,
{
    if n > 0 {
        lemma_history_coherent(world, history, (n - 1) as nat);
        let before = world.after(history, (n - 1) as nat);
        lemma_step_coherent(before, history[n - 1]);
    }
}

/// The applied position never moves backwards: of two moments of a
/// history, the later one has applied at least as much.
pub proof fn law_applied_lsn_never_decreases<C>(
    world: World,
    history: Seq<Event<C>>,
    earlier: nat,
    later: nat,
)
    requires
        world.coherent(),
        world.follows(history),
        earlier <= later <= history.len(),
    ensures
        world.after(history, earlier).store.applied_lsn.ord() <= world.after(
            history,
            later,
        ).store.applied_lsn.ord(),
    decreases later,
{
    if earlier < later {
        law_applied_lsn_never_decreases(world, history, earlier, (later - 1) as nat);
        lemma_history_coherent(world, history, (later - 1) as nat);
        let before = world.after(history, (later - 1) as nat);
        lemma_step_coherent(before, history[later - 1]);
    }
}

/// No position is applied twice: of two records of a history, the later
/// one lies at the later position.
pub proof fn law_positions_are_applied_in_order<C>(
    world: World,
    history: Seq<Event<C>>,
    earlier: nat,
    later: nat,
)
    requires
        world.coherent(),
        world.follows(history),
        earlier < later < history.len(),
        history[earlier as int] matches Event::Record { record: Record::Data(_), .. },
        history[later as int] matches Event::Record { record: Record::Data(_), .. },
    ensures
        history[earlier as int]->Record_lsn.ord() < history[later as int]->Record_lsn.ord(),
{
    lemma_history_coherent(world, history, earlier);
    lemma_history_coherent(world, history, later);
    let at_earlier = world.after(history, earlier);
    let at_later = world.after(history, later);
    assert(at_earlier.takes(history[earlier as int]));
    assert(at_later.takes(history[later as int]));
    lemma_step_coherent(at_earlier, history[earlier as int]);
    law_applied_lsn_never_decreases(world, history, earlier + 1, later);
}

/// A processor that starts again reads on where the store stands: it opens
/// its log at the position after the last one applied, so that nothing
/// that was applied before the restart is applied again.
pub proof fn law_restart_resumes_after_last_applied<C>(world: World, event: Event<C>)
    requires
        world.takes(event),
        event is Started,
    ensures
        world.step(event).store == world.store,
        world.step(event).coherent(),
        world.processor.answer(event) matches Ok(script) && script.len() == 1 && (
        script[0] matches Directive::OpenReader { from, to } && from.ord()
            == world.store.applied_lsn.ord() + 1 && to == Lsn::Offset(u64::MAX)),
{
    lemma_step_store(world, event);
}

/// Each record is applied once: its transaction stores the record's
/// position, commits exactly once, and reaches the state machine at most
/// once, namely when the record is a command that is addressed here and
/// was not seen before. Afterwards the store is at the record's position.
pub proof fn law_record_applied_once<C>(world: World, event: Event<C>)
    requires
        world.takes(event),
        event matches Event::Record { record: Record::Data(_), .. },
    ensures
        world.processor.answer(event) matches Ok(script) && {
            &&& commits_before_acting(script)
            &&& forall|i: int, j: int|
                0 <= i < script.len() && 0 <= j < script.len() && script[i] is StoreAppliedLsn
                    && script[j] is StoreAppliedLsn ==> i == j
            &&& forall|i: int, j: int|
                0 <= i < script.len() && 0 <= j < script.len() && script[i] is ApplyCommand
                    && script[j] is ApplyCommand ==> i == j
            &&& (exists|i: int| 0 <= i < script.len() && #[trigger] script[i] is ApplyCommand)
                <==> (event matches Event::Record { record: Record::Data(envelope), reads, .. }
                && world.processor.verdict(envelope, reads) is Dispatched)
        },
        event matches Event::Record { lsn, .. } && world.step(event).store.applied_lsn == lsn,
{
    lemma_step_store(world, event);
    match event {
        Event::Record { lsn, record: Record::Data(envelope), reads, .. } => {
            let p = world.processor;
            let script = p.script(lsn, envelope, reads);
            let inside = p.in_transaction(lsn, envelope, reads);
            let c = if p.verdict(envelope, reads) is LeadershipChange {
                inside.len() + 3
            } else {
                inside.len() + 2
            };
            assert(script[c as int] is Commit);
            if p.verdict(envelope, reads) is Dispatched {
                assert(script[c - 1] is ApplyCommand);
            }
        },
        _ => {},
    }
}

/// Replaying a record leaves the same store whatever the processor had in
/// memory: what is stored depends on the store, on the record, and on the
/// keys the partition owns, and on nothing else.
pub proof fn law_stored_state_ignores_memory<C>(
    store: Store,
    one: ProcessorState,
    other: ProcessorState,
    lsn: Lsn,
    envelope: Envelope<C>,
)
    requires
        one.partition_key_range == other.partition_key_range,
    ensures
        store.carried_out(one.script(lsn, envelope, store.reads(envelope.spec_dedup_producer())))
            == store.carried_out(
            other.script(lsn, envelope, store.reads(envelope.spec_dedup_producer())),
        ),
{
    let reads = store.reads(envelope.spec_dedup_producer());
    lemma_script_carried_out(store, one, lsn, envelope, reads);
    lemma_script_carried_out(store, other, lsn, envelope, reads);
}

/// Replaying the same history twice from the same store yields the same
/// store, even by two processors that differ in what they have in memory.
pub proof fn law_replay_yields_same_store<C>(
    one: World,
    other: World,
    history: Seq<Event<C>>,
    n: nat,
)
    requires
        one.store == other.store,
        one.processor.partition_key_range == other.processor.partition_key_range,
        one.follows(history),
        other.follows(history),
        n <= history.len(),
    ensures
        one.after(history, n).store == other.after(history, n).store,
        one.after(history, n).processor.partition_key_range == other.after(
            history,
            n,
        ).processor.partition_key_range,
    decreases n,
{
    if n > 0 {
        law_replay_yields_same_store(one, other, history, (n - 1) as nat);
        let a = one.after(history, (n - 1) as nat);
        let b = other.after(history, (n - 1) as nat);
        let event = history[n - 1];
        lemma_step_store(a, event);
        lemma_step_store(b, event);
    }
}

/// One step never lowers the sequence number recorded for a producer.
proof fn lemma_step_sequence_numbers_grow<C>(
    world: World,
    event: Event<C>,
    producer: ProducerId,
)
    requires
        world.takes(event),
        world.store.lookup(producer) is Some,
    ensures
        world.step(event).store.lookup(producer) matches Some(now) && world.store.lookup(
            producer,
        )->Some_0.at_most(now),
{
    lemma_step_store(world, event);
}

/// A sequence number recorded for a producer at one moment of a history is
/// not undercut at any later moment.
proof fn lemma_history_sequence_numbers_grow<C>(
    world: World,
    history: Seq<Event<C>>,
    earlier: nat,
    later: nat,
    producer: ProducerId,
)
    requires
        world.follows(history),
        earlier <= later <= history.len(),
        world.after(history, earlier).store.lookup(producer) is Some,
    ensures
        world.after(history, later).store.lookup(producer) matches Some(now) && world.after(
            history,
            earlier,
        ).store.lookup(producer)->Some_0.at_most(now),
    decreases later,
{
    if earlier < later {
        lemma_history_sequence_numbers_grow(world, history, earlier, (later - 1) as nat, producer);
        let before = world.after(history, (later - 1) as nat);
        lemma_step_sequence_numbers_grow(before, history[later - 1], producer);
    }
}

/// A message that repeats or undercuts a sequence number already recorded
/// for its producer changes nothing but the applied position: it writes no
/// sequence number, does not reach the state machine, and hands nothing to
/// the actuators.
pub proof fn law_duplicate_has_no_effect<C>(world: World, event: Event<C>)
    requires
        world.takes(event),
        event matches Event::Record { record: Record::Data(envelope), reads, .. }
            && world.processor.verdict(envelope, reads) is Duplicate,
    ensures
        world.step(event).store.dedup == world.store.dedup,
        world.step(event).processor.leadership == world.processor.leadership,
        world.processor.answer(event) matches Ok(script) && forall|i: int|
            0 <= i < script.len() ==> !(#[trigger] script[i] is ApplyCommand) && !(script[i]
                is StoreDedupSequenceNumber) && !reaches_actuators(script[i]),
{
    lemma_step_store(world, event);
}

/// Of one producer the state machine sees strictly growing sequence
/// numbers: if two events of a history reach it under the same producer,
/// the later one carries the larger number.
pub proof fn law_state_machine_sees_growing_numbers<C>(
    world: World,
    history: Seq<Event<C>>,
    earlier: nat,
    later: nat,
)
    requires
        world.follows(history),
        earlier < later < history.len(),
        world.after(history, earlier).dispatches(history[earlier as int]) is Some,
        world.after(history, later).dispatches(history[later as int]) is Some,
        world.after(history, earlier).dispatches(history[earlier as int])->Some_0.producer_id
            == world.after(history, later).dispatches(history[later as int])->Some_0.producer_id,
    ensures
        ({
            let first = world.after(history, earlier).dispatches(history[earlier as int])->Some_0;
            let second = world.after(history, later).dispatches(history[later as int])->Some_0;
            first.sequence_number.at_most(second.sequence_number) && first.sequence_number
                != second.sequence_number
        }),
{
    let at_first = world.after(history, earlier);
    let at_second = world.after(history, later);
    let first = at_first.dispatches(history[earlier as int])->Some_0;
    assert(at_first.takes(history[earlier as int]));
    assert(at_second.takes(history[later as int]));
    lemma_step_store(at_first, history[earlier as int]);
    lemma_history_sequence_numbers_grow(world, history, earlier + 1, later, first.producer_id);
}

/// One step keeps a world fenced at an epoch it was fenced at.
proof fn lemma_step_fenced<C>(world: World, event: Event<C>, epoch: LeaderEpoch)
    requires
        world.takes(event),
        world.fenced_at(epoch),
    ensures
        world.step(event).fenced_at(epoch),
{
    lemma_step_sequence_numbers_grow(world, event, ProducerId::SelfProducer);
}

/// Every later world of a history is fenced at an epoch at which an
/// earlier one was.
proof fn lemma_history_fenced<C>(
    world: World,
    history: Seq<Event<C>>,
    earlier: nat,
    later: nat,
    epoch: LeaderEpoch,
)
    requires
        world.follows(history),
        earlier <= later <= history.len(),
        world.after(history, earlier).fenced_at(epoch),
    ensures
        world.after(history, later).fenced_at(epoch),
    decreases later,
{
    if earlier < later {
        lemma_history_fenced(world, history, earlier, (later - 1) as nat, epoch);
        let before = world.after(history, (later - 1) as nat);
        lemma_step_fenced(before, history[later - 1], epoch);
    }
}

/// Once a leader of a later epoch than any known has been announced, this
/// node leads exactly if it is the one announced, the announced epoch is
/// recorded under the partition's own name, and whatever is handed to the
/// actuators from then on is handed out under that epoch or a later one.
pub proof fn law_epoch_fencing<C>(
    world: World,
    history: Seq<Event<C>>,
    observed: nat,
    later: nat,
)
    requires
        world.follows(history),
        observed < later < history.len(),
        world.after(history, observed).announces(history[observed as int]) is Some,
    ensures
        ({
            let announcement = world.after(history, observed).announces(
                history[observed as int],
            )->Some_0;
            let then = world.after(history, observed + 1);
            &&& then.processor.leadership.spec_is_leader() <==> announcement.node_id
                == world.after(history, observed).processor.my_node_id
            &&& then.processor.leadership.spec_is_leader()
                ==> then.processor.leadership.action_epoch() == Some(announcement.leader_epoch)
            &&& then.store.lookup(ProducerId::SelfProducer) == Some(
                DedupSequenceNumber::Esn(
                    EpochSequenceNumber {
                        leader_epoch: announcement.leader_epoch,
                        sequence_number: 0,
                    },
                ),
            )
            &&& world.after(history, later).processor.answer(history[later as int]) matches Ok(
                script,
            ) ==> forall|i: int|
                0 <= i < script.len() ==> (#[trigger] script[i] matches Directive::HandleActions {
                    epoch,
                } ==> epoch.0 >= announcement.leader_epoch.0)
        }),
{
    let at = world.after(history, observed);
    let announcement = at.announces(history[observed as int])->Some_0;
    assert(at.takes(history[observed as int]));
    lemma_step_store(at, history[observed as int]);
    lemma_history_fenced(world, history, observed + 1, later, announcement.leader_epoch);
}

/// Nothing reaches an actuator before the transaction of its record has
/// committed: in what a processor answers to a record, every write comes
/// before the one commit, and every directive that reaches the actuators
/// after it. When leadership changes hands, the new epoch is among the
/// writes.
pub proof fn law_commit_before_acting<C>(processor: ProcessorState, event: Event<C>)
    requires
        processor.accepts(event),
        event matches Event::Record { record: Record::Data(_), .. },
    ensures
        processor.answer(event) matches Ok(script) && commits_before_acting(script) && (forall|
            i: int,
        |
            0 <= i < script.len() ==> (#[trigger] script[i] matches Directive::BecomeLeader(esn)
                ==> exists|w: int|
                0 <= w < i && #[trigger] script[w] == (Directive::<C>::StoreDedupSequenceNumber {
                    producer_id: ProducerId::SelfProducer,
                    sequence_number: DedupSequenceNumber::Esn(esn),
                }))),
{
    match event {
        Event::Record { lsn, record: Record::Data(envelope), reads, .. } => {
            let p = processor;
            let script = p.script(lsn, envelope, reads);
            let inside = p.in_transaction(lsn, envelope, reads);
            let c = if p.verdict(envelope, reads) is LeadershipChange {
                inside.len() + 3
            } else {
                inside.len() + 2
            };
            assert(script[c as int] is Commit);
            assert forall|i: int| 0 <= i < script.len() implies (#[trigger] script[i]
                matches Directive::BecomeLeader(esn) ==> exists|w: int|
                0 <= w < i && #[trigger] script[w] == (Directive::<C>::StoreDedupSequenceNumber {
                    producer_id: ProducerId::SelfProducer,
                    sequence_number: DedupSequenceNumber::Esn(esn),
                })) by {
                if script[i] is BecomeLeader {
                    let w = c - 1;
                    assert(script[w] is StoreDedupSequenceNumber);
                }
            }
        },
        _ => {},
    }
}

} // verus!
