//! The invocation task as it runs: made by the invoker, then driven one
//! event at a time.

use vstd::prelude::*;
use std::collections::HashSet;
use crate::error::{EncodingError, InvocationTaskError};
use crate::protocol::{
    EntryIndex, MessageType, MessageView, PartitionLeaderEpoch, ProtocolMessage,
    ServiceInvocationId,
};
use crate::request::{
    is_trace_context, prepare_request, prepared_request, request_uri, trace_context_of,
    validate_response, EndpointMetadata, JournalMetadata, RequestHead,
};
use crate::task::{
    action_views, broken, emissions, message_outcome, read, read_all, replayed, ActionView,
    InvocationTaskOutputInner, InvokeInputJournal, OutputView, TaskAction, TaskEvent, TaskPhase,
    TaskState, TerminalLoopState, TerminalView,
};
use crate::transport::TransportError;

verus! {

broadcast use vstd::std_specs::hash::group_hash_axioms;

/// A report of a task, under the names of its invocation.
#[derive(Debug, PartialEq, Eq)]
pub struct InvocationTaskOutput<E> {
    pub partition: PartitionLeaderEpoch,
    pub service_invocation_id: ServiceInvocationId,
    pub inner: InvocationTaskOutputInner<E>,
}

impl<T> TerminalLoopState<T> {
    /// A success lets the task go on, an error fails it.
    pub fn from_result(value: Result<T, InvocationTaskError>) -> (state: Self)
        ensures
            state@ == match value {
                Ok(value) => TerminalView::Continue(value),
                Err(error) => TerminalView::Failed(error),
            },
    {
        match value {
            Ok(value) => TerminalLoopState::Continue(value),
            Err(error) => TerminalLoopState::Failed(error),
        }
    }

    /// A connection that the peer shut down gracefully closes the task;
    /// any other failure of the connection fails it.
    pub fn from_transport_error(error: TransportError) -> (state: Self)
        ensures
            state@ == broken::<T>(error),
    {
        if error.is_graceful() {
            TerminalLoopState::Closed
        } else {
            TerminalLoopState::Failed(InvocationTaskError::Network(error))
        }
    }
}

impl<E> InvocationTaskOutputInner<E> {
    /// The report of a failure.
    pub fn from_error(error: InvocationTaskError) -> (output: Self)
        ensures
            output@ == OutputView::<E>::Failed(error),
    {
        InvocationTaskOutputInner::Failed(error)
    }

    /// The last report of a task that ended in `state`.
    pub fn from_terminal(state: TerminalLoopState<()>) -> (output: Self)
        requires
            !(state@ is Continue),
        ensures
            Some(output@) == state@.report::<E>(),
    {
        match state {
            TerminalLoopState::Continue(_) => vstd::pervasive::unreached(),
            TerminalLoopState::Closed => InvocationTaskOutputInner::Closed,
            TerminalLoopState::Suspended(indexes) => InvocationTaskOutputInner::Suspended(indexes),
            TerminalLoopState::Failed(error) => InvocationTaskOutputInner::Failed(error),
        }
    }
}

/// The set of the entries that a suspension names.
pub fn suspended_on(entry_indexes: Vec<EntryIndex>) -> (indexes: HashSet<EntryIndex>)
    ensures
        indexes@ == entry_indexes@.to_set(),
{
    let mut indexes: HashSet<EntryIndex> = HashSet::new();
    let mut i: usize = 0;
    while i < entry_indexes.len()
        invariant
            i <= entry_indexes.len(),
            forall|index: EntryIndex|
                indexes@.contains(index) <==> exists|j: int|
                    0 <= j < i && entry_indexes@[j] == index,
        decreases entry_indexes.len() - i,
    {
        let entry_index: EntryIndex = entry_indexes[i];
        indexes.insert(entry_index);
        i += 1;
    }
    indexes
}

/// Reading more messages never lowers the index of the next entry.
proof fn lemma_read_index_grows<E, K>(
    index: int,
    messages: Seq<ProtocolMessage<E, K>>,
    fewer: nat,
    more: nat,
)
    requires
        fewer <= more,
    ensures
        read(index, messages, fewer).index <= read(index, messages, more).index,
    decreases more,
{
    if fewer < more {
        lemma_read_index_grows(index, messages, fewer, (more - 1) as nat);
    }
}

/// Once a message has ended the task, reading more changes nothing.
proof fn lemma_read_stops<E, K>(
    index: int,
    messages: Seq<ProtocolMessage<E, K>>,
    fewer: nat,
    more: nat,
)
    requires
        fewer <= more,
        !(read(index, messages, fewer).state is Continue),
    ensures
        read(index, messages, more) == read(index, messages, fewer),
    decreases more,
{
    if fewer < more {
        lemma_read_stops(index, messages, fewer, (more - 1) as nat);
    }
}

/// An open stream to a service endpoint, for one invocation.
#[derive(Debug)]
pub struct InvocationTask {
    partition: PartitionLeaderEpoch,
    service_invocation_id: ServiceInvocationId,
    endpoint_metadata: EndpointMetadata,
    protocol_version: u16,
    has_completions: bool,
    next_journal_index: EntryIndex,
    journal_size: Option<EntryIndex>,
    phase: TaskPhase,
}

impl View for InvocationTask {
    type V = TaskState;

    closed spec fn view(&self) -> TaskState {
        TaskState {
            partition: self.partition,
            service_invocation_id: self.service_invocation_id@,
            endpoint_metadata: self.endpoint_metadata,
            protocol_version: self.protocol_version,
            has_completions: self.has_completions,
            next_journal_index: self.next_journal_index,
            journal_size: self.journal_size,
            phase: self.phase,
        }
    }
}

impl InvocationTask {
    /// Makes the task of the invocation `sid`. `has_completions` tells
    /// whether the invoker may complete entries while the task runs.
    pub fn new(
        partition: PartitionLeaderEpoch,
        sid: ServiceInvocationId,
        protocol_version: u16,
        endpoint_metadata: EndpointMetadata,
        has_completions: bool,
    ) -> (task: InvocationTask)
        ensures
            task@ == (TaskState {
                partition,
                service_invocation_id: sid@,
                endpoint_metadata,
                protocol_version,
                has_completions,
                next_journal_index: 0,
                journal_size: None,
                phase: TaskPhase::Created,
            }),
            task@.wf(),
    {
        InvocationTask {
            partition,
            service_invocation_id: sid,
            endpoint_metadata,
            protocol_version,
            has_completions,
            next_journal_index: 0,
            journal_size: None,
            phase: TaskPhase::Created,
        }
    }

    /// The partition that owns the invocation, and the epoch of the leader
    /// that started the task.
    pub fn partition(&self) -> (partition: PartitionLeaderEpoch)
        ensures
            partition == self@.partition,
    {
        self.partition
    }

    /// The invocation that the task drives.
    pub fn service_invocation_id(&self) -> (sid: &ServiceInvocationId)
        ensures
            sid@ == self@.service_invocation_id,
    {
        &self.service_invocation_id
    }

    /// Where the task is in its life.
    pub fn phase(&self) -> (phase: TaskPhase)
        ensures
            phase == self@.phase,
    {
        self.phase
    }

    /// The index of the next entry of the journal.
    pub fn next_journal_index(&self) -> (index: EntryIndex)
        ensures
            index == self@.next_journal_index,
    {
        self.next_journal_index
    }

    /// The version of the protocol in which the task's messages are to be
    /// encoded.
    pub fn protocol_version(&self) -> (version: u16)
        ensures
            version == self@.protocol_version,
    {
        self.protocol_version
    }

    /// `inner` under the partition and the invocation that the report is about.
    pub fn output<E>(&self, inner: InvocationTaskOutputInner<E>) -> (output: InvocationTaskOutput<
        E,
    >)
        ensures
            output.partition == self@.partition,
            output.service_invocation_id@ == self@.service_invocation_id,
            output.inner == inner,
    {
        InvocationTaskOutput {
            partition: self.partition,
            service_invocation_id: self.service_invocation_id.duplicate(),
            inner,
        }
    }

    /// The message that opens the stream: it names the invocation and
    /// tells how many journal entries follow.
    pub fn write_start<E, K>(&self, journal_metadata: &JournalMetadata) -> (message:
        ProtocolMessage<E, K>)
        ensures
            message@ == (MessageView::<E, K>::Start {
                invocation_id: self@.service_invocation_id.invocation_id,
                instance_key: self@.service_invocation_id.key,
                known_entries: journal_metadata.journal_size,
            }),
    {
        ProtocolMessage::new_start_message(
            &self.service_invocation_id,
            journal_metadata.journal_size,
        )
    }

    /// What a failed write means: nothing, if the request channel was
    /// closed, as happens when the endpoint suspends; a failure of the
    /// network otherwise.
    pub fn write(error: TransportError) -> (written: Result<(), InvocationTaskError>)
        ensures
            written == if error.spec_is_closed() {
                Ok::<(), InvocationTaskError>(())
            } else {
                Err::<(), InvocationTaskError>(InvocationTaskError::Network(error))
            },
    {
        if !error.is_closed() {
            return Err(InvocationTaskError::Network(error));
        }
        Ok(())
    }

    /// The head of the request that opens the stream, or nothing if
    /// endpoint, service and method make no address.
    pub fn prepare_request(&self, journal_metadata: &JournalMetadata) -> (head: Option<RequestHead>)
        ensures
            match head {
                Some(head) => Some(head@),
                None => None,
            } == prepared_request(
                self@.endpoint_metadata,
                self@.service_invocation_id.service_name,
                *journal_metadata,
            ),
            head is Some ==> is_trace_context(trace_context_of(journal_metadata.tracing_context)),
    {
        prepare_request(
            &self.endpoint_metadata,
            self.service_invocation_id.service_id.service_name.as_str(),
            journal_metadata,
        )
    }

    /// Takes one message of the endpoint. An entry is reported to the
    /// invoker under the next index, and the task goes on. A suspension
    /// ends the task, and so does a message that only a task may send.
    pub fn handle_message<E, K>(
        &mut self,
        message: ProtocolMessage<E, K>,
        actions: &mut Vec<TaskAction<E, K>>,
    ) -> (state: TerminalLoopState<()>)
        requires
            message is UnparsedEntry ==> old(self)@.next_journal_index < u32::MAX,
        ensures
            state@ == message_outcome(message),
            final(self)@ == (TaskState {
                next_journal_index: if message is UnparsedEntry {
                    (old(self)@.next_journal_index + 1) as EntryIndex
                } else {
                    old(self)@.next_journal_index
                },
                ..old(self)@
            }),
            action_views(final(actions)@) == match message {
                ProtocolMessage::UnparsedEntry(raw_entry) => action_views(old(actions)@).push(
                    ActionView::Emit(
                        OutputView::NewEntry {
                            entry_index: old(self)@.next_journal_index,
                            raw_entry,
                        },
                    ),
                ),
                _ => action_views(old(actions)@),
            },
    {
        match message {
            ProtocolMessage::Start { .. } => TerminalLoopState::Failed(
                InvocationTaskError::UnexpectedMessage(MessageType::Start),
            ),
            ProtocolMessage::Completion(_) => TerminalLoopState::Failed(
                InvocationTaskError::UnexpectedMessage(MessageType::Completion),
            ),
            ProtocolMessage::Suspension { entry_indexes } => TerminalLoopState::Suspended(
                suspended_on(entry_indexes),
            ),
            ProtocolMessage::UnparsedEntry(raw_entry) => {
                actions.push(
                    TaskAction::Emit(
                        InvocationTaskOutputInner::NewEntry {
                            entry_index: self.next_journal_index,
                            raw_entry,
                        },
                    ),
                );
                self.next_journal_index += 1;
                TerminalLoopState::Continue(())
            },
        }
    }

    /// Takes a piece of the response: its messages in order, up to the
    /// first that ends the task, and then what could not be decoded, if
    /// the task still goes on.
    pub fn handle_read<E, K>(
        &mut self,
        messages: Vec<ProtocolMessage<E, K>>,
        failure: Option<EncodingError>,
        actions: &mut Vec<TaskAction<E, K>>,
    ) -> (state: TerminalLoopState<()>)
        requires
            read(old(self)@.next_journal_index as int, messages@, messages@.len()).index
                <= u32::MAX,
        ensures
            state@ == read_all(old(self)@.next_journal_index as int, messages@, failure).state,
            final(self)@ == (TaskState {
                next_journal_index: read_all(
                    old(self)@.next_journal_index as int,
                    messages@,
                    failure,
                ).index as EntryIndex,
                ..old(self)@
            }),
            action_views(final(actions)@) == action_views(old(actions)@) + emissions(
                read_all(old(self)@.next_journal_index as int, messages@, failure).emitted,
            ),
    {
        let ghost start = self@;
        let ghost index = self@.next_journal_index as int;
        let ghost reported = action_views(actions@);
        let mut state: TerminalLoopState<()> = TerminalLoopState::Continue(());
        for message in it: messages.into_iter()
            invariant
                it.seq() == messages@,
                0 <= index <= read(index, messages@, it.index() as nat).index,
                read(index, messages@, messages@.len()).index <= u32::MAX,
                state@ == read(index, messages@, it.index() as nat).state,
                self@ == (TaskState {
                    next_journal_index: read(index, messages@, it.index() as nat).index
                        as EntryIndex,
                    ..start
                }),
                action_views(actions@) == reported + emissions::<E, K>(
                    read(index, messages@, it.index() as nat).emitted,
                ),
        {
            proof {
                lemma_read_index_grows(
                    index,
                    messages@,
                    (it.index() + 1) as nat,
                    messages@.len(),
                );
            }
            if let TerminalLoopState::Continue(_) = state {
                state = self.handle_message(message, actions);
            }
        }
        match (state, failure) {
            (TerminalLoopState::Continue(_), Some(error)) => TerminalLoopState::Failed(
                InvocationTaskError::Encoding(error),
            ),
            (state, _) => state,
        }
    }

    /// Whether the journal can be replayed: see `TaskState::replayable`.
    fn can_replay<E>(&self, journal_metadata: &JournalMetadata, entries: &Vec<E>) -> (ok: bool)
        ensures
            ok == self@.replayable(*journal_metadata, entries@),
    {
        entries.len() == journal_metadata.journal_size as usize && request_uri(
            &self.endpoint_metadata.address,
            self.service_invocation_id.service_id.service_name.as_str(),
            journal_metadata.method.as_str(),
        ).is_some()
    }

    /// Whether the entries among `messages` that the task would take in
    /// can all be numbered.
    fn has_room_for<E, K>(&self, messages: &Vec<ProtocolMessage<E, K>>) -> (ok: bool)
        ensures
            ok == (read(self@.next_journal_index as int, messages@, messages@.len()).index
                <= u32::MAX),
    {
        let ghost index = self.next_journal_index as int;
        let mut next: u64 = self.next_journal_index as u64;
        let mut i: usize = 0;
        while i < messages.len()
            invariant
                i <= messages.len(),
                index == self@.next_journal_index,
                next == read(index, messages@, i as nat).index,
                next <= u32::MAX,
                read(index, messages@, i as nat).state is Continue,
            decreases messages.len() - i,
        {
            match &messages[i] {
                ProtocolMessage::UnparsedEntry(_) => {
                    if next == u32::MAX as u64 {
                        proof {
                            lemma_read_index_grows(
                                index,
                                messages@,
                                (i + 1) as nat,
                                messages@.len(),
                            );
                        }
                        return false;
                    }
                    next += 1;
                },
                _ => {
                    proof {
                        lemma_read_stops(index, messages@, (i + 1) as nat, messages@.len());
                    }
                    return true;
                },
            }
            i += 1;
        }
        true
    }

    /// Whether the task can be told `event` right now.
    pub fn ready_for<E, K>(&self, event: &TaskEvent<E, K>) -> (ready: bool)
        ensures
            ready == self@.accepts(*event),
    {
        match event {
            TaskEvent::Invoked(journal) => matches!(self.phase, TaskPhase::Created)
                && match journal {
                InvokeInputJournal::NoCachedJournal => true,
                InvokeInputJournal::CachedJournal(journal_metadata, entries) => self.can_replay(
                    journal_metadata,
                    entries,
                ),
            },
            TaskEvent::JournalRead(read) => matches!(self.phase, TaskPhase::ReadingJournal)
                && match read {
                Ok(journal) => self.can_replay(&journal.0, &journal.1),
                Err(_) => true,
            },
            TaskEvent::ResponseHead { .. } | TaskEvent::RequestFailed(_) | TaskEvent::RequestLost(
                _,
            ) => matches!(self.phase, TaskPhase::Replaying),
            TaskEvent::WriteFailed(_) => matches!(
                self.phase,
                TaskPhase::Replaying | TaskPhase::Streaming { .. }
            ),
            TaskEvent::Completion(_) | TaskEvent::CompletionsClosed => matches!(
                self.phase,
                TaskPhase::Streaming { bidi: true }
            ),
            TaskEvent::ResponseData { messages, .. } => matches!(
                self.phase,
                TaskPhase::Streaming { .. }
            ) && self.has_room_for(messages),
            TaskEvent::Failed(_) => !matches!(self.phase, TaskPhase::Terminated),
            TaskEvent::ResponseFailed(_) | TaskEvent::ResponseEnded => matches!(
                self.phase,
                TaskPhase::Streaming { .. }
            ),
        }
    }

    /// Starts the replay of a journal: the request is opened, the journal
    /// announced, and every entry sent in order. Afterwards the next
    /// entry is the one after the journal's last.
    fn replay<E, K>(&mut self, journal_metadata: JournalMetadata, entries: Vec<E>) -> (actions: Vec<
        TaskAction<E, K>,
    >)
        requires
            old(self)@.replayable(journal_metadata, entries@),
            old(self)@.next_journal_index == 0,
        ensures
            final(self)@ == (TaskState {
                phase: TaskPhase::Replaying,
                next_journal_index: journal_metadata.journal_size,
                journal_size: Some(journal_metadata.journal_size),
                ..old(self)@
            }),
            action_views(actions@) == old(self)@.replay::<E, K>(journal_metadata, entries@),
    {
        let ghost start = self@;
        let head = match self.prepare_request(&journal_metadata) {
            Some(head) => head,
            None => vstd::pervasive::unreached(),
        };
        let ghost opening = start.replay::<E, K>(journal_metadata, Seq::empty());
        let mut actions: Vec<TaskAction<E, K>> = Vec::new();
        actions.push(TaskAction::OpenRequest(head));
        actions.push(TaskAction::Send(self.write_start(&journal_metadata)));
        for entry in it: entries.into_iter()
            invariant
                it.seq() == entries@,
                entries@.len() == journal_metadata.journal_size,
                opening.len() == 2,
                self@ == (TaskState { next_journal_index: it.index() as EntryIndex, ..start }),
                action_views(actions@) == opening + replayed::<E, K>(entries@.take(it.index())),
        {
            let ghost so_far = action_views(actions@);
            actions.push(TaskAction::Send(ProtocolMessage::UnparsedEntry(entry)));
            self.next_journal_index += 1;
            assert(action_views(actions@) =~= so_far.push(
                ActionView::Send(MessageView::UnparsedEntry(entry)),
            ));
        }
        self.journal_size = Some(journal_metadata.journal_size);
        self.phase = TaskPhase::Replaying;
        actions
    }

    /// While the journal is on its way: a valid answer of the endpoint
    /// ends the replay and starts the streaming; an invalid one fails the
    /// task, and so does a request that is lost or breaks, unless it
    /// breaks gracefully, which closes the task.
    pub fn wait_response_and_replay_end_loop<E, K>(&mut self, event: TaskEvent<E, K>) -> (state:
        TerminalLoopState<()>)
        requires
            old(self)@.phase is Replaying,
            old(self)@.accepts(event),
        ensures
            state@ == old(self)@.outcome(event),
            final(self)@ == old(self)@.moved(event),
    {
        match event {
            TaskEvent::ResponseHead { status, content_type } => {
                let checked = validate_response(status, content_type);
                if checked.is_ok() {
                    self.phase = TaskPhase::Streaming { bidi: self.has_completions };
                }
                TerminalLoopState::from_result(checked)
            },
            TaskEvent::RequestFailed(error) => TerminalLoopState::from_transport_error(error),
            TaskEvent::RequestLost(reason) => TerminalLoopState::Failed(
                InvocationTaskError::UnexpectedJoinError(reason),
            ),
            TaskEvent::WriteFailed(error) => TerminalLoopState::from_result(Self::write(error)),
            TaskEvent::Failed(error) => TerminalLoopState::Failed(error),
            _ => vstd::pervasive::unreached(),
        }
    }

    /// While the task reads the response and forwards completions: a
    /// completion goes to the endpoint; once the invoker has no more, the
    /// task only reads on.
    pub fn bidi_stream_loop<E, K>(
        &mut self,
        event: TaskEvent<E, K>,
        actions: &mut Vec<TaskAction<E, K>>,
    ) -> (state: TerminalLoopState<()>)
        requires
            old(self)@.phase == (TaskPhase::Streaming { bidi: true }),
            old(self)@.accepts(event),
        ensures
            state@ == old(self)@.outcome(event),
            final(self)@ == old(self)@.moved(event),
            action_views(final(actions)@) == action_views(old(actions)@)
                + old(self)@.progress(event),
    {
        match event {
            TaskEvent::Completion(completion) => {
                actions.push(TaskAction::Send(ProtocolMessage::Completion(completion)));
                TerminalLoopState::Continue(())
            },
            TaskEvent::CompletionsClosed => {
                self.phase = TaskPhase::Streaming { bidi: false };
                TerminalLoopState::Continue(())
            },
            event => self.response_stream_loop(event, actions),
        }
    }

    /// While the task reads the response: entries are taken in, a
    /// suspension or an unexpected message ends the task, and so does the
    /// end of the response, which closes it.
    pub fn response_stream_loop<E, K>(
        &mut self,
        event: TaskEvent<E, K>,
        actions: &mut Vec<TaskAction<E, K>>,
    ) -> (state: TerminalLoopState<()>)
        requires
            old(self)@.phase is Streaming,
            old(self)@.accepts(event),
            !(event is Completion),
            !(event is CompletionsClosed),
        ensures
            state@ == old(self)@.outcome(event),
            final(self)@ == old(self)@.moved(event),
            action_views(final(actions)@) == action_views(old(actions)@)
                + old(self)@.progress(event),
    {
        match event {
            TaskEvent::ResponseData { messages, failure } => self.handle_read(
                messages,
                failure,
                actions,
            ),
            TaskEvent::ResponseFailed(error) => TerminalLoopState::from_transport_error(error),
            TaskEvent::ResponseEnded => TerminalLoopState::Closed,
            TaskEvent::WriteFailed(error) => TerminalLoopState::from_result(Self::write(error)),
            TaskEvent::Failed(error) => TerminalLoopState::Failed(error),
            _ => vstd::pervasive::unreached(),
        }
    }

    /// Takes `event` as far as the task goes on: tells whether it does, and
    /// what the caller has to do either way.
    pub fn run_internal<E, K>(&mut self, event: TaskEvent<E, K>) -> (taken: (
        TerminalLoopState<()>,
        Vec<TaskAction<E, K>>,
    ))
        requires
            old(self)@.wf(),
            old(self)@.accepts(event),
        ensures
            taken.0@ == old(self)@.outcome(event),
            final(self)@ == old(self)@.moved(event),
            action_views(taken.1@) == old(self)@.progress(event),
    {
        let mut actions: Vec<TaskAction<E, K>> = Vec::new();
        let state = match self.phase {
            TaskPhase::Created => match event {
                TaskEvent::Invoked(InvokeInputJournal::NoCachedJournal) => {
                    actions.push(TaskAction::ReadJournal);
                    self.phase = TaskPhase::ReadingJournal;
                    TerminalLoopState::Continue(())
                },
                TaskEvent::Invoked(InvokeInputJournal::CachedJournal(metadata, entries)) => {
                    actions = self.replay(metadata, entries);
                    TerminalLoopState::Continue(())
                },
                TaskEvent::Failed(error) => TerminalLoopState::Failed(error),
                _ => vstd::pervasive::unreached(),
            },
            TaskPhase::ReadingJournal => match event {
                TaskEvent::JournalRead(Ok((journal_metadata, entries))) => {
                    actions = self.replay(journal_metadata, entries);
                    TerminalLoopState::Continue(())
                },
                TaskEvent::JournalRead(Err(reason)) => TerminalLoopState::Failed(
                    InvocationTaskError::JournalReader(reason),
                ),
                TaskEvent::Failed(error) => TerminalLoopState::Failed(error),
                _ => vstd::pervasive::unreached(),
            },
            TaskPhase::Replaying => self.wait_response_and_replay_end_loop(event),
            TaskPhase::Streaming { bidi } => {
                if bidi {
                    self.bidi_stream_loop(event, &mut actions)
                } else {
                    self.response_stream_loop(event, &mut actions)
                }
            },
            TaskPhase::Terminated => vstd::pervasive::unreached(),
        };
        (state, actions)
    }

    /// Tells the task that `event` happened. It answers with what the
    /// caller has to do now, in this order. If the event ends the task,
    /// the answer ends with the last report, and the task accepts nothing
    /// more.
    pub fn run<E, K>(&mut self, event: TaskEvent<E, K>) -> (actions: Vec<TaskAction<E, K>>)
        requires
            old(self)@.wf(),
            old(self)@.accepts(event),
        ensures
            final(self)@ == old(self)@.next(event),
            final(self)@.wf(),
            action_views(actions@) == old(self)@.answer(event),
    {
        let (state, mut actions) = self.run_internal(event);
        match state {
            TerminalLoopState::Continue(_) => {},
            terminal => {
                let report = InvocationTaskOutputInner::from_terminal(terminal);
                actions.push(TaskAction::Emit(report));
                self.phase = TaskPhase::Terminated;
            },
        }
        actions
    }

    /// Tells the task that `event` happened, if the task can be told so
    /// right now: see `run`. Otherwise nothing happens, and the answer is
    /// `None`.
    pub fn offer<E, K>(&mut self, event: TaskEvent<E, K>) -> (answer: Option<Vec<TaskAction<E, K>>>)
        requires
            old(self)@.wf(),
        ensures
            final(self)@.wf(),
            answer is Some <==> old(self)@.accepts(event),
            match answer {
                Some(actions) => final(self)@ == old(self)@.next(event) && action_views(actions@)
                    == old(self)@.answer(event),
                None => final(self)@ == old(self)@,
            },
    {
        if self.ready_for(&event) {
            Some(self.run(event))
        } else {
            None
        }
    }
}

} // verus!
