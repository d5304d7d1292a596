//! The invocation task as a state machine: what it knows between two
//! events, which events it accepts, and what it answers.
//!
//! A task replays the journal of one invocation to a service endpoint,
//! forwards completions, takes in the entries the endpoint produces, and
//! ends with exactly one report: closed, suspended, or failed.

use vstd::prelude::*;
use std::collections::HashSet;
use crate::error::{EncodingError, InvocationTaskError};
use crate::protocol::{
    EntryIndex, MessageType, MessageView, PartitionLeaderEpoch, ProtocolMessage,
    ServiceInvocationIdView,
};
use crate::request::{
    prepared_request, request_uri_of, valid_response, EndpointMetadata, JournalMetadata,
    RequestHead, RequestHeadView,
};
use crate::transport::TransportError;

verus! {

/// What a task reports to the invoker.
#[derive(Debug, PartialEq, Eq)]
pub enum InvocationTaskOutputInner<E> {
    /// The endpoint produced a journal entry.
    NewEntry { entry_index: EntryIndex, raw_entry: E },
    /// The stream ended.
    Closed,
    /// The endpoint suspended until one of these entries is completed.
    Suspended(HashSet<EntryIndex>),
    /// The task failed.
    Failed(InvocationTaskError),
}

/// An `InvocationTaskOutputInner` with its set as a mathematical one.
pub enum OutputView<E> {
    NewEntry { entry_index: EntryIndex, raw_entry: E },
    Closed,
    Suspended(Set<EntryIndex>),
    Failed(InvocationTaskError),
}

impl<E> View for InvocationTaskOutputInner<E> {
    type V = OutputView<E>;

    open spec fn view(&self) -> OutputView<E> {
        match *self {
            InvocationTaskOutputInner::NewEntry { entry_index, raw_entry } => OutputView::NewEntry {
                entry_index,
                raw_entry,
            },
            InvocationTaskOutputInner::Closed => OutputView::Closed,
            InvocationTaskOutputInner::Suspended(indexes) => OutputView::Suspended(indexes@),
            InvocationTaskOutputInner::Failed(error) => OutputView::Failed(error),
        }
    }
}

impl<E> OutputView<E> {
    /// Whether this is a task's last word.
    pub open spec fn is_terminal(self) -> bool {
        !(self is NewEntry)
    }
}

/// How a step of a task ended: it goes on, or it is over in one of three
/// ways.
#[derive(Debug, PartialEq, Eq)]
pub enum TerminalLoopState<T> {
    Continue(T),
    Closed,
    Suspended(HashSet<EntryIndex>),
    Failed(InvocationTaskError),
}

/// A `TerminalLoopState` with its set as a mathematical one.
pub enum TerminalView<T> {
    Continue(T),
    Closed,
    Suspended(Set<EntryIndex>),
    Failed(InvocationTaskError),
}

impl<T> View for TerminalLoopState<T> {
    type V = TerminalView<T>;

    open spec fn view(&self) -> TerminalView<T> {
        match *self {
            TerminalLoopState::Continue(value) => TerminalView::Continue(value),
            TerminalLoopState::Closed => TerminalView::Closed,
            TerminalLoopState::Suspended(indexes) => TerminalView::Suspended(indexes@),
            TerminalLoopState::Failed(error) => TerminalView::Failed(error),
        }
    }
}

impl<T> TerminalView<T> {
    /// The report with which a task that is over ends.
    pub open spec fn report<E>(self) -> Option<OutputView<E>> {
        match self {
            TerminalView::Continue(_) => None,
            TerminalView::Closed => Some(OutputView::Closed),
            TerminalView::Suspended(indexes) => Some(OutputView::Suspended(indexes)),
            TerminalView::Failed(error) => Some(OutputView::Failed(error)),
        }
    }
}

/// How a broken connection ends a task: a graceful shutdown closes it,
/// anything else fails it.
pub open spec fn broken<T>(error: TransportError) -> TerminalView<T> {
    if error.spec_is_graceful() {
        TerminalView::Closed
    } else {
        TerminalView::Failed(InvocationTaskError::Network(error))
    }
}

/// The journal a task is started with.
#[derive(Debug)]
pub enum InvokeInputJournal<E> {
    /// The task has to ask the journal reader.
    NoCachedJournal,
    /// The journal is at hand.
    CachedJournal(JournalMetadata, Vec<E>),
}

/// What can happen to a task.
#[derive(Debug)]
pub enum TaskEvent<E, K> {
    /// The invoker started the task.
    Invoked(InvokeInputJournal<E>),
    /// The journal reader answered: the journal, or why there is none.
    JournalRead(Result<(JournalMetadata, Vec<E>), String>),
    /// The endpoint answered the request.
    ResponseHead { status: u16, content_type: Option<String> },
    /// The request failed before the endpoint answered.
    RequestFailed(TransportError),
    /// The request was lost inside the client.
    RequestLost(String),
    /// A message could not be written to the request.
    WriteFailed(TransportError),
    /// The invoker completed an entry.
    Completion(K),
    /// The invoker will complete no more entries.
    CompletionsClosed,
    /// A piece of the response arrived. It held these messages, and then,
    /// possibly, something that is no message.
    ResponseData { messages: Vec<ProtocolMessage<E, K>>, failure: Option<EncodingError> },
    /// The response broke off.
    ResponseFailed(TransportError),
    /// The response ended.
    ResponseEnded,
    /// The caller could not carry out what it was told, for this reason.
    Failed(InvocationTaskError),
}

/// One thing the caller has to do for a task, in the order given.
#[derive(Debug, PartialEq, Eq)]
pub enum TaskAction<E, K> {
    /// Ask the journal reader for the journal of the invocation.
    ReadJournal,
    /// Open the request with this head, and a body to stream into.
    OpenRequest(RequestHead),
    /// Write the message to the request. A write that fails because the
    /// channel was closed is none of the task's business; any other
    /// failure is reported back.
    Send(ProtocolMessage<E, K>),
    /// Report to the invoker.
    Emit(InvocationTaskOutputInner<E>),
}

/// A `TaskAction` by the views of what it holds.
pub enum ActionView<E, K> {
    ReadJournal,
    OpenRequest(RequestHeadView),
    Send(MessageView<E, K>),
    Emit(OutputView<E>),
}

impl<E, K> View for TaskAction<E, K> {
    type V = ActionView<E, K>;

    open spec fn view(&self) -> ActionView<E, K> {
        match *self {
            TaskAction::ReadJournal => ActionView::ReadJournal,
            TaskAction::OpenRequest(head) => ActionView::OpenRequest(head@),
            TaskAction::Send(message) => ActionView::Send(message@),
            TaskAction::Emit(output) => ActionView::Emit(output@),
        }
    }
}

impl<E, K> ActionView<E, K> {
    /// Whether this action is a task's last report.
    pub open spec fn is_terminal(self) -> bool {
        self matches ActionView::Emit(output) && output.is_terminal()
    }
}

/// Actions by their views.
pub open spec fn action_views<E, K>(actions: Seq<TaskAction<E, K>>) -> Seq<ActionView<E, K>> {
    Seq::new(actions.len(), |i: int| actions[i]@)
}

/// Where a task is in its life.
#[derive(Clone, Copy, Debug, PartialEq, Eq, Structural)]
pub enum TaskPhase {
    /// Made, and not started yet.
    Created,
    /// Waiting for the journal reader.
    ReadingJournal,
    /// The journal is on its way to the endpoint, which has not answered
    /// yet.
    Replaying,
    /// The endpoint answered: the task reads the response and, while
    /// `bidi` holds, forwards completions.
    Streaming { bidi: bool },
    /// Over: the task has made its last report.
    Terminated,
}

/// Everything a task knows between two events.
pub struct TaskState {
    pub partition: PartitionLeaderEpoch,
    pub service_invocation_id: ServiceInvocationIdView,
    pub endpoint_metadata: EndpointMetadata,
    pub protocol_version: u16,
    /// Whether the invoker may complete entries while the task runs.
    pub has_completions: bool,
    /// The index of the next entry of the journal.
    pub next_journal_index: EntryIndex,
    /// The number of entries the journal held when the task began, once
    /// that is known.
    pub journal_size: Option<EntryIndex>,
    pub phase: TaskPhase,
}

/// What a task has made of a piece of the response.
pub struct ReadState<E> {
    /// The index of the next entry.
    pub index: int,
    /// The entries taken in, as they are reported.
    pub emitted: Seq<OutputView<E>>,
    /// Whether the task goes on.
    pub state: TerminalView<()>,
}

/// How one message of the endpoint ends a step. Only a task may open a
/// stream or complete an entry; a suspension is the endpoint's last word;
/// an entry lets the task go on.
pub open spec fn message_outcome<E, K>(message: ProtocolMessage<E, K>) -> TerminalView<()> {
    match message {
        ProtocolMessage::Start { .. } => TerminalView::Failed(
            InvocationTaskError::UnexpectedMessage(MessageType::Start),
        ),
        ProtocolMessage::Completion(_) => TerminalView::Failed(
            InvocationTaskError::UnexpectedMessage(MessageType::Completion),
        ),
        ProtocolMessage::Suspension { entry_indexes } => TerminalView::Suspended(
            entry_indexes@.to_set(),
        ),
        ProtocolMessage::UnparsedEntry(_) => TerminalView::Continue(()),
    }
}

/// What a task has made of the first `n` messages, starting with the entry
/// index `index`: each entry is reported under the next index, and the
/// first message that ends the task ends the reading too.
pub open spec fn read<E, K>(
    index: int,
    messages: Seq<ProtocolMessage<E, K>>,
    n: nat,
) -> ReadState<E>
    decreases n,
{
    if n == 0 {
        ReadState { index, emitted: Seq::empty(), state: TerminalView::Continue(()) }
    } else {
        let before = read(index, messages, (n - 1) as nat);
        if !(before.state is Continue) {
            before
        } else {
            match messages[n - 1] {
                ProtocolMessage::UnparsedEntry(raw_entry) => ReadState {
                    index: before.index + 1,
                    emitted: before.emitted.push(
                        OutputView::NewEntry { entry_index: before.index as EntryIndex, raw_entry },
                    ),
                    state: TerminalView::Continue(()),
                },
                message => ReadState { state: message_outcome(message), ..before },
            }
        }
    }
}

/// What a task makes of a whole piece of the response: of its messages
/// first, and then of what could not be decoded, if the messages let the
/// task go on.
pub open spec fn read_all<E, K>(
    index: int,
    messages: Seq<ProtocolMessage<E, K>>,
    failure: Option<EncodingError>,
) -> ReadState<E> {
    let done = read(index, messages, messages.len());
    match (done.state, failure) {
        (TerminalView::Continue(_), Some(error)) => ReadState {
            state: TerminalView::Failed(InvocationTaskError::Encoding(error)),
            ..done
        },
        _ => done,
    }
}

/// Reports as the actions that make them.
pub open spec fn emissions<E, K>(outputs: Seq<OutputView<E>>) -> Seq<ActionView<E, K>> {
    Seq::new(outputs.len(), |i: int| ActionView::Emit(outputs[i]))
}

/// The entries of a journal as the messages that replay them.
pub open spec fn replayed<E, K>(entries: Seq<E>) -> Seq<ActionView<E, K>> {
    Seq::new(entries.len(), |i: int| ActionView::Send(MessageView::UnparsedEntry(entries[i])))
}

impl TaskState {
    /// Whether a journal can be replayed: it holds as many entries as it
    /// says, and endpoint, service and method make an address.
    pub open spec fn replayable<E>(self, metadata: JournalMetadata, entries: Seq<E>) -> bool {
        &&& entries.len() == metadata.journal_size
        &&& request_uri_of(
            self.endpoint_metadata.address,
            self.service_invocation_id.service_name,
            metadata.method@,
        ) is Some
    }

    /// The journal that `event` brings, if it brings one.
    pub open spec fn journal_of<E, K>(event: TaskEvent<E, K>) -> Option<(JournalMetadata, Vec<E>)> {
        match event {
            TaskEvent::Invoked(InvokeInputJournal::CachedJournal(metadata, entries)) => Some(
                (metadata, entries),
            ),
            TaskEvent::JournalRead(Ok(journal)) => Some(journal),
            _ => None,
        }
    }

    /// What a task in this state can be told.
    pub open spec fn accepts<E, K>(self, event: TaskEvent<E, K>) -> bool {
        &&& match event {
            TaskEvent::Invoked(_) => self.phase is Created,
            TaskEvent::JournalRead(_) => self.phase is ReadingJournal,
            TaskEvent::ResponseHead { .. } | TaskEvent::RequestFailed(_) | TaskEvent::RequestLost(
                _,
            ) => self.phase is Replaying,
            TaskEvent::WriteFailed(_) => self.phase is Replaying || self.phase is Streaming,
            TaskEvent::Completion(_) | TaskEvent::CompletionsClosed => self.phase
                == (TaskPhase::Streaming { bidi: true }),
            TaskEvent::ResponseData { messages, .. } => self.phase is Streaming && read(
                self.next_journal_index as int,
                messages@,
                messages@.len(),
            ).index <= u32::MAX,
            TaskEvent::ResponseFailed(_) | TaskEvent::ResponseEnded => self.phase is Streaming,
            TaskEvent::Failed(_) => !(self.phase is Terminated),
        }
        &&& Self::journal_of(event) matches Some(journal) ==> self.replayable(
            journal.0,
            journal.1@,
        )
    }

    /// How `event` ends the step it starts.
    pub open spec fn outcome<E, K>(self, event: TaskEvent<E, K>) -> TerminalView<()> {
        match event {
            TaskEvent::JournalRead(Err(reason)) => TerminalView::Failed(
                InvocationTaskError::JournalReader(reason),
            ),
            TaskEvent::ResponseHead { status, content_type } => if valid_response(
                status,
                content_type,
            ) {
                TerminalView::Continue(())
            } else if 200 <= status < 300 {
                TerminalView::Failed(InvocationTaskError::UnexpectedContentType(content_type))
            } else {
                TerminalView::Failed(InvocationTaskError::UnexpectedResponse(status))
            },
            TaskEvent::RequestFailed(error) => broken(error),
            TaskEvent::RequestLost(reason) => TerminalView::Failed(
                InvocationTaskError::UnexpectedJoinError(reason),
            ),
            TaskEvent::WriteFailed(error) => if error.spec_is_closed() {
                TerminalView::Continue(())
            } else {
                TerminalView::Failed(InvocationTaskError::Network(error))
            },
            TaskEvent::ResponseData { messages, failure } => read_all::<E, K>(
                self.next_journal_index as int,
                messages@,
                failure,
            ).state,
            TaskEvent::ResponseFailed(error) => broken(error),
            TaskEvent::ResponseEnded => TerminalView::Closed,
            TaskEvent::Failed(error) => TerminalView::Failed(error),
            _ => TerminalView::Continue(()),
        }
    }

    /// The state after `event` as far as the task goes on: a journal
    /// starts the replay, a valid answer starts the streaming, and every
    /// entry taken in moves the index.
    pub open spec fn moved<E, K>(self, event: TaskEvent<E, K>) -> TaskState {
        match event {
            TaskEvent::Invoked(InvokeInputJournal::NoCachedJournal) => TaskState {
                phase: TaskPhase::ReadingJournal,
                ..self
            },
            TaskEvent::ResponseHead { status, content_type } => if valid_response(
                status,
                content_type,
            ) {
                TaskState { phase: TaskPhase::Streaming { bidi: self.has_completions }, ..self }
            } else {
                self
            },
            TaskEvent::CompletionsClosed => TaskState {
                phase: TaskPhase::Streaming { bidi: false },
                ..self
            },
            TaskEvent::ResponseData { messages, failure } => TaskState {
                next_journal_index: read_all::<E, K>(
                    self.next_journal_index as int,
                    messages@,
                    failure,
                ).index as EntryIndex,
                ..self
            },
            _ => match Self::journal_of(event) {
                Some(journal) => TaskState {
                    phase: TaskPhase::Replaying,
                    next_journal_index: journal.0.journal_size,
                    journal_size: Some(journal.0.journal_size),
                    ..self
                },
                None => self,
            },
        }
    }

    /// The state after `event`: over, if the event ends the task.
    pub open spec fn next<E, K>(self, event: TaskEvent<E, K>) -> TaskState {
        if self.outcome(event) is Continue {
            self.moved(event)
        } else {
            TaskState { phase: TaskPhase::Terminated, ..self.moved(event) }
        }
    }

    /// What `event` makes a task do before it is known whether the task
    /// goes on: ask for the journal; open the request, announce the
    /// journal and replay it; forward a completion; report the entries
    /// taken in.
    pub open spec fn progress<E, K>(self, event: TaskEvent<E, K>) -> Seq<ActionView<E, K>> {
        match event {
            TaskEvent::Invoked(InvokeInputJournal::NoCachedJournal) => seq![
                ActionView::<E, K>::ReadJournal,
            ],
            TaskEvent::Completion(completion) => seq![
                ActionView::<E, K>::Send(MessageView::Completion(completion)),
            ],
            TaskEvent::ResponseData { messages, failure } => emissions(
                read_all::<E, K>(self.next_journal_index as int, messages@, failure).emitted,
            ),
            _ => match Self::journal_of(event) {
                Some(journal) => self.replay(journal.0, journal.1@),
                None => Seq::empty(),
            },
        }
    }

    /// What replays a journal: the request is opened, with the trace
    /// context of the journal in its headers, the journal is announced
    /// with its size, and its entries follow in order.
    pub open spec fn replay<E, K>(self, metadata: JournalMetadata, entries: Seq<E>) -> Seq<
        ActionView<E, K>,
    > {
        seq![
            ActionView::<E, K>::OpenRequest(
                prepared_request(
                    self.endpoint_metadata,
                    self.service_invocation_id.service_name,
                    metadata,
                )->Some_0,
            ),
            ActionView::<E, K>::Send(
                MessageView::Start {
                    invocation_id: self.service_invocation_id.invocation_id,
                    instance_key: self.service_invocation_id.key,
                    known_entries: metadata.journal_size,
                },
            ),
        ] + replayed(entries)
    }

    /// What a task answers to `event`: what the event makes it do, and
    /// then its last report, if the event ends it.
    pub open spec fn answer<E, K>(self, event: TaskEvent<E, K>) -> Seq<ActionView<E, K>> {
        match self.outcome(event).report::<E>() {
            Some(report) => self.progress(event).push(ActionView::Emit(report)),
            None => self.progress(event),
        }
    }

    /// Before the journal is at hand no entry is counted, and while it is
    /// being replayed the next entry is the one after the journal's last.
    pub open spec fn wf(self) -> bool {
        &&& self.phase is Created || self.phase is ReadingJournal ==> self.next_journal_index == 0
        &&& self.phase is Replaying ==> self.journal_size == Some(self.next_journal_index)
    }
}

} // verus!
