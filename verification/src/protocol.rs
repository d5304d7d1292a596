//! The messages an invocation task exchanges with a service endpoint, and
//! the names under which an invocation is known.
//!
//! Journal entries and completions pass through a task untouched: their
//! types, `E` and `K`, are the caller's.

use vstd::prelude::*;
use crate::identifiers::{LeaderEpoch, PartitionId};

verus! {

/// The position of an entry in the journal of an invocation.
pub type EntryIndex = u32;

/// The partition that owns an invocation, under the epoch of the leader
/// that started its task.
pub type PartitionLeaderEpoch = (PartitionId, LeaderEpoch);

/// A service, and the key of one of its instances.
#[derive(Debug, PartialEq, Eq)]
pub struct ServiceId {
    pub service_name: String,
    pub key: Vec<u8>,
}

/// One invocation of one service instance.
#[derive(Debug, PartialEq, Eq)]
pub struct ServiceInvocationId {
    pub service_id: ServiceId,
    pub invocation_id: Vec<u8>,
}

/// A `ServiceInvocationId` by its characters and bytes.
pub struct ServiceInvocationIdView {
    pub service_name: Seq<char>,
    pub key: Seq<u8>,
    pub invocation_id: Seq<u8>,
}

impl View for ServiceInvocationId {
    type V = ServiceInvocationIdView;

    open spec fn view(&self) -> ServiceInvocationIdView {
        ServiceInvocationIdView {
            service_name: self.service_id.service_name@,
            key: self.service_id.key@,
            invocation_id: self.invocation_id@,
        }
    }
}

/// A copy of `bytes`.
pub fn copy_bytes(bytes: &Vec<u8>) -> (copy: Vec<u8>)
    ensures
        copy@ == bytes@,
{
    let mut copy: Vec<u8> = Vec::new();
    let mut i: usize = 0;
    while i < bytes.len()
        invariant
            i <= bytes.len(),
            copy@ == bytes@.subrange(0, i as int),
        decreases bytes.len() - i,
    {
        copy.push(bytes[i]);
        i += 1;
    }
    copy
}

impl ServiceInvocationId {
    /// A copy under which one more output of the task can be reported.
    pub fn duplicate(&self) -> (copy: ServiceInvocationId)
        ensures
            copy@ == self@,
    {
        ServiceInvocationId {
            service_id: ServiceId {
                service_name: self.service_id.service_name.clone(),
                key: copy_bytes(&self.service_id.key),
            },
            invocation_id: copy_bytes(&self.invocation_id),
        }
    }
}

/// The kinds of message of the protocol.
#[derive(Clone, Copy, Debug, PartialEq, Eq, Structural)]
pub enum MessageType {
    Start,
    Completion,
    Suspension,
    Entry,
}

/// One framed message of the protocol.
#[derive(Debug, PartialEq, Eq)]
pub enum ProtocolMessage<E, K> {
    /// Opens the stream: which invocation this is, and how many journal
    /// entries are about to be replayed.
    Start { invocation_id: Vec<u8>, instance_key: Vec<u8>, known_entries: u32 },
    /// The result of an entry that the endpoint is waiting for.
    Completion(K),
    /// The endpoint suspends until one of these entries is completed.
    Suspension { entry_indexes: Vec<EntryIndex> },
    /// A journal entry, unparsed.
    UnparsedEntry(E),
}

/// A `ProtocolMessage` by its bytes and numbers.
pub enum MessageView<E, K> {
    Start { invocation_id: Seq<u8>, instance_key: Seq<u8>, known_entries: u32 },
    Completion(K),
    Suspension { entry_indexes: Seq<EntryIndex> },
    UnparsedEntry(E),
}

impl<E, K> View for ProtocolMessage<E, K> {
    type V = MessageView<E, K>;

    open spec fn view(&self) -> MessageView<E, K> {
        match *self {
            ProtocolMessage::Start { invocation_id, instance_key, known_entries } => {
                MessageView::Start {
                    invocation_id: invocation_id@,
                    instance_key: instance_key@,
                    known_entries,
                }
            },
            ProtocolMessage::Completion(completion) => MessageView::Completion(completion),
            ProtocolMessage::Suspension { entry_indexes } => MessageView::Suspension {
                entry_indexes: entry_indexes@,
            },
            ProtocolMessage::UnparsedEntry(entry) => MessageView::UnparsedEntry(entry),
        }
    }
}

impl<E, K> ProtocolMessage<E, K> {
    pub open spec fn spec_message_type(&self) -> MessageType {
        match *self {
            ProtocolMessage::Start { .. } => MessageType::Start,
            ProtocolMessage::Completion(_) => MessageType::Completion,
            ProtocolMessage::Suspension { .. } => MessageType::Suspension,
            ProtocolMessage::UnparsedEntry(_) => MessageType::Entry,
        }
    }

    /// The kind of this message.
    #[verifier::when_used_as_spec(spec_message_type)]
    pub fn message_type(&self) -> (kind: MessageType)
        ensures
            kind == self.spec_message_type(),
    {
        match self {
            ProtocolMessage::Start { .. } => MessageType::Start,
            ProtocolMessage::Completion(_) => MessageType::Completion,
            ProtocolMessage::Suspension { .. } => MessageType::Suspension,
            ProtocolMessage::UnparsedEntry(_) => MessageType::Entry,
        }
    }

    /// The message that opens the stream of the invocation `sid`, whose
    /// journal holds `journal_size` entries.
    pub fn new_start_message(sid: &ServiceInvocationId, journal_size: u32) -> (message: Self)
        ensures
            message@ == (MessageView::<E, K>::Start {
                invocation_id: sid@.invocation_id,
                instance_key: sid@.key,
                known_entries: journal_size,
            }),
    {
        ProtocolMessage::Start {
            invocation_id: copy_bytes(&sid.invocation_id),
            instance_key: copy_bytes(&sid.service_id.key),
            known_entries: journal_size,
        }
    }
}

} // verus!
