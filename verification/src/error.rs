//! How an invocation task can fail.

use vstd::prelude::*;
use crate::protocol::MessageType;
use crate::transport::TransportError;

verus! {

/// A frame that could not be encoded or decoded.
#[derive(Debug, PartialEq, Eq)]
pub struct EncodingError(pub String);

/// Why an invocation task failed. None of these stops the partition: the
/// failure is the task's last word, and the state machine decides whether
/// to try again.
#[derive(Debug, PartialEq, Eq)]
pub enum InvocationTaskError {
    /// The endpoint answered with a status that is no success.
    UnexpectedResponse(u16),
    /// The endpoint answered with another content type than the
    /// protocol's, or with none.
    UnexpectedContentType(Option<String>),
    /// The endpoint sent a message that only a task may send.
    UnexpectedMessage(MessageType),
    /// A frame could not be encoded or decoded.
    Encoding(EncodingError),
    /// The journal could not be read.
    JournalReader(String),
    /// The connection failed.
    Network(TransportError),
    /// The request was lost inside the client.
    UnexpectedJoinError(String),
    /// Anything else.
    Other(String),
}

} // verus!
