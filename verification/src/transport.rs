//! What a task learns when the connection to the endpoint breaks.

use vstd::prelude::*;

verus! {

/// `h2::Error`, an error of the HTTP/2 connection. The verifier sees
/// nothing inside it.
#[verifier::external_type_specification]
#[verifier::external_body]
pub struct ExH2Error(h2::Error);

/// What `reason_code` answers: the HTTP/2 error code that an error of the
/// connection carries, if it carries one.
pub uninterp spec fn reason_code_of(error: h2::Error) -> Option<u32>;

/// Calls `h2::Error::reason`: the HTTP/2 error code with which the peer
/// reset the stream or went away, if that is what the error is. The result
/// is named `reason_code_of`; the call reads the error and nothing else.
#[verifier::external_body]
fn reason_code(error: &h2::Error) -> (code: Option<u32>)
    ensures
        code == reason_code_of(*error),
{
    error.reason().map(u32::from)
}

/// Reads `h2::Reason::NO_ERROR`, the code of a graceful shutdown, which is 0.
#[verifier::external_body]
fn no_error_code() -> (code: u32)
    ensures
        code == 0,
{
    h2::Reason::NO_ERROR.into()
}

/// Reads `h2::Reason::INTERNAL_ERROR`, the code of an unexpected failure,
/// which is 2.
#[verifier::external_body]
fn internal_error_code() -> (code: u32)
    ensures
        code == 2,
{
    h2::Reason::INTERNAL_ERROR.into()
}

/// The code of a graceful shutdown.
pub open spec fn no_error() -> u32 {
    0
}

/// The code assumed where the peer gave none.
pub open spec fn internal_error() -> u32 {
    2
}

/// The code of a broken connection: the one the peer gave, an internal
/// error where it gave none.
pub open spec fn reason_or_internal_error(reason: Option<u32>) -> u32 {
    match reason {
        Some(code) => code,
        None => internal_error(),
    }
}

/// The code that stands for `reason`.
pub fn reason_of(reason: Option<u32>) -> (code: u32)
    ensures
        code == reason_or_internal_error(reason),
{
    match reason {
        Some(code) => code,
        None => internal_error_code(),
    }
}

/// The code behind a broken connection, given the HTTP/2 error found among
/// its causes, if one was found: the code that error carries, and an
/// internal error where none was found or the one found carries no code.
pub open spec fn h2_reason_of(source: Option<&h2::Error>) -> u32 {
    match source {
        Some(error) => reason_or_internal_error(reason_code_of(*error)),
        None => internal_error(),
    }
}

/// The code behind a broken connection, given the HTTP/2 error found among
/// its causes, if one was found.
pub fn h2_reason(source: Option<&h2::Error>) -> (code: u32)
    ensures
        code == h2_reason_of(source),
{
    let reason: Option<u32> = match source {
        Some(error) => reason_code(error),
        None => None,
    };
    reason_of(reason)
}

/// A failure of the connection to the endpoint, as far as a task looks at
/// it.
#[derive(Debug, PartialEq, Eq)]
pub struct TransportError {
    /// The HTTP/2 error code behind the failure.
    pub h2_reason: u32,
    /// Whether the failure is that the request channel was closed.
    pub closed: bool,
    /// The failure in words.
    pub message: String,
}

impl TransportError {
    pub open spec fn spec_is_graceful(&self) -> bool {
        self.h2_reason == no_error()
    }

    /// Whether the peer shut the stream down without an error.
    #[verifier::when_used_as_spec(spec_is_graceful)]
    pub fn is_graceful(&self) -> (graceful: bool)
        ensures
            graceful == self.spec_is_graceful(),
    {
        self.h2_reason == no_error_code()
    }

    pub open spec fn spec_is_closed(&self) -> bool {
        self.closed
    }

    /// Whether the failure is that the request channel was closed, as
    /// happens when the endpoint suspends.
    #[verifier::when_used_as_spec(spec_is_closed)]
    pub fn is_closed(&self) -> (closed: bool)
        ensures
            closed == self.spec_is_closed(),
    {
        self.closed
    }
}

} // verus!
