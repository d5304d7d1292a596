//! Answering the ingress when it asks for the output of an invocation:
//! which partition to ask, which invocation is meant, and what its status
//! amounts to.
//!
//! The payloads that only pass through are the caller's: `W` names a
//! workflow, `I` an idempotent request, `T` the target of an invocation,
//! `S` the value of a success, `F` that of a failure, and `R` the request
//! of the ingress that a response answers.

use vstd::prelude::*;
use crate::identifiers::{PartitionId, PartitionKey, PartitionKeyRange};

verus! {

/// One invocation, and the key of the partition that owns it.
#[derive(Clone, Copy, Debug, PartialEq, Eq, Structural)]
pub struct InvocationId {
    pub partition_key: PartitionKey,
    pub invocation_uuid: u128,
}

/// What the ingress asks about: an invocation by its identifier, the run
/// of a workflow, or the invocation behind an idempotent request.
#[derive(Debug, PartialEq, Eq)]
pub enum InvocationQuery<W, I> {
    Invocation(InvocationId),
    Workflow { partition_key: PartitionKey, service_id: W },
    IdempotencyId { partition_key: PartitionKey, idempotency_id: I },
}

impl<W, I> InvocationQuery<W, I> {
    pub open spec fn spec_partition_key(&self) -> PartitionKey {
        match *self {
            InvocationQuery::Invocation(invocation_id) => invocation_id.partition_key,
            InvocationQuery::Workflow { partition_key, .. } => partition_key,
            InvocationQuery::IdempotencyId { partition_key, .. } => partition_key,
        }
    }

    /// The key of the partition that can answer the query.
    #[verifier::when_used_as_spec(spec_partition_key)]
    pub fn partition_key(&self) -> (key: PartitionKey)
        ensures
            key == self.spec_partition_key(),
    {
        match self {
            InvocationQuery::Invocation(invocation_id) => invocation_id.partition_key,
            InvocationQuery::Workflow { partition_key, .. } => *partition_key,
            InvocationQuery::IdempotencyId { partition_key, .. } => *partition_key,
        }
    }
}

/// Whether an instance of a virtual object or a workflow is in use.
#[derive(Clone, Copy, Debug, PartialEq, Eq, Structural)]
pub enum VirtualObjectStatus {
    Locked(InvocationId),
    Unlocked,
}

/// What the store has to be asked before a query can be resolved.
#[derive(Clone, Copy, Debug, PartialEq, Eq, Structural)]
pub enum Lookup {
    /// Nothing: the query names the invocation.
    Nothing,
    /// Which invocation holds the lock of the workflow.
    VirtualObjectStatus,
    /// Which invocation the idempotent request started.
    IdempotencyMetadata,
}

/// What the store answered.
#[derive(Clone, Copy, Debug, PartialEq, Eq, Structural)]
pub enum Found {
    Nothing,
    VirtualObjectStatus(VirtualObjectStatus),
    /// The invocation recorded for the idempotent request, if any.
    IdempotencyMetadata(Option<InvocationId>),
}

#[derive(Clone, Copy, Debug, PartialEq, Eq, Structural)]
pub enum VirtualObjectHandlerType {
    Exclusive,
    Shared,
}

#[derive(Clone, Copy, Debug, PartialEq, Eq, Structural)]
pub enum WorkflowHandlerType {
    Workflow,
    Shared,
}

#[derive(Clone, Copy, Debug, PartialEq, Eq, Structural)]
pub enum InvocationTargetType {
    Service,
    VirtualObject(VirtualObjectHandlerType),
    Workflow(WorkflowHandlerType),
}

/// What is recorded of an invocation whatever its status.
#[derive(Debug, PartialEq, Eq)]
pub struct InvocationMetadata<T> {
    pub invocation_target: T,
    pub target_type: InvocationTargetType,
    pub has_idempotency_key: bool,
}

#[derive(Debug, PartialEq, Eq)]
pub enum ResponseResult<S, F> {
    Success(S),
    Failure(F),
}

/// The status of an invocation in the store.
#[derive(Debug, PartialEq, Eq)]
pub enum InvocationStatus<T, S, F> {
    /// Nothing is known of the invocation.
    Free,
    Invoked(InvocationMetadata<T>),
    Suspended(InvocationMetadata<T>),
    Completed { metadata: InvocationMetadata<T>, response_result: ResponseResult<S, F> },
}

#[derive(Debug, PartialEq, Eq)]
pub enum IngressResponseResult<T, S, F> {
    Success(T, S),
    Failure(F),
}

#[derive(Debug, PartialEq, Eq)]
pub struct InvocationResponse<T, S, F, R> {
    pub request_id: R,
    pub response: IngressResponseResult<T, S, F>,
    pub invocation_id: Option<InvocationId>,
}

/// What the ingress is told.
#[derive(Debug, PartialEq, Eq)]
pub enum GetOutputResult<T, S, F, R> {
    Ready(InvocationResponse<T, S, F, R>),
    NotFound,
    NotReady,
    NotSupported,
}

/// Why the ingress got no answer.
#[derive(Clone, Copy, Debug, PartialEq, Eq, Structural)]
pub enum GetOutputError {
    /// No partition owns the key.
    PartitionNotFound(PartitionKey),
    /// This node has no store for the partition.
    PartitionStoreNotFound(PartitionId),
    /// The store failed.
    Storage,
}

/// The output of an invocation can be fetched only if the invocation was
/// started idempotently or runs a workflow.
pub open spec fn fetchable<T>(metadata: InvocationMetadata<T>) -> bool {
    metadata.has_idempotency_key || metadata.target_type == InvocationTargetType::Workflow(
        WorkflowHandlerType::Workflow,
    )
}

/// The invocation that a query means, given what the store answered and
/// the identifier derived from the query itself: the one named; else the
/// one that holds the workflow's lock or was recorded for the idempotent
/// request; else the derived one.
pub open spec fn resolved<W, I>(
    query: InvocationQuery<W, I>,
    found: Found,
    derived: InvocationId,
) -> InvocationId {
    match query {
        InvocationQuery::Invocation(invocation_id) => invocation_id,
        InvocationQuery::Workflow { .. } => match found {
            Found::VirtualObjectStatus(VirtualObjectStatus::Locked(invocation_id)) => invocation_id,
            _ => derived,
        },
        InvocationQuery::IdempotencyId { .. } => match found {
            Found::IdempotencyMetadata(Some(invocation_id)) => invocation_id,
            _ => derived,
        },
    }
}

/// What the status of the invocation `invocation_id` amounts to, as an
/// answer to the request `request_id`.
pub open spec fn output_of<T, S, F, R>(
    status: InvocationStatus<T, S, F>,
    invocation_id: InvocationId,
    request_id: R,
) -> GetOutputResult<T, S, F, R> {
    match status {
        InvocationStatus::Free => GetOutputResult::NotFound,
        InvocationStatus::Invoked(metadata) | InvocationStatus::Suspended(metadata) => if fetchable(
            metadata,
        ) {
            GetOutputResult::NotReady
        } else {
            GetOutputResult::NotSupported
        },
        InvocationStatus::Completed { metadata, response_result } => if fetchable(metadata) {
            GetOutputResult::Ready(
                InvocationResponse {
                    request_id,
                    response: match response_result {
                        ResponseResult::Success(value) => IngressResponseResult::Success(
                            metadata.invocation_target,
                            value,
                        ),
                        ResponseResult::Failure(failure) => IngressResponseResult::Failure(failure),
                    },
                    invocation_id: Some(invocation_id),
                },
            )
        } else {
            GetOutputResult::NotSupported
        },
    }
}

/// A partition and the keys it owns.
#[derive(Clone, Copy, Debug, PartialEq, Eq, Structural)]
pub struct PartitionAssignment {
    pub partition_id: PartitionId,
    pub key_range: PartitionKeyRange,
}

/// The first assignment, from `from` on, whose range holds `key`.
pub open spec fn first_owner(
    table: Seq<PartitionAssignment>,
    key: PartitionKey,
    from: int,
) -> Option<PartitionId>
    decreases table.len() - from,
{
    if from < 0 || from >= table.len() {
        None
    } else if table[from].key_range.spec_contains(key) {
        Some(table[from].partition_id)
    } else {
        first_owner(table, key, from + 1)
    }
}

/// Reads the status of invocations for the ingress.
#[derive(Debug)]
pub struct InvocationStorageReaderImpl {
    partition_table: Vec<PartitionAssignment>,
}

impl View for InvocationStorageReaderImpl {
    type V = Seq<PartitionAssignment>;

    closed spec fn view(&self) -> Seq<PartitionAssignment> {
        self.partition_table@
    }
}

impl InvocationStorageReaderImpl {
    pub fn new(partition_table: Vec<PartitionAssignment>) -> (reader: InvocationStorageReaderImpl)
        ensures
            reader@ == partition_table@,
    {
        InvocationStorageReaderImpl { partition_table }
    }

    /// The partition that owns `key`: the first in the table whose range
    /// holds it.
    pub fn find_partition_id(&self, key: PartitionKey) -> (found: Result<
        PartitionId,
        GetOutputError,
    >)
        ensures
            found == match first_owner(self@, key, 0) {
                Some(partition_id) => Ok::<PartitionId, GetOutputError>(partition_id),
                None => Err::<PartitionId, GetOutputError>(GetOutputError::PartitionNotFound(key)),
            },
    {
        let mut i: usize = 0;
        while i < self.partition_table.len()
            invariant
                i <= self.partition_table.len(),
                first_owner(self@, key, 0) == first_owner(self@, key, i as int),
            decreases self.partition_table.len() - i,
        {
            if self.partition_table[i].key_range.contains(key) {
                return Ok(self.partition_table[i].partition_id);
            }
            i += 1;
        }
        Err(GetOutputError::PartitionNotFound(key))
    }

    /// Which partition can answer `query`, and what its store has to be
    /// asked first.
    pub fn lookup<W, I>(&self, query: &InvocationQuery<W, I>) -> (plan: Result<
        (PartitionId, Lookup),
        GetOutputError,
    >)
        ensures
            plan == match first_owner(self@, query.spec_partition_key(), 0) {
                Some(partition_id) => Ok::<(PartitionId, Lookup), GetOutputError>(
                    (
                        partition_id,
                        match *query {
                            InvocationQuery::Invocation(_) => Lookup::Nothing,
                            InvocationQuery::Workflow { .. } => Lookup::VirtualObjectStatus,
                            InvocationQuery::IdempotencyId { .. } => Lookup::IdempotencyMetadata,
                        },
                    ),
                ),
                None => Err::<(PartitionId, Lookup), GetOutputError>(
                    GetOutputError::PartitionNotFound(query.spec_partition_key()),
                ),
            },
    {
        match self.find_partition_id(query.partition_key()) {
            Ok(partition_id) => {
                let lookup = match query {
                    InvocationQuery::Invocation(_) => Lookup::Nothing,
                    InvocationQuery::Workflow { .. } => Lookup::VirtualObjectStatus,
                    InvocationQuery::IdempotencyId { .. } => Lookup::IdempotencyMetadata,
                };
                Ok((partition_id, lookup))
            },
            Err(error) => Err(error),
        }
    }

    /// The invocation that `query` means: see `resolved`.
    pub fn invocation_id<W, I>(
        query: &InvocationQuery<W, I>,
        found: Found,
        derived: InvocationId,
    ) -> (invocation_id: InvocationId)
        ensures
            invocation_id == resolved(*query, found, derived),
    {
        match query {
            InvocationQuery::Invocation(invocation_id) => *invocation_id,
            InvocationQuery::Workflow { .. } => match found {
                Found::VirtualObjectStatus(VirtualObjectStatus::Locked(locking)) => locking,
                _ => derived,
            },
            InvocationQuery::IdempotencyId { .. } => match found {
                Found::IdempotencyMetadata(Some(recorded)) => recorded,
                _ => derived,
            },
        }
    }

    /// What the ingress is told of the invocation `invocation_id`, whose
    /// status is `status`: nothing is found of an unknown invocation; the
    /// output of one that was neither started idempotently nor runs a
    /// workflow cannot be fetched; a completed one is ready with its
    /// result, as an answer to `request_id`; any other is not ready.
    pub fn get_output<T, S, F, R>(
        status: InvocationStatus<T, S, F>,
        invocation_id: InvocationId,
        request_id: R,
    ) -> (output: GetOutputResult<T, S, F, R>)
        ensures
            output == output_of(status, invocation_id, request_id),
    {
        match status {
            InvocationStatus::Free => GetOutputResult::NotFound,
            InvocationStatus::Invoked(metadata) => {
                if Self::is_fetchable(&metadata) {
                    GetOutputResult::NotReady
                } else {
                    GetOutputResult::NotSupported
                }
            },
            InvocationStatus::Suspended(metadata) => {
                if Self::is_fetchable(&metadata) {
                    GetOutputResult::NotReady
                } else {
                    GetOutputResult::NotSupported
                }
            },
            InvocationStatus::Completed { metadata, response_result } => {
                if !Self::is_fetchable(&metadata) {
                    return GetOutputResult::NotSupported;
                }
                GetOutputResult::Ready(
                    InvocationResponse {
                        request_id,
                        response: match response_result {
                            ResponseResult::Success(value) => IngressResponseResult::Success(
                                metadata.invocation_target,
                                value,
                            ),
                            ResponseResult::Failure(failure) => IngressResponseResult::Failure(
                                failure,
                            ),
                        },
                        invocation_id: Some(invocation_id),
                    },
                )
            },
        }
    }

    /// Whether the output of an invocation can be fetched at all.
    pub fn is_fetchable<T>(metadata: &InvocationMetadata<T>) -> (yes: bool)
        ensures
            yes == fetchable(*metadata),
    {
        metadata.has_idempotency_key || matches!(
            metadata.target_type,
            InvocationTargetType::Workflow(WorkflowHandlerType::Workflow)
        )
    }
}

} // verus!
