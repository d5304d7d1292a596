//! Identifiers and counters shared by the partition processor and the
//! invocation task.

use vstd::prelude::*;

verus! {

/// A position in a partition's log.
///
/// `Invalid` is the position before the first record; every offset comes
/// after it.
#[derive(Clone, Copy, Debug, PartialEq, Eq, Hash, Structural)]
pub enum Lsn {
    Invalid,
    Offset(u64),
}

impl Lsn {
    /// The rank of a position: `-1` for `Invalid`, the offset otherwise.
    pub open spec fn ord(self) -> int {
        match self {
            Lsn::Invalid => -1,
            Lsn::Offset(offset) => offset as int,
        }
    }

    /// The position at `offset`.
    pub fn new(offset: u64) -> (lsn: Lsn)
        ensures
            lsn == Lsn::Offset(offset),
    {
        Lsn::Offset(offset)
    }

    /// The last position a log can hold; readers that follow a log to its
    /// end read up to here.
    pub fn max() -> (lsn: Lsn)
        ensures
            lsn == Lsn::Offset(u64::MAX),
    {
        Lsn::Offset(u64::MAX)
    }

    /// The offset of a position, if it has one.
    pub fn offset(&self) -> (offset: Option<u64>)
        ensures
            offset == match *self {
                Lsn::Invalid => None::<u64>,
                Lsn::Offset(o) => Some(o),
            },
    {
        match self {
            Lsn::Invalid => None,
            Lsn::Offset(o) => Some(*o),
        }
    }

    /// The successor of a position. The last position has none.
    pub fn next(&self) -> (succ: Lsn)
        requires
            self.ord() < u64::MAX,
        ensures
            succ.ord() == self.ord() + 1,
            succ is Offset,
    {
        match self {
            Lsn::Invalid => Lsn::Offset(0),
            Lsn::Offset(o) => Lsn::Offset(*o + 1),
        }
    }

    /// Whether `self` comes strictly before `other`.
    pub fn is_before(&self, other: &Lsn) -> (before: bool)
        ensures
            before == (self.ord() < other.ord()),
    {
        match (self, other) {
            (Lsn::Invalid, Lsn::Invalid) => false,
            (Lsn::Invalid, Lsn::Offset(_)) => true,
            (Lsn::Offset(_), Lsn::Invalid) => false,
            (Lsn::Offset(a), Lsn::Offset(b)) => *a < *b,
        }
    }

    /// Whether `self` is `other` or comes after it.
    pub fn is_at_or_after(&self, other: &Lsn) -> (reached: bool)
        ensures
            reached == (self.ord() >= other.ord()),
    {
        !self.is_before(other)
    }
}

/// The epoch of a partition leader. Epochs only grow.
#[derive(Clone, Copy, Debug, PartialEq, Eq, Hash, Structural)]
pub struct LeaderEpoch(pub u64);

/// The identifier of a partition; each partition has one log.
#[derive(Clone, Copy, Debug, PartialEq, Eq, Hash, Structural)]
pub struct PartitionId(pub u64);

/// A key that routes a message to the partition owning it.
pub type PartitionKey = u64;

/// The inclusive range of keys a partition owns.
#[derive(Clone, Copy, Debug, PartialEq, Eq, Hash, Structural)]
pub struct PartitionKeyRange {
    pub start: PartitionKey,
    pub end: PartitionKey,
}

impl PartitionKeyRange {
    pub open spec fn spec_contains(&self, key: PartitionKey) -> bool {
        self.start <= key <= self.end
    }

    /// Whether `key` lies in the range, both ends included.
    #[verifier::when_used_as_spec(spec_contains)]
    pub fn contains(&self, key: PartitionKey) -> (inside: bool)
        ensures
            inside == self.spec_contains(key),
    {
        self.start <= key && key <= self.end
    }
}

/// A node of the cluster, in one of its incarnations.
#[derive(Clone, Copy, Debug, PartialEq, Eq, Hash, Structural)]
pub struct NodeId {
    pub id: u32,
    pub generation: u32,
}

/// A wall-clock instant in milliseconds.
#[derive(Clone, Copy, Debug, PartialEq, Eq, Hash, Structural)]
pub struct MillisSinceEpoch(pub u64);

} // verus!
