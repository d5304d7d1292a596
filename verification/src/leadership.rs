//! Whether this node leads the partition, and under which epoch.

use vstd::prelude::*;
use crate::dedup::EpochSequenceNumber;
use crate::identifiers::LeaderEpoch;

verus! {

/// A follower replays the log and stores what it learns. A leader also
/// owns the actuators and feeds them the actions of what it applies.
#[derive(Clone, Copy, Debug, PartialEq, Eq, Structural)]
pub enum LeadershipState {
    Follower,
    Leader { epoch: LeaderEpoch },
}

impl LeadershipState {
    pub fn follower() -> (state: LeadershipState)
        ensures
            state == LeadershipState::Follower,
    {
        LeadershipState::Follower
    }

    pub open spec fn spec_is_leader(&self) -> bool {
        *self is Leader
    }

    #[verifier::when_used_as_spec(spec_is_leader)]
    pub fn is_leader(&self) -> (leader: bool)
        ensures
            leader == self.spec_is_leader(),
    {
        match self {
            LeadershipState::Leader { .. } => true,
            LeadershipState::Follower => false,
        }
    }

    /// The epoch under which actions may be handed to actuators: a
    /// leader's own, none for a follower.
    pub open spec fn action_epoch(self) -> Option<LeaderEpoch> {
        match self {
            LeadershipState::Leader { epoch } => Some(epoch),
            LeadershipState::Follower => None,
        }
    }

    /// Takes the lead under the epoch of `esn`, whatever the state was.
    pub fn become_leader(&mut self, esn: EpochSequenceNumber)
        ensures
            *final(self) == (LeadershipState::Leader { epoch: esn.leader_epoch }),
    {
        *self = LeadershipState::Leader { epoch: esn.leader_epoch };
    }

    /// Gives up the lead, if there was one.
    pub fn become_follower(&mut self)
        ensures
            *final(self) == LeadershipState::Follower,
    {
        *self = LeadershipState::Follower;
    }

    /// The epoch under which a batch of actions is handed to the
    /// actuators. A follower hands out nothing.
    pub fn handle_actions(&self) -> (epoch: Option<LeaderEpoch>)
        ensures
            epoch == self.action_epoch(),
    {
        match self {
            LeadershipState::Leader { epoch } => Some(*epoch),
            LeadershipState::Follower => None,
        }
    }

    /// What comes back from actuators counts only while the epoch under
    /// which they were started is still the leader's.
    pub open spec fn accepts_effects_of(self, issued_under: LeaderEpoch) -> bool {
        self == (LeadershipState::Leader { epoch: issued_under })
    }

    /// Whether effects of actuators started under `issued_under` are
    /// still to be handled.
    pub fn handle_action_effect(&self, issued_under: LeaderEpoch) -> (accepted: bool)
        ensures
            accepted == self.accepts_effects_of(issued_under),
    {
        match self {
            LeadershipState::Leader { epoch } => epoch.0 == issued_under.0,
            LeadershipState::Follower => false,
        }
    }
}

} // verus!
