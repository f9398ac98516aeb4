//! One replica's election state.

use vstd::prelude::*;
use crate::config::Config;

verus! {

/// Margin by which a planned deadline is pulled forward, in nanoseconds, so
/// that a driver that sleeps for the planned time wakes at or after the
/// deadline in spite of rounding.
pub const EPSILON: u64 = 2_000;

/// The behaviour mode of a replica.
#[derive(Debug, Clone, Copy, PartialEq, Eq, Structural)]
pub enum Role {
    Follower,
    Candidate,
    Leader,
}

/// The mutable election state of one replica.
///
/// Instants are nanoseconds on the driver's monotonic clock.
#[derive(Debug, Clone, Copy, PartialEq, Eq, Structural)]
pub struct State {
    /// Current behaviour mode.
    pub role: Role,
    /// Logical election epoch.
    pub term: u64,
    /// Instant at which the driver must act next.
    pub deadline: u64,
    /// Grants received in the current candidacy.
    pub vote_count: u32,
    /// Grants that make a candidate the leader.
    pub vote_threshold: u32,
}

/// `now + span` can be planned as a deadline: it is not before the margin, and
/// the margin can still be added to it.
pub open spec fn plannable(now: u64, span: u64) -> bool {
    EPSILON <= now + span && now + span + EPSILON <= u64::MAX
}

/// Tells whether `now + span` can be planned as a deadline.
pub fn can_plan(now: u64, span: u64) -> (fits: bool)
    ensures
        fits == plannable(now, span),
{
    now <= u64::MAX - EPSILON && span <= u64::MAX - EPSILON - now && (now >= EPSILON || span
        >= EPSILON - now)
}

impl State {
    /// What every handler keeps: the deadline leaves room for the margin, and
    /// a candidate has not yet gathered the grants that would promote it.
    pub open spec fn wf(self) -> bool {
        &&& self.deadline + EPSILON <= u64::MAX
        &&& self.role is Candidate ==> self.vote_count == 0 || self.vote_count
            < self.vote_threshold
    }

    /// The state of a replica that has `peer_count` peers and has not yet
    /// taken part in any election.
    pub open spec fn initial(peer_count: nat) -> State {
        State {
            role: Role::Follower,
            term: 0,
            deadline: 0,
            vote_count: 0,
            vote_threshold: (peer_count / 2) as u32,
        }
    }
}

impl Default for State {
    /// A follower in term 0 with no peers.
    fn default() -> (state: Self)
        ensures
            state == State::initial(0),
            state.wf(),
    {
        State { role: Role::Follower, term: 0, deadline: 0, vote_count: 0, vote_threshold: 0 }
    }
}

/// One replica: its name, its configuration and its election state.
///
/// Every value of this type holds a valid configuration, a well-formed state,
/// and a vote threshold of half the number of peers, rounded down. With the
/// candidate's own vote that is a majority of the cluster when the number of
/// peers is even.
pub struct BargeCore {
    id: String,
    state: State,
    config: Config,
}

impl BargeCore {
    #[verifier::type_invariant]
    spec fn inv(self) -> bool {
        &&& self.config.valid()
        &&& self.config.peer_count() <= u32::MAX
        &&& self.state.wf()
        &&& self.state.vote_threshold == self.config.peer_count() / 2
    }

    /// The replica's name, as peers know it.
    pub closed spec fn spec_id(&self) -> &String {
        &self.id
    }

    /// The replica's election state.
    pub closed spec fn spec_state(&self) -> State {
        self.state
    }

    /// The replica's configuration.
    pub closed spec fn spec_config(&self) -> &Config {
        &self.config
    }

    /// A replica that has not yet taken part in any election: a follower in
    /// term 0 whose deadline is the clock's origin.
    pub fn new(id: String, config: Config) -> (core: Self)
        requires
            config.valid(),
            config.peer_count() <= u32::MAX,
        ensures
            core.spec_id()@ == id@,
            *core.spec_config() == config,
            core.spec_state() == State::initial(config.peer_count()),
    {
        let state = State {
            vote_threshold: (config.peer_uris.len() as u32) / 2,
            ..State::default()
        };
        Self { id, state, config }
    }

    /// The replica's name, as peers know it.
    #[verifier::when_used_as_spec(spec_id)]
    pub fn id(&self) -> (id: &String)
        ensures
            id == self.spec_id(),
    {
        &self.id
    }

    /// The replica's election state. It is well formed, its threshold is
    /// half the number of peers, rounded down, and while the replica is a
    /// candidate it has counted no more votes than it has peers.
    #[verifier::when_used_as_spec(spec_state)]
    pub fn state(&self) -> (state: State)
        ensures
            state == self.spec_state(),
            state.wf(),
            state.vote_threshold == self.spec_config().peer_count() / 2,
            state.role is Candidate ==> state.vote_count <= self.spec_config().peer_count(),
    {
        proof {
            use_type_invariant(self);
        }
        self.state
    }

    /// The replica's configuration. It is valid.
    #[verifier::when_used_as_spec(spec_config)]
    pub fn config(&self) -> (config: &Config)
        ensures
            config == self.spec_config(),
            config.valid(),
            config.peer_count() <= u32::MAX,
    {
        proof {
            use_type_invariant(self);
        }
        &self.config
    }

    /// Puts `state` in place of the replica's state.
    pub(crate) fn install(&mut self, state: State)
        requires
            state.wf(),
            state.vote_threshold == old(self).spec_state().vote_threshold,
        ensures
            final(self).spec_state() == state,
            final(self).spec_id() == old(self).spec_id(),
            final(self).spec_config() == old(self).spec_config(),
    {
        proof {
            use_type_invariant(&*self);
        }
        self.state = state;
    }
}

} // verus!
