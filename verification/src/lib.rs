//! Leader election for a small cluster of replicas.
//!
//! A replica is a follower, a candidate or the leader of a term. Its driver
//! wakes it at a deadline; its peers call it and answer its calls. This
//! library holds the rules by which a replica then changes its role, its
//! term and its deadline. The driver owns the clock, the transport and the
//! tasks, and hands each instant, request and answer to the functions here.

use vstd::prelude::*;

mod chance;

pub mod backoff;
pub mod cluster;
pub mod config;
pub mod errs;
pub mod history;
pub mod inner;
pub mod machinery;
pub mod messaging;

pub use config::{Config, ConfigError};

use inner::{BargeCore, State};
use machinery::{receive_request_vote_request, recieve_append_entries_request};
use messaging::{
    AppendEntriesRequest, AppendEntriesResponse, BargeService, RequestVoteRequest,
    RequestVoteResponse,
};

verus! {

/// A replica as its driver and its peers see it.
pub struct Barge {
    /// The replica's state, for the steps of the driver.
    pub core: BargeCore,
}

impl Barge {
    /// Makes a replica named `id` from a valid configuration, and rejects
    /// any other configuration with its first fault.
    pub fn new(id: String, config: Config) -> (made: std::result::Result<Self, ConfigError>)
        requires
            config.peer_count() <= u32::MAX,
        ensures
            made is Ok <==> config.valid(),
            made matches Ok(barge) ==> {
                &&& barge.core.id()@ == id@
                &&& *barge.core.config() == config
                &&& barge.core.state() == State::initial(config.peer_count())
            },
            made matches Err(error) ==> config.fault() == Some(error),
    {
        match config.validate() {
            Ok(()) => Ok(Self { core: BargeCore::new(id, config) }),
            Err(error) => Err(error),
        }
    }
}

impl BargeService for Barge {
    /// A replica serves the calls that arrive while every wait of its
    /// configuration can be planned as a deadline.
    open spec fn serves_at(&self, now: u64) -> bool {
        self.core.config().plannable_at(now)
    }

    /// Serves a leader's heartbeat that arrives at `now`. A refusal is an
    /// answer too: the call itself never fails.
    fn append_entries(&mut self, request: AppendEntriesRequest, now: u64) -> (served:
        errs::Result<AppendEntriesResponse>)
        ensures
            served matches Ok(response) && response == old(self).core.state().append_reply(
                request.term,
            ),
            exists|election_timeout: u64, heartbeat_timeout: u64|
                {
                    &&& #[trigger] old(self).core.config().election_timeout.contains(
                        election_timeout,
                    )
                    &&& #[trigger] old(self).core.config().heartbeat_timeout.contains(
                        heartbeat_timeout,
                    )
                    &&& final(self).core.state() == old(self).core.state().after_append_request(
                        request.term,
                        now,
                        election_timeout,
                        heartbeat_timeout,
                    )
                },
            request.term < old(self).core.state().term ==> final(self).core.state() == old(
                self,
            ).core.state(),
            final(self).core.state().term == old(self).core.state().term,
            final(self).core.id() == old(self).core.id(),
            final(self).core.config() == old(self).core.config(),
    {
        Ok(recieve_append_entries_request(&mut self.core, request, now))
    }

    /// Serves a candidate's call for votes that arrives at `now`. A denial
    /// is an answer too: the call itself never fails.
    fn request_vote(&mut self, request: RequestVoteRequest, now: u64) -> (served: errs::Result<
        RequestVoteResponse,
    >)
        ensures
            served matches Ok(response) && response == old(self).core.state().vote_reply(
                request.term,
            ),
            exists|election_timeout: u64|
                {
                    &&& #[trigger] old(self).core.config().election_timeout.contains(
                        election_timeout,
                    )
                    &&& final(self).core.state() == old(self).core.state().after_vote_request(
                        request.term,
                        now,
                        election_timeout,
                    )
                },
            request.term <= old(self).core.state().term ==> final(self).core.state() == old(
                self,
            ).core.state(),
            final(self).core.state().term >= old(self).core.state().term,
            final(self).core.id() == old(self).core.id(),
            final(self).core.config() == old(self).core.config(),
    {
        Ok(receive_request_vote_request(&mut self.core, request, now))
    }
}

} // verus!
