//! The election rules: what a replica does when its timer fires, when a peer
//! answers, and when a peer calls.
//!
//! Each rule is stated twice. A method of [`State`] takes the instant and the
//! timeouts as arguments and is exact. A function on [`BargeCore`] draws the
//! timeouts from the configured ranges and says what holds of every draw.

use vstd::prelude::*;
use crate::errs::Result;
use crate::inner::{plannable, BargeCore, Role, State, EPSILON};
use crate::messaging::{
    AppendEntriesRequest, AppendEntriesResponse, RequestVoteRequest, RequestVoteResponse,
};

verus! {

/// What the driver has to send to every peer after a step.
#[derive(Debug, Clone, Copy, PartialEq, Eq, Structural)]
pub enum Broadcast {
    /// Nothing is sent.
    Nothing,
    /// A call for votes in `term`.
    RequestVote { term: u64 },
    /// A heartbeat of the leader of `term`.
    Heartbeat { term: u64 },
}

/// Result of the act step: how long the driver sleeps next, in nanoseconds,
/// and what it sends before it does.
#[derive(Debug, Clone, Copy, PartialEq, Eq, Structural)]
pub struct Wake {
    pub sleep: u64,
    pub broadcast: Broadcast,
}

/// The deadline planned at `now` for a sleep of `sleep`.
pub open spec fn planned_deadline(now: u64, sleep: u64) -> int {
    now + sleep - EPSILON
}

impl State {
    /// The state of a replica whose driver starts at `now` with a first
    /// sleep of `sleep`.
    pub open spec fn after_start(self, now: u64, sleep: u64) -> State {
        State { deadline: planned_deadline(now, sleep) as u64, ..self }
    }

    /// Plans the first deadline of a driver that starts at `now` and sleeps
    /// for `sleep`.
    pub fn start(&mut self, now: u64, sleep: u64)
        requires
            old(self).wf(),
            plannable(now, sleep),
        ensures
            *final(self) == old(self).after_start(now, sleep),
            final(self).wf(),
    {
        self.deadline = now + sleep - EPSILON;
    }

    /// Whether the act step at `now` starts an election.
    pub open spec fn starts_election_at(self, now: u64) -> bool {
        now >= self.deadline && !(self.role is Leader)
    }

    /// The state after the act step at `now`.
    pub open spec fn after_act(
        self,
        now: u64,
        election_timeout: u64,
        heartbeat_period: u64,
    ) -> State {
        if now < self.deadline {
            self
        } else if self.role is Leader {
            State { deadline: planned_deadline(now, heartbeat_period) as u64, ..self }
        } else {
            State {
                role: Role::Candidate,
                term: (self.term + 1) as u64,
                deadline: planned_deadline(now, election_timeout) as u64,
                vote_count: 0,
                ..self
            }
        }
    }

    /// What the act step at `now` hands to the driver.
    pub open spec fn act_wake(
        self,
        now: u64,
        election_timeout: u64,
        heartbeat_period: u64,
    ) -> Wake {
        if now < self.deadline {
            Wake { sleep: (self.deadline - now + EPSILON) as u64, broadcast: Broadcast::Nothing }
        } else if self.role is Leader {
            Wake { sleep: heartbeat_period, broadcast: Broadcast::Heartbeat { term: self.term } }
        } else {
            Wake {
                sleep: election_timeout,
                broadcast: Broadcast::RequestVote { term: (self.term + 1) as u64 },
            }
        }
    }

    /// Whether the act step at `now` stays within 64 bits: the deadline
    /// that it plans can be planned, and the term that it starts exists.
    pub open spec fn admits_act(
        self,
        now: u64,
        election_timeout: u64,
        heartbeat_period: u64,
    ) -> bool {
        now >= self.deadline ==> {
            &&& self.role is Leader ==> plannable(now, heartbeat_period)
            &&& !(self.role is Leader) ==> plannable(now, election_timeout) && self.term
                < u64::MAX
        }
    }

    /// The act step. Before the deadline nothing changes, and the driver
    /// sleeps for what is left of the wait. At or after it a leader plans its
    /// next heartbeat, and any other replica starts a candidacy in the next
    /// term.
    pub fn act(&mut self, now: u64, election_timeout: u64, heartbeat_period: u64) -> (wake: Wake)
        requires
            old(self).wf(),
            old(self).admits_act(now, election_timeout, heartbeat_period),
        ensures
            *final(self) == old(self).after_act(now, election_timeout, heartbeat_period),
            wake == old(self).act_wake(now, election_timeout, heartbeat_period),
            final(self).wf(),
            final(self).term >= old(self).term,
            final(self).vote_threshold == old(self).vote_threshold,
            wake.broadcast is Heartbeat ==> old(self).role is Leader && final(self).role is Leader,
            wake.broadcast is RequestVote ==> !(old(self).role is Leader) && final(self).role
                is Candidate && final(self).vote_count == 0,
    {
        if now < self.deadline {
            return Wake { sleep: self.deadline - now + EPSILON, broadcast: Broadcast::Nothing };
        }
        match self.role {
            Role::Follower | Role::Candidate => {
                self.role = Role::Candidate;
                self.term += 1;
                self.vote_count = 0;

                let term: u64 = self.term;
                let sleep: u64 = election_timeout;
                self.deadline = now + sleep - EPSILON;
                Wake { sleep, broadcast: Broadcast::RequestVote { term } }
            },
            Role::Leader => {
                let term: u64 = self.term;
                let sleep: u64 = heartbeat_period;
                self.deadline = now + sleep - EPSILON;
                Wake { sleep, broadcast: Broadcast::Heartbeat { term } }
            },
        }
    }

    /// The state after a peer's answer to a call for votes was handled at
    /// `now`.
    pub open spec fn after_vote_response(
        self,
        response: RequestVoteResponse,
        now: u64,
        heartbeat_period: u64,
        heartbeat_timeout: u64,
    ) -> State {
        if !(self.role is Candidate) {
            self
        } else if response.granted {
            if self.vote_count + 1 >= self.vote_threshold {
                State {
                    role: Role::Leader,
                    vote_count: (self.vote_count + 1) as u32,
                    deadline: (now + heartbeat_period) as u64,
                    ..self
                }
            } else {
                State { vote_count: (self.vote_count + 1) as u32, ..self }
            }
        } else if response.term > self.term {
            State {
                role: Role::Follower,
                term: response.term,
                deadline: (now + heartbeat_timeout) as u64,
                ..self
            }
        } else {
            self
        }
    }

    /// Whether this answer to a call for votes sends the replica back to
    /// follower.
    pub open spec fn yields_to_vote_response(self, response: RequestVoteResponse) -> bool {
        self.role is Candidate && !response.granted && response.term > self.term
    }

    /// Whether this answer to a call for votes makes the replica the leader.
    pub open spec fn wins_with(self, response: RequestVoteResponse) -> bool {
        self.role is Candidate && response.granted && self.vote_count + 1 >= self.vote_threshold
    }

    /// Whether the deadline that this answer to a call for votes sets, if it
    /// sets one, leaves room for the margin.
    pub open spec fn admits_vote_response(
        self,
        response: RequestVoteResponse,
        now: u64,
        heartbeat_period: u64,
        heartbeat_timeout: u64,
    ) -> bool {
        &&& self.wins_with(response) ==> now + heartbeat_period + EPSILON <= u64::MAX
        &&& self.yields_to_vote_response(response) ==> now + heartbeat_timeout + EPSILON
            <= u64::MAX
    }

    /// Handles a peer's answer to a call for votes. Only a candidate listens.
    /// A grant is counted, and the grant that reaches the threshold makes the
    /// candidate the leader, which at once owes its peers a heartbeat. A
    /// denial that carries a higher term sends the candidate back to
    /// follower in that term.
    pub fn receive_request_vote_response(
        &mut self,
        response: RequestVoteResponse,
        now: u64,
        heartbeat_period: u64,
        heartbeat_timeout: u64,
    ) -> (broadcast: Broadcast)
        requires
            old(self).wf(),
            old(self).admits_vote_response(response, now, heartbeat_period, heartbeat_timeout),
        ensures
            *final(self) == old(self).after_vote_response(
                response,
                now,
                heartbeat_period,
                heartbeat_timeout,
            ),
            broadcast == if old(self).wins_with(response) {
                Broadcast::Heartbeat { term: old(self).term }
            } else {
                Broadcast::Nothing
            },
            final(self).wf(),
            final(self).term >= old(self).term,
            final(self).vote_threshold == old(self).vote_threshold,
            !(old(self).role is Candidate) ==> *final(self) == *old(self),
            final(self).role is Leader ==> old(self).role is Leader || old(self).wins_with(
                response,
            ),
    {
        let mut won = false;
        let mut term: u64 = 0;

        if self.role != Role::Candidate {
            return Broadcast::Nothing;
        }
        if response.granted {
            self.vote_count += 1;
            if self.vote_count >= self.vote_threshold {
                won = true;
                term = self.term;
                self.role = Role::Leader;
                self.deadline = now + heartbeat_period;
            }
        } else if response.term > self.term {
            self.role = Role::Follower;
            self.term = response.term;
            self.deadline = now + heartbeat_timeout;
        }

        if won {
            Broadcast::Heartbeat { term }
        } else {
            Broadcast::Nothing
        }
    }

    /// The state after a peer's answer to a heartbeat was handled at `now`.
    pub open spec fn after_append_response(
        self,
        response: AppendEntriesResponse,
        now: u64,
        heartbeat_timeout: u64,
    ) -> State {
        if self.yields_to_append_response(response) {
            State {
                role: Role::Follower,
                term: response.term,
                deadline: (now + heartbeat_timeout) as u64,
                ..self
            }
        } else {
            self
        }
    }

    /// Whether this answer to a heartbeat sends the replica back to follower.
    pub open spec fn yields_to_append_response(self, response: AppendEntriesResponse) -> bool {
        self.role is Leader && !response.success && response.term >= self.term
    }

    /// Whether the deadline that this answer to a heartbeat sets, if it sets
    /// one, leaves room for the margin.
    pub open spec fn admits_append_response(
        self,
        response: AppendEntriesResponse,
        now: u64,
        heartbeat_timeout: u64,
    ) -> bool {
        self.yields_to_append_response(response) ==> now + heartbeat_timeout + EPSILON
            <= u64::MAX
    }

    /// Handles a peer's answer to a heartbeat. Only a leader listens, and it
    /// steps down to follower, in the answer's term, when the peer refused
    /// and its term is not behind.
    pub fn recieve_append_entries_response(
        &mut self,
        response: AppendEntriesResponse,
        now: u64,
        heartbeat_timeout: u64,
    )
        requires
            old(self).wf(),
            old(self).admits_append_response(response, now, heartbeat_timeout),
        ensures
            *final(self) == old(self).after_append_response(response, now, heartbeat_timeout),
            final(self).wf(),
            final(self).term >= old(self).term,
            final(self).vote_threshold == old(self).vote_threshold,
            !(old(self).role is Leader) ==> *final(self) == *old(self),
    {
        if self.role != Role::Leader {
            return ;
        }
        if !response.success && response.term >= self.term {
            self.role = Role::Follower;
            self.term = response.term;
            self.deadline = now + heartbeat_timeout;
        }
    }

    /// The state after a call for votes in `term` was handled at `now`.
    pub open spec fn after_vote_request(self, term: u64, now: u64, election_timeout: u64) -> State {
        if term > self.term {
            State {
                role: Role::Follower,
                term,
                deadline: (now + election_timeout) as u64,
                ..self
            }
        } else {
            self
        }
    }

    /// The answer to a call for votes in `term`: a grant, without a term, to
    /// a term ahead of the replica's own, else a denial that carries the
    /// replica's term.
    pub open spec fn vote_reply(self, term: u64) -> RequestVoteResponse {
        if term > self.term {
            RequestVoteResponse { term: 0, granted: true }
        } else {
            RequestVoteResponse { term: self.term, granted: false }
        }
    }

    /// Whether the deadline that a call for votes in `term` sets, if it sets
    /// one, leaves room for the margin.
    pub open spec fn admits_vote_request(self, term: u64, now: u64, election_timeout: u64) -> bool {
        term > self.term ==> now + election_timeout + EPSILON <= u64::MAX
    }

    /// Handles a candidate's call for votes. A call from a term ahead of the
    /// replica's own is granted: the replica becomes a follower in that term
    /// and waits one election timeout. Any other call is denied and changes
    /// nothing.
    pub fn receive_request_vote_request(
        &mut self,
        request: RequestVoteRequest,
        now: u64,
        election_timeout: u64,
    ) -> (response: RequestVoteResponse)
        requires
            old(self).wf(),
            old(self).admits_vote_request(request.term, now, election_timeout),
        ensures
            *final(self) == old(self).after_vote_request(request.term, now, election_timeout),
            response == old(self).vote_reply(request.term),
            request.term <= old(self).term ==> *final(self) == *old(self),
            final(self).wf(),
            final(self).term >= old(self).term,
            final(self).vote_threshold == old(self).vote_threshold,
    {
        let mut response = RequestVoteResponse::default();
        if request.term > self.term {
            response.granted = true;
            self.role = Role::Follower;
            self.term = request.term;
            self.deadline = now + election_timeout;
        } else {
            response.granted = false;
            response.term = self.term;
        }
        response
    }

    /// Whether a heartbeat that carries `term` comes from a second leader of
    /// the replica's own term.
    pub open spec fn collides_with(self, term: u64) -> bool {
        term == self.term && self.role is Leader
    }

    /// The state after a heartbeat that carries `term` was handled at `now`.
    pub open spec fn after_append_request(
        self,
        term: u64,
        now: u64,
        election_timeout: u64,
        heartbeat_timeout: u64,
    ) -> State {
        if term < self.term {
            self
        } else if self.collides_with(term) {
            State { role: Role::Follower, deadline: (now + election_timeout) as u64, ..self }
        } else {
            State { deadline: (now + heartbeat_timeout) as u64, ..self }
        }
    }

    /// The answer to a heartbeat that carries `term`: a refusal with the
    /// replica's term to a term behind its own, else the empty answer.
    pub open spec fn append_reply(self, term: u64) -> AppendEntriesResponse {
        if term < self.term {
            AppendEntriesResponse { term: self.term, success: false }
        } else {
            AppendEntriesResponse { term: 0, success: false }
        }
    }

    /// Whether the deadline that a heartbeat with `term` sets, if it sets
    /// one, leaves room for the margin.
    pub open spec fn admits_append_request(
        self,
        term: u64,
        now: u64,
        election_timeout: u64,
        heartbeat_timeout: u64,
    ) -> bool {
        &&& self.collides_with(term) ==> now + election_timeout + EPSILON <= u64::MAX
        &&& term >= self.term && !self.collides_with(term) ==> now + heartbeat_timeout + EPSILON
            <= u64::MAX
    }

    /// Handles a leader's heartbeat. One from a term behind the replica's own
    /// is refused and changes nothing. A leader that hears another leader of
    /// its own term steps down and waits one election timeout. In every
    /// other case the replica keeps its role and term and waits one heartbeat
    /// timeout. An accepted heartbeat is answered with `success` unset.
    pub fn recieve_append_entries_request(
        &mut self,
        request: AppendEntriesRequest,
        now: u64,
        election_timeout: u64,
        heartbeat_timeout: u64,
    ) -> (response: AppendEntriesResponse)
        requires
            old(self).wf(),
            old(self).admits_append_request(
                request.term,
                now,
                election_timeout,
                heartbeat_timeout,
            ),
        ensures
            *final(self) == old(self).after_append_request(
                request.term,
                now,
                election_timeout,
                heartbeat_timeout,
            ),
            response == old(self).append_reply(request.term),
            request.term < old(self).term ==> *final(self) == *old(self),
            final(self).wf(),
            final(self).term == old(self).term,
            final(self).vote_threshold == old(self).vote_threshold,
    {
        let mut response = AppendEntriesResponse::default();
        if request.term < self.term {
            response.term = self.term;
            response.success = false;
            return response;
        }
        if request.term == self.term && self.role == Role::Leader {
            self.role = Role::Follower;
            self.deadline = now + election_timeout;
        } else {
            self.deadline = now + heartbeat_timeout;
        }
        response
    }
}

/// Starts the driver at `now`: draws the first sleep from the
/// heartbeat-timeout range, plans the deadline for it, and returns it.
pub fn start(core: &mut BargeCore, now: u64) -> (sleep: u64)
    requires
        old(core).config().plannable_at(now),
    ensures
        old(core).config().heartbeat_timeout.contains(sleep),
        final(core).state() == old(core).state().after_start(now, sleep),
        final(core).id() == old(core).id(),
        final(core).config() == old(core).config(),
{
    let sleep = core.config().pick_heartbeat_timeout();
    let mut state = core.state();
    state.start(now, sleep);
    core.install(state);
    sleep
}

/// The act step of the driver, with the election timeout drawn from its
/// range and the heartbeat period taken from the configuration.
pub fn act(core: &mut BargeCore, now: u64) -> (wake: Wake)
    requires
        old(core).config().plannable_at(now),
        old(core).state().starts_election_at(now) ==> old(core).state().term < u64::MAX,
    ensures
        exists|election_timeout: u64|
            {
                &&& #[trigger] old(core).config().election_timeout.contains(election_timeout)
                &&& final(core).state() == old(core).state().after_act(
                    now,
                    election_timeout,
                    old(core).config().send_heartbeat_period,
                )
                &&& wake == old(core).state().act_wake(
                    now,
                    election_timeout,
                    old(core).config().send_heartbeat_period,
                )
            },
        final(core).state().term >= old(core).state().term,
        final(core).id() == old(core).id(),
        final(core).config() == old(core).config(),
{
    let election_timeout = core.config().pick_election_timeout();
    let heartbeat_period = core.config().send_heartbeat_period;
    let mut state = core.state();
    let wake = state.act(now, election_timeout, heartbeat_period);
    core.install(state);
    wake
}

/// The call for votes that a candidate of `term` sends to each peer.
pub fn vote_request(core: &BargeCore, term: u64) -> (request: RequestVoteRequest)
    ensures
        request.term == term,
        request.candidate_id@ == core.id()@,
{
    RequestVoteRequest { term, candidate_id: core.id().clone() }
}

/// Handles a peer's answer to a call for votes, with the heartbeat timeout
/// drawn from its range.
pub fn receive_request_vote_response(
    core: &mut BargeCore,
    response: RequestVoteResponse,
    now: u64,
) -> (broadcast: Broadcast)
    requires
        old(core).config().plannable_at(now),
    ensures
        exists|heartbeat_timeout: u64|
            {
                &&& #[trigger] old(core).config().heartbeat_timeout.contains(heartbeat_timeout)
                &&& final(core).state() == old(core).state().after_vote_response(
                    response,
                    now,
                    old(core).config().send_heartbeat_period,
                    heartbeat_timeout,
                )
            },
        broadcast == if old(core).state().wins_with(response) {
            Broadcast::Heartbeat { term: old(core).state().term }
        } else {
            Broadcast::Nothing
        },
        final(core).state().term >= old(core).state().term,
        final(core).id() == old(core).id(),
        final(core).config() == old(core).config(),
{
    let heartbeat_timeout = core.config().pick_heartbeat_timeout();
    let heartbeat_period = core.config().send_heartbeat_period;
    let mut state = core.state();
    let broadcast = state.receive_request_vote_response(
        response,
        now,
        heartbeat_period,
        heartbeat_timeout,
    );
    core.install(state);
    broadcast
}

/// Ends one call for votes with what the transport returned: a failure is
/// dropped and changes nothing, an answer is handled.
pub fn complete_request_vote(
    core: &mut BargeCore,
    result: Result<RequestVoteResponse>,
    now: u64,
) -> (broadcast: Broadcast)
    requires
        old(core).config().plannable_at(now),
    ensures
        result is Err ==> final(core).state() == old(core).state() && broadcast
            == Broadcast::Nothing,
        result matches Ok(response) ==> {
            &&& exists|heartbeat_timeout: u64|
                {
                    &&& #[trigger] old(core).config().heartbeat_timeout.contains(
                        heartbeat_timeout,
                    )
                    &&& final(core).state() == old(core).state().after_vote_response(
                        response,
                        now,
                        old(core).config().send_heartbeat_period,
                        heartbeat_timeout,
                    )
                }
            &&& broadcast == if old(core).state().wins_with(response) {
                Broadcast::Heartbeat { term: old(core).state().term }
            } else {
                Broadcast::Nothing
            }
        },
        final(core).state().term >= old(core).state().term,
        final(core).id() == old(core).id(),
        final(core).config() == old(core).config(),
{
    match result {
        Ok(response) => receive_request_vote_response(core, response, now),
        Err(_) => Broadcast::Nothing,
    }
}

/// The heartbeat that the leader of `term` sends to each peer.
pub fn heartbeat_request(core: &BargeCore, term: u64) -> (request: AppendEntriesRequest)
    ensures
        request.term == term,
        request.leader_id@ == core.id()@,
{
    AppendEntriesRequest { term, leader_id: core.id().clone() }
}

/// Handles a peer's answer to a heartbeat, with the heartbeat timeout drawn
/// from its range.
pub fn recieve_append_entries_response(
    core: &mut BargeCore,
    response: AppendEntriesResponse,
    now: u64,
)
    requires
        old(core).config().plannable_at(now),
    ensures
        exists|heartbeat_timeout: u64|
            {
                &&& #[trigger] old(core).config().heartbeat_timeout.contains(heartbeat_timeout)
                &&& final(core).state() == old(core).state().after_append_response(
                    response,
                    now,
                    heartbeat_timeout,
                )
            },
        final(core).state().term >= old(core).state().term,
        final(core).id() == old(core).id(),
        final(core).config() == old(core).config(),
{
    let heartbeat_timeout = core.config().pick_heartbeat_timeout();
    let mut state = core.state();
    state.recieve_append_entries_response(response, now, heartbeat_timeout);
    core.install(state);
}

/// Ends one heartbeat with what the transport returned: a failure is dropped
/// and changes nothing, an answer is handled.
pub fn complete_heartbeat_request(
    core: &mut BargeCore,
    result: Result<AppendEntriesResponse>,
    now: u64,
)
    requires
        old(core).config().plannable_at(now),
    ensures
        result is Err ==> final(core).state() == old(core).state(),
        result matches Ok(response) ==> exists|heartbeat_timeout: u64|
            {
                &&& #[trigger] old(core).config().heartbeat_timeout.contains(heartbeat_timeout)
                &&& final(core).state() == old(core).state().after_append_response(
                    response,
                    now,
                    heartbeat_timeout,
                )
            },
        final(core).state().term >= old(core).state().term,
        final(core).id() == old(core).id(),
        final(core).config() == old(core).config(),
{
    match result {
        Ok(response) => recieve_append_entries_response(core, response, now),
        Err(_) => {},
    }
}

/// Handles a candidate's call for votes, with the election timeout drawn
/// from its range.
pub fn receive_request_vote_request(
    core: &mut BargeCore,
    request: RequestVoteRequest,
    now: u64,
) -> (response: RequestVoteResponse)
    requires
        old(core).config().plannable_at(now),
    ensures
        exists|election_timeout: u64|
            {
                &&& #[trigger] old(core).config().election_timeout.contains(election_timeout)
                &&& final(core).state() == old(core).state().after_vote_request(
                    request.term,
                    now,
                    election_timeout,
                )
            },
        response == old(core).state().vote_reply(request.term),
        request.term <= old(core).state().term ==> final(core).state() == old(core).state(),
        final(core).state().term >= old(core).state().term,
        final(core).id() == old(core).id(),
        final(core).config() == old(core).config(),
{
    let election_timeout = core.config().pick_election_timeout();
    let mut state = core.state();
    let response = state.receive_request_vote_request(request, now, election_timeout);
    core.install(state);
    response
}

/// Handles a leader's heartbeat, with both timeouts drawn from their ranges.
pub fn recieve_append_entries_request(
    core: &mut BargeCore,
    request: AppendEntriesRequest,
    now: u64,
) -> (response: AppendEntriesResponse)
    requires
        old(core).config().plannable_at(now),
    ensures
        exists|election_timeout: u64, heartbeat_timeout: u64|
            {
                &&& #[trigger] old(core).config().election_timeout.contains(election_timeout)
                &&& #[trigger] old(core).config().heartbeat_timeout.contains(heartbeat_timeout)
                &&& final(core).state() == old(core).state().after_append_request(
                    request.term,
                    now,
                    election_timeout,
                    heartbeat_timeout,
                )
            },
        response == old(core).state().append_reply(request.term),
        request.term < old(core).state().term ==> final(core).state() == old(core).state(),
        final(core).state().term == old(core).state().term,
        final(core).id() == old(core).id(),
        final(core).config() == old(core).config(),
{
    let election_timeout = core.config().pick_election_timeout();
    let heartbeat_timeout = core.config().pick_heartbeat_timeout();
    let mut state = core.state();
    let response = state.recieve_append_entries_request(
        request,
        now,
        election_timeout,
        heartbeat_timeout,
    );
    core.install(state);
    response
}

} // verus!
