//! What holds of a replica over any sequence of events.
//!
//! An [`Event`] is one call of a handler of [`State`], with its arguments. The
//! state after an event is the one that the handler's contract names, so what
//! is proved here of sequences of events holds of any run of the handlers.

use vstd::prelude::*;
use crate::inner::{plannable, State};
use crate::messaging::{AppendEntriesResponse, RequestVoteResponse};

verus! {

/// One thing that happens to a replica.
pub enum Event {
    /// The driver starts at `now` and sleeps for `sleep`.
    Start { now: u64, sleep: u64 },
    /// The driver wakes at `now`.
    Act { now: u64, election_timeout: u64 },
    /// A peer's answer to a call for votes arrives at `now`.
    VoteResponse { term: u64, granted: bool, now: u64, heartbeat_timeout: u64 },
    /// A peer's answer to a heartbeat arrives at `now`.
    AppendResponse { term: u64, success: bool, now: u64, heartbeat_timeout: u64 },
    /// A call for votes in `term` arrives at `now`.
    VoteRequest { term: u64, now: u64, election_timeout: u64 },
    /// A heartbeat that carries `term` arrives at `now`.
    AppendRequest { term: u64, now: u64, election_timeout: u64, heartbeat_timeout: u64 },
    /// The transport fails a call to a peer.
    Failure,
}

impl Event {
    /// Whether the event comes from the replica's own driver or from a call
    /// of its own that failed, with no word from any peer.
    pub open spec fn silent(self) -> bool {
        self is Start || self is Act || self is Failure
    }
}

impl State {
    /// Whether the handler of `event` accepts the replica in this state, for
    /// a leader that sends a heartbeat every `heartbeat_period`.
    pub open spec fn admits(self, event: Event, heartbeat_period: u64) -> bool {
        match event {
            Event::Start { now, sleep } => plannable(now, sleep),
            Event::Act { now, election_timeout } => self.admits_act(
                now,
                election_timeout,
                heartbeat_period,
            ),
            Event::VoteResponse {
                term,
                granted,
                now,
                heartbeat_timeout,
            } => self.admits_vote_response(
                RequestVoteResponse { term, granted },
                now,
                heartbeat_period,
                heartbeat_timeout,
            ),
            Event::AppendResponse {
                term,
                success,
                now,
                heartbeat_timeout,
            } => self.admits_append_response(
                AppendEntriesResponse { term, success },
                now,
                heartbeat_timeout,
            ),
            Event::VoteRequest { term, now, election_timeout } => self.admits_vote_request(
                term,
                now,
                election_timeout,
            ),
            Event::AppendRequest {
                term,
                now,
                election_timeout,
                heartbeat_timeout,
            } => self.admits_append_request(term, now, election_timeout, heartbeat_timeout),
            Event::Failure => true,
        }
    }

    /// The state after `event`.
    pub open spec fn after(self, event: Event, heartbeat_period: u64) -> State {
        match event {
            Event::Start { now, sleep } => self.after_start(now, sleep),
            Event::Act { now, election_timeout } => self.after_act(
                now,
                election_timeout,
                heartbeat_period,
            ),
            Event::VoteResponse {
                term,
                granted,
                now,
                heartbeat_timeout,
            } => self.after_vote_response(
                RequestVoteResponse { term, granted },
                now,
                heartbeat_period,
                heartbeat_timeout,
            ),
            Event::AppendResponse {
                term,
                success,
                now,
                heartbeat_timeout,
            } => self.after_append_response(
                AppendEntriesResponse { term, success },
                now,
                heartbeat_timeout,
            ),
            Event::VoteRequest { term, now, election_timeout } => self.after_vote_request(
                term,
                now,
                election_timeout,
            ),
            Event::AppendRequest {
                term,
                now,
                election_timeout,
                heartbeat_timeout,
            } => self.after_append_request(term, now, election_timeout, heartbeat_timeout),
            Event::Failure => self,
        }
    }

    /// The state after all of `events`, in their order.
    pub open spec fn after_all(self, events: Seq<Event>, heartbeat_period: u64) -> State
        decreases events.len(),
    {
        if events.len() == 0 {
            self
        } else {
            self.after_all(events.drop_last(), heartbeat_period).after(
                events.last(),
                heartbeat_period,
            )
        }
    }

    /// Whether each of `events`, in their order, finds the replica in a state
    /// that its handler accepts.
    pub open spec fn admits_all(self, events: Seq<Event>, heartbeat_period: u64) -> bool
        decreases events.len(),
    {
        events.len() > 0 ==> {
            &&& self.admits_all(events.drop_last(), heartbeat_period)
            &&& self.after_all(events.drop_last(), heartbeat_period).admits(
                events.last(),
                heartbeat_period,
            )
        }
    }
}

/// One event leaves a well-formed state well formed, keeps its threshold, and
/// does not lower its term.
pub proof fn lemma_step(state: State, event: Event, heartbeat_period: u64)
    requires
        state.wf(),
        state.admits(event, heartbeat_period),
    ensures
        state.after(event, heartbeat_period).wf(),
        state.after(event, heartbeat_period).vote_threshold == state.vote_threshold,
        state.after(event, heartbeat_period).term >= state.term,
{
}

/// Any sequence of events leaves a well-formed state well formed and keeps
/// its threshold.
pub proof fn lemma_well_formed_after_all(state: State, events: Seq<Event>, heartbeat_period: u64)
    requires
        state.wf(),
        state.admits_all(events, heartbeat_period),
    ensures
        state.after_all(events, heartbeat_period).wf(),
        state.after_all(events, heartbeat_period).vote_threshold == state.vote_threshold,
    decreases events.len(),
{
    if events.len() > 0 {
        lemma_well_formed_after_all(state, events.drop_last(), heartbeat_period);
        lemma_step(
            state.after_all(events.drop_last(), heartbeat_period),
            events.last(),
            heartbeat_period,
        );
    }
}

/// A sequence of events that a state admits is admitted up to any point.
pub proof fn lemma_admits_prefix(state: State, events: Seq<Event>, heartbeat_period: u64, n: int)
    requires
        state.admits_all(events, heartbeat_period),
        0 <= n <= events.len(),
    ensures
        state.admits_all(events.take(n), heartbeat_period),
    decreases events.len(),
{
    if n == events.len() {
        assert(events.take(n) == events);
    } else {
        lemma_admits_prefix(state, events.drop_last(), heartbeat_period, n);
        assert(events.drop_last().take(n) == events.take(n));
    }
}

/// The term of a replica never decreases: over any sequence of events, the
/// term after the first `earlier` of them is at most the term after the first
/// `later` of them.
pub proof fn lemma_term_never_decreases(
    state: State,
    events: Seq<Event>,
    heartbeat_period: u64,
    earlier: int,
    later: int,
)
    requires
        state.wf(),
        state.admits_all(events, heartbeat_period),
        0 <= earlier <= later <= events.len(),
    ensures
        state.after_all(events.take(earlier), heartbeat_period).term <= state.after_all(
            events.take(later),
            heartbeat_period,
        ).term,
    decreases later - earlier,
{
    if earlier < later {
        let shorter = events.take(later - 1);
        let longer = events.take(later);
        assert(longer.drop_last() == shorter);
        lemma_term_never_decreases(state, events, heartbeat_period, earlier, later - 1);
        lemma_admits_prefix(state, events, heartbeat_period, later);
        lemma_admits_prefix(state, events, heartbeat_period, later - 1);
        lemma_well_formed_after_all(state, shorter, heartbeat_period);
        lemma_step(state.after_all(shorter, heartbeat_period), longer.last(), heartbeat_period);
    }
}

/// A replica grants one call for votes at most in a term: once it has
/// granted a call in `term`, it denies every call in `term` that follows,
/// whatever happens to it in between.
pub proof fn lemma_one_grant_per_term(
    state: State,
    term: u64,
    now: u64,
    election_timeout: u64,
    events: Seq<Event>,
    heartbeat_period: u64,
)
    requires
        state.wf(),
        state.vote_reply(term).granted,
        state.admits_vote_request(term, now, election_timeout),
        state.after_vote_request(term, now, election_timeout).admits_all(events, heartbeat_period),
    ensures
        !state.after_vote_request(term, now, election_timeout).after_all(
            events,
            heartbeat_period,
        ).vote_reply(term).granted,
{
    let granted = state.after_vote_request(term, now, election_timeout);
    assert(events.take(0) == Seq::<Event>::empty());
    assert(events.take(events.len() as int) == events);
    lemma_term_never_decreases(granted, events, heartbeat_period, 0, events.len() as int);
}

/// While no peer is heard, a replica that is not the leader does not become
/// the leader, and a candidate stays a candidate.
pub proof fn lemma_silence_elects_nobody(state: State, events: Seq<Event>, heartbeat_period: u64)
    requires
        !(state.role is Leader),
        forall|i: int| 0 <= i < events.len() ==> (#[trigger] events[i]).silent(),
    ensures
        !(state.after_all(events, heartbeat_period).role is Leader),
        state.role is Candidate ==> state.after_all(events, heartbeat_period).role is Candidate,
    decreases events.len(),
{
    if events.len() > 0 {
        lemma_silence_elects_nobody(state, events.drop_last(), heartbeat_period);
        assert(events.last() == events[events.len() - 1]);
    }
}

/// While no peer is heard, a replica that starts as a follower is a
/// candidate from its first wake at or after its deadline on, and is never
/// the leader: if the event at `expiry` is such a wake, the replica is a
/// candidate after any `later` number of events beyond it.
pub proof fn lemma_silence_makes_a_lasting_candidate(
    state: State,
    events: Seq<Event>,
    heartbeat_period: u64,
    expiry: int,
    later: int,
)
    requires
        state.role is Follower,
        forall|i: int| 0 <= i < events.len() ==> (#[trigger] events[i]).silent(),
        0 <= expiry < later <= events.len(),
        events[expiry] matches Event::Act { now, .. } && now >= state.after_all(
            events.take(expiry),
            heartbeat_period,
        ).deadline,
    ensures
        state.after_all(events.take(later), heartbeat_period).role is Candidate,
        forall|n: int|
            0 <= n <= events.len() ==> !(#[trigger] state.after_all(
                events.take(n),
                heartbeat_period,
            ).role is Leader),
    decreases later - expiry,
{
    assert forall|n: int| 0 <= n <= events.len() implies !(#[trigger] state.after_all(
        events.take(n),
        heartbeat_period,
    ).role is Leader) by {
        lemma_silence_elects_nobody(state, events.take(n), heartbeat_period);
    }
    let shorter = events.take(later - 1);
    let longer = events.take(later);
    assert(longer.drop_last() == shorter);
    assert(longer.last() == events[later - 1]);
    if later - 1 == expiry {
        lemma_silence_elects_nobody(state, shorter, heartbeat_period);
    } else {
        lemma_silence_makes_a_lasting_candidate(state, events, heartbeat_period, expiry, later - 1);
    }
}

} // verus!
