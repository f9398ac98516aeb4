//! What holds of a whole cluster: one leader at most in each term.
//!
//! The cluster is a model. Each replica in it moves by the rules of
//! [`State`], in any order and at any instants. A call for votes may arrive
//! any number of times or never; denials, heartbeats and their answers may
//! carry any term at all. A granted vote, though, reaches its candidate only
//! if a voter has granted it, and once at most.
//!
//! The rules count a granted vote for the candidate's current term, whatever
//! the term was for which it was granted, and their threshold is a majority
//! only of a cluster with an even number of peers. What is proved here
//! therefore asks for an even number of peers, and for granted votes that
//! reach their candidate in time: before it stands in a later term.

use vstd::prelude::*;
use vstd::set_lib::{lemma_int_range, lemma_len_subset, lemma_set_disjoint_lens, set_int_range};
use crate::history::{lemma_step, Event};
use crate::inner::State;
use crate::messaging::RequestVoteResponse;

verus! {

/// The vote that `voter` has to give in `term`.
pub struct Ballot {
    pub voter: int,
    pub term: u64,
}

/// A replica's stand in one term, as a candidate or as the leader.
pub struct Tenure {
    pub replica: int,
    pub term: u64,
}

/// A cluster of replicas, with a record of the votes in it.
pub struct Cluster {
    /// The replicas, each with the others as its peers.
    pub replicas: Seq<State>,
    /// Time between two heartbeats of a leader.
    pub heartbeat_period: u64,
    /// Every candidacy that was started.
    pub stood: Set<Tenure>,
    /// Every vote that was granted, with the candidate that it went to.
    pub cast: Map<Ballot, int>,
    /// The granted votes that are on their way to their candidate.
    pub pending: Set<Ballot>,
    /// The granted votes that their candidate has counted.
    pub counted: Set<Ballot>,
    /// Every promotion of a candidate to leader.
    pub elected: Set<Tenure>,
}

/// One thing that happens in a cluster.
pub enum Step {
    /// Something happens to `replica` that hands it no call for votes and no
    /// granted vote.
    Local { replica: int, event: Event },
    /// The call for votes of `candidate` in `term` reaches `voter`.
    Call { voter: int, candidate: int, term: u64, now: u64, election_timeout: u64 },
    /// The granted vote `ballot` reaches its candidate.
    Grant { ballot: Ballot, now: u64, heartbeat_timeout: u64 },
}

/// The answer that carries a granted vote.
pub open spec fn granted() -> RequestVoteResponse {
    RequestVoteResponse { term: 0, granted: true }
}

impl Cluster {
    /// A cluster of `peer_count + 1` replicas none of which has yet taken
    /// part in an election.
    pub open spec fn fresh(peer_count: nat, heartbeat_period: u64) -> Cluster {
        Cluster {
            replicas: Seq::new(peer_count + 1, |i: int| State::initial(peer_count)),
            heartbeat_period,
            stood: Set::empty(),
            cast: Map::empty(),
            pending: Set::empty(),
            counted: Set::empty(),
            elected: Set::empty(),
        }
    }

    /// Whether `replica` is one of the cluster.
    pub open spec fn has(self, replica: int) -> bool {
        0 <= replica < self.replicas.len()
    }

    /// The voters whose votes of `term` the candidate `replica` has counted.
    pub open spec fn tally(self, replica: int, term: u64) -> Set<int> {
        Set::new(
            |voter: int|
                self.counted.contains(Ballot { voter, term }) && self.cast[Ballot { voter, term }]
                    == replica,
        )
    }

    /// Whether `step` can happen in this cluster: it concerns replicas of the
    /// cluster, a call for votes comes from a candidacy that was started, a
    /// granted vote is on its way, and the handler accepts the replica.
    pub open spec fn allows(self, step: Step) -> bool {
        match step {
            Step::Local { replica, event } => {
                &&& self.has(replica)
                &&& !(event is VoteRequest)
                &&& event matches Event::VoteResponse { granted, .. } ==> !granted
                &&& self.replicas[replica].admits(event, self.heartbeat_period)
            },
            Step::Call { voter, candidate, term, now, election_timeout } => {
                &&& self.has(voter)
                &&& self.has(candidate)
                &&& voter != candidate
                &&& self.stood.contains(Tenure { replica: candidate, term })
                &&& self.replicas[voter].admits(
                    Event::VoteRequest { term, now, election_timeout },
                    self.heartbeat_period,
                )
            },
            Step::Grant { ballot, now, heartbeat_timeout } => {
                &&& self.pending.contains(ballot)
                &&& self.cast.dom().contains(ballot)
                &&& self.has(self.cast[ballot])
                &&& self.replicas[self.cast[ballot]].admits(
                    Event::VoteResponse { term: 0, granted: true, now, heartbeat_timeout },
                    self.heartbeat_period,
                )
            },
        }
    }

    /// Whether `step` hands no candidate a vote that was granted for another
    /// term than the candidate's own.
    pub open spec fn in_time(self, step: Step) -> bool {
        step matches Step::Grant { ballot, .. } ==> {
            let candidate = self.replicas[self.cast[ballot]];
            candidate.role is Candidate ==> candidate.term == ballot.term
        }
    }

    /// The cluster after `step`.
    pub open spec fn after(self, step: Step) -> Cluster {
        match step {
            Step::Local { replica, event } => {
                let before = self.replicas[replica];
                let now = before.after(event, self.heartbeat_period);
                Cluster {
                    replicas: self.replicas.update(replica, now),
                    stood: if event matches Event::Act { now: instant, .. }
                        && before.starts_election_at(instant) {
                        self.stood.insert(Tenure { replica, term: now.term })
                    } else {
                        self.stood
                    },
                    ..self
                }
            },
            Step::Call { voter, candidate, term, now, election_timeout } => {
                let before = self.replicas[voter];
                let ballot = Ballot { voter, term };
                let given = before.vote_reply(term).granted;
                Cluster {
                    replicas: self.replicas.update(
                        voter,
                        before.after_vote_request(term, now, election_timeout),
                    ),
                    cast: if given {
                        self.cast.insert(ballot, candidate)
                    } else {
                        self.cast
                    },
                    pending: if given {
                        self.pending.insert(ballot)
                    } else {
                        self.pending
                    },
                    ..self
                }
            },
            Step::Grant { ballot, now, heartbeat_timeout } => {
                let candidate = self.cast[ballot];
                let before = self.replicas[candidate];
                Cluster {
                    replicas: self.replicas.update(
                        candidate,
                        before.after_vote_response(
                            granted(),
                            now,
                            self.heartbeat_period,
                            heartbeat_timeout,
                        ),
                    ),
                    pending: self.pending.remove(ballot),
                    counted: if before.role is Candidate {
                        self.counted.insert(ballot)
                    } else {
                        self.counted
                    },
                    elected: if before.wins_with(granted()) {
                        self.elected.insert(Tenure { replica: candidate, term: before.term })
                    } else {
                        self.elected
                    },
                    ..self
                }
            },
        }
    }

    /// The cluster after all of `steps`, in their order.
    pub open spec fn after_all(self, steps: Seq<Step>) -> Cluster
        decreases steps.len(),
    {
        if steps.len() == 0 {
            self
        } else {
            self.after_all(steps.drop_last()).after(steps.last())
        }
    }

    /// Whether each of `steps`, in their order, can happen and is in time.
    pub open spec fn follows(self, steps: Seq<Step>) -> bool
        decreases steps.len(),
    {
        steps.len() > 0 ==> {
            &&& self.follows(steps.drop_last())
            &&& self.after_all(steps.drop_last()).allows(steps.last())
            &&& self.after_all(steps.drop_last()).in_time(steps.last())
        }
    }

    /// What every step keeps of a cluster of `peer_count + 1` replicas.
    pub open spec fn sound(self, peer_count: nat) -> bool {
        &&& self.replicas.len() == peer_count + 1
        &&& forall|i: int|
            self.has(i) ==> (#[trigger] self.replicas[i]).wf() && self.replicas[i].vote_threshold
                == peer_count / 2
        &&& forall|tenure: Tenure| #[trigger]
            self.stood.contains(tenure) ==> self.has(tenure.replica)
                && self.replicas[tenure.replica].term >= tenure.term
        &&& forall|ballot: Ballot| #[trigger]
            self.cast.dom().contains(ballot) ==> {
                &&& self.has(ballot.voter)
                &&& self.has(self.cast[ballot])
                &&& self.replicas[ballot.voter].term >= ballot.term
                &&& self.stood.contains(Tenure { replica: self.cast[ballot], term: ballot.term })
                &&& !self.stood.contains(Tenure { replica: ballot.voter, term: ballot.term })
            }
        &&& forall|ballot: Ballot| #[trigger]
            self.pending.contains(ballot) ==> self.cast.dom().contains(ballot)
                && !self.counted.contains(ballot)
        &&& forall|ballot: Ballot| #[trigger]
            self.counted.contains(ballot) ==> self.cast.dom().contains(ballot)
        &&& forall|i: int|
            self.has(i) && (#[trigger] self.replicas[i]).role is Candidate
                ==> self.replicas[i].vote_count == self.tally(i, self.replicas[i].term).len()
        &&& forall|tenure: Tenure| #[trigger]
            self.elected.contains(tenure) ==> self.stood.contains(tenure) && self.tally(
                tenure.replica,
                tenure.term,
            ).len() >= peer_count / 2
        &&& forall|i: int|
            self.has(i) && (#[trigger] self.replicas[i]).role is Leader
                ==> self.elected.contains(Tenure { replica: i, term: self.replicas[i].term })
    }
}

/// A tally holds replicas of the cluster only, and none that stood in the
/// tally's term itself.
proof fn lemma_tally_bounded(cluster: Cluster, peer_count: nat, replica: int, term: u64)
    requires
        cluster.sound(peer_count),
    ensures
        cluster.tally(replica, term).subset_of(set_int_range(0, peer_count + 1 as int)),
        cluster.tally(replica, term).finite(),
        cluster.tally(replica, term).len() <= peer_count + 1,
        forall|voter: int| #[trigger]
            cluster.tally(replica, term).contains(voter) ==> !cluster.stood.contains(
                Tenure { replica: voter, term },
            ),
{
    let tally = cluster.tally(replica, term);
    assert forall|voter: int| #[trigger] tally.contains(voter) implies set_int_range(
        0,
        peer_count + 1 as int,
    ).contains(voter) && !cluster.stood.contains(Tenure { replica: voter, term }) by {
        assert(cluster.counted.contains(Ballot { voter, term }));
        assert(cluster.cast.dom().contains(Ballot { voter, term }));
    }
    lemma_int_range(0, peer_count + 1 as int);
    lemma_len_subset(tally, set_int_range(0, peer_count + 1 as int));
}

/// A cluster in which nothing has happened is sound.
proof fn lemma_fresh_is_sound(peer_count: nat, heartbeat_period: u64)
    requires
        peer_count <= u32::MAX,
    ensures
        Cluster::fresh(peer_count, heartbeat_period).sound(peer_count),
{
    let cluster = Cluster::fresh(peer_count, heartbeat_period);
    assert forall|i: int|
        cluster.has(i) && (#[trigger] cluster.replicas[i]).role is Candidate implies false by {}
}

/// A step that hands no vote to anyone keeps a sound cluster sound.
proof fn lemma_local_keeps_sound(cluster: Cluster, peer_count: nat, step: Step)
    requires
        cluster.sound(peer_count),
        cluster.allows(step),
        step is Local,
    ensures
        cluster.after(step).sound(peer_count),
{
    let replica = step->Local_replica;
    let event = step->event;
    let next = cluster.after(step);
    let before = cluster.replicas[replica];
    let now = next.replicas[replica];
    lemma_step(before, event, cluster.heartbeat_period);
    assert forall|i: int, term: u64| next.tally(i, term) == cluster.tally(i, term) by {
        assert(next.tally(i, term) =~= cluster.tally(i, term));
    }
    assert forall|i: int|
        next.has(i) && (#[trigger] next.replicas[i]).role is Candidate implies next.replicas[i]
        .vote_count == next.tally(i, next.replicas[i].term).len() by {
        if i == replica {
            if event matches Event::Act { now: instant, .. } && before.starts_election_at(instant) {
                let tally = cluster.tally(replica, now.term);
                assert forall|voter: int| !tally.contains(voter) by {
                    if tally.contains(voter) {
                        assert(cluster.cast.dom().contains(Ballot { voter, term: now.term }));
                        assert(cluster.stood.contains(Tenure { replica, term: now.term }));
                    }
                }
                assert(tally =~= Set::<int>::empty());
            } else {
                assert(before.role is Candidate);
                assert(now.term == before.term && now.vote_count == before.vote_count);
            }
        } else {
            assert(next.replicas[i] == cluster.replicas[i]);
        }
    }
    assert forall|i: int|
        next.has(i) && (#[trigger] next.replicas[i]).role is Leader implies next.elected.contains(
        Tenure { replica: i, term: next.replicas[i].term },
    ) by {
        if i == replica {
            assert(before.role is Leader && now.term == before.term);
        } else {
            assert(next.replicas[i] == cluster.replicas[i]);
        }
    }
    assert forall|ballot: Ballot| #[trigger] next.cast.dom().contains(ballot) implies {
        &&& next.has(ballot.voter)
        &&& next.has(next.cast[ballot])
        &&& next.replicas[ballot.voter].term >= ballot.term
        &&& next.stood.contains(Tenure { replica: next.cast[ballot], term: ballot.term })
        &&& !next.stood.contains(Tenure { replica: ballot.voter, term: ballot.term })
    } by {
        assert(cluster.cast.dom().contains(ballot));
    }
}

/// A call for votes that arrives keeps a sound cluster sound.
proof fn lemma_call_keeps_sound(cluster: Cluster, peer_count: nat, step: Step)
    requires
        cluster.sound(peer_count),
        cluster.allows(step),
        step is Call,
    ensures
        cluster.after(step).sound(peer_count),
{
    let voter = step->voter;
    let candidate = step->candidate;
    let term = step->term;
    let next = cluster.after(step);
    let before = cluster.replicas[voter];
    let now = next.replicas[voter];
    let fresh = Ballot { voter, term };
    lemma_step(
        before,
        Event::VoteRequest { term, now: step->Call_now, election_timeout: step->election_timeout },
        cluster.heartbeat_period,
    );
    if before.vote_reply(term).granted {
        assert(!cluster.cast.dom().contains(fresh));
        assert(!cluster.counted.contains(fresh));
        assert(!cluster.stood.contains(Tenure { replica: voter, term }));
    }
    assert forall|i: int, of: u64| next.tally(i, of) == cluster.tally(i, of) by {
        assert(next.tally(i, of) =~= cluster.tally(i, of));
    }
    assert forall|i: int|
        next.has(i) && (#[trigger] next.replicas[i]).role is Candidate implies next.replicas[i]
        .vote_count == next.tally(i, next.replicas[i].term).len() by {
        if i != voter {
            assert(next.replicas[i] == cluster.replicas[i]);
        }
    }
    assert forall|i: int|
        next.has(i) && (#[trigger] next.replicas[i]).role is Leader implies next.elected.contains(
        Tenure { replica: i, term: next.replicas[i].term },
    ) by {
        if i != voter {
            assert(next.replicas[i] == cluster.replicas[i]);
        }
    }
    assert forall|ballot: Ballot| #[trigger] next.cast.dom().contains(ballot) implies {
        &&& next.has(ballot.voter)
        &&& next.has(next.cast[ballot])
        &&& next.replicas[ballot.voter].term >= ballot.term
        &&& next.stood.contains(Tenure { replica: next.cast[ballot], term: ballot.term })
        &&& !next.stood.contains(Tenure { replica: ballot.voter, term: ballot.term })
    } by {
        if ballot != fresh {
            assert(cluster.cast.dom().contains(ballot));
        }
    }
    assert forall|ballot: Ballot| #[trigger]
        next.pending.contains(ballot) implies next.cast.dom().contains(ballot)
        && !next.counted.contains(ballot) by {
        if ballot != fresh {
            assert(cluster.pending.contains(ballot));
        }
    }
}

/// A granted vote that arrives in time keeps a sound cluster sound.
proof fn lemma_grant_keeps_sound(cluster: Cluster, peer_count: nat, step: Step)
    requires
        cluster.sound(peer_count),
        cluster.allows(step),
        cluster.in_time(step),
        step is Grant,
    ensures
        cluster.after(step).sound(peer_count),
{
    let ballot = step->ballot;
    let candidate = cluster.cast[ballot];
    let next = cluster.after(step);
    let before = cluster.replicas[candidate];
    let now = next.replicas[candidate];
    lemma_step(
        before,
        Event::VoteResponse {
            term: 0,
            granted: true,
            now: step->Grant_now,
            heartbeat_timeout: step->heartbeat_timeout,
        },
        cluster.heartbeat_period,
    );
    assert(cluster.cast.dom().contains(ballot));
    assert forall|i: int, of: u64|
        !(before.role is Candidate && i == candidate && of == ballot.term) implies next.tally(i, of)
        == cluster.tally(i, of) by {
        assert(next.tally(i, of) =~= cluster.tally(i, of));
    }
    if before.role is Candidate {
        lemma_tally_bounded(cluster, peer_count, candidate, ballot.term);
        assert(next.tally(candidate, ballot.term) =~= cluster.tally(candidate, ballot.term).insert(
            ballot.voter,
        ));
        assert(!cluster.tally(candidate, ballot.term).contains(ballot.voter));
        assert(next.tally(candidate, ballot.term).len() == before.vote_count + 1);
    }
    assert forall|i: int|
        next.has(i) && (#[trigger] next.replicas[i]).role is Candidate implies next.replicas[i]
        .vote_count == next.tally(i, next.replicas[i].term).len() by {
        if i != candidate {
            assert(next.replicas[i] == cluster.replicas[i]);
        }
    }
    assert forall|i: int|
        next.has(i) && (#[trigger] next.replicas[i]).role is Leader implies next.elected.contains(
        Tenure { replica: i, term: next.replicas[i].term },
    ) by {
        if i != candidate {
            assert(next.replicas[i] == cluster.replicas[i]);
        }
    }
    assert forall|tenure: Tenure| #[trigger]
        next.elected.contains(tenure) implies next.stood.contains(tenure) && next.tally(
        tenure.replica,
        tenure.term,
    ).len() >= peer_count / 2 by {
        if cluster.elected.contains(tenure) {
            if before.role is Candidate && tenure.replica == candidate && tenure.term
                == ballot.term {
            }
        } else {
            assert(tenure == Tenure { replica: candidate, term: before.term });
        }
    }
    assert forall|other: Ballot| #[trigger]
        next.pending.contains(other) implies next.cast.dom().contains(other)
        && !next.counted.contains(other) by {
        assert(cluster.pending.contains(other));
    }
}

/// A step that can happen and is in time keeps a sound cluster sound.
pub proof fn lemma_step_keeps_sound(cluster: Cluster, peer_count: nat, step: Step)
    requires
        cluster.sound(peer_count),
        cluster.allows(step),
        cluster.in_time(step),
    ensures
        cluster.after(step).sound(peer_count),
{
    match step {
        Step::Local { .. } => lemma_local_keeps_sound(cluster, peer_count, step),
        Step::Call { .. } => lemma_call_keeps_sound(cluster, peer_count, step),
        Step::Grant { .. } => lemma_grant_keeps_sound(cluster, peer_count, step),
    }
}

/// Whatever happens in a cluster that starts fresh, it stays sound.
pub proof fn lemma_sound_after_all(peer_count: nat, heartbeat_period: u64, steps: Seq<Step>)
    requires
        peer_count <= u32::MAX,
        Cluster::fresh(peer_count, heartbeat_period).follows(steps),
    ensures
        Cluster::fresh(peer_count, heartbeat_period).after_all(steps).sound(peer_count),
    decreases steps.len(),
{
    if steps.len() == 0 {
        lemma_fresh_is_sound(peer_count, heartbeat_period);
    } else {
        lemma_sound_after_all(peer_count, heartbeat_period, steps.drop_last());
        lemma_step_keeps_sound(
            Cluster::fresh(peer_count, heartbeat_period).after_all(steps.drop_last()),
            peer_count,
            steps.last(),
        );
    }
}

/// In a sound cluster with an even number of peers, two promotions in one
/// term are promotions of one replica.
proof fn lemma_sound_has_one_leader(
    cluster: Cluster,
    peer_count: nat,
    first: int,
    second: int,
    term: u64,
)
    requires
        cluster.sound(peer_count),
        peer_count % 2 == 0,
        cluster.elected.contains(Tenure { replica: first, term }),
        cluster.elected.contains(Tenure { replica: second, term }),
    ensures
        first == second,
{
    if first != second {
        let one = cluster.tally(first, term);
        let other = cluster.tally(second, term);
        lemma_tally_bounded(cluster, peer_count, first, term);
        lemma_tally_bounded(cluster, peer_count, second, term);
        assert(cluster.stood.contains(Tenure { replica: first, term }));
        assert(cluster.stood.contains(Tenure { replica: second, term }));
        assert(one.disjoint(other));
        lemma_set_disjoint_lens(one, other);
        let rest = set_int_range(0, peer_count + 1 as int).remove(first).remove(second);
        lemma_int_range(0, peer_count + 1 as int);
        assert((one + other).subset_of(rest));
        lemma_len_subset(one + other, rest);
        assert(rest.len() == peer_count - 1);
        assert(one.len() >= peer_count / 2);
        assert(other.len() >= peer_count / 2);
    }
}

/// At most one replica is promoted to leader in any one term.
///
/// Take a cluster with an even number of peers that starts fresh, and let
/// anything happen in it, in any order and at any instants, so long as each
/// granted vote reaches a candidate that still stands in the term for which
/// the vote was granted or that stands no more. If `first` and `second`
/// were both promoted in `term`, they are one replica.
pub proof fn lemma_one_leader_per_term(
    peer_count: nat,
    heartbeat_period: u64,
    steps: Seq<Step>,
    first: int,
    second: int,
    term: u64,
)
    requires
        peer_count % 2 == 0,
        peer_count <= u32::MAX,
        Cluster::fresh(peer_count, heartbeat_period).follows(steps),
        Cluster::fresh(peer_count, heartbeat_period).after_all(steps).elected.contains(
            Tenure { replica: first, term },
        ),
        Cluster::fresh(peer_count, heartbeat_period).after_all(steps).elected.contains(
            Tenure { replica: second, term },
        ),
    ensures
        first == second,
{
    lemma_sound_after_all(peer_count, heartbeat_period, steps);
    lemma_sound_has_one_leader(
        Cluster::fresh(peer_count, heartbeat_period).after_all(steps),
        peer_count,
        first,
        second,
        term,
    );
}

/// At most one replica is the leader of any one term at any one time, under
/// the conditions of `lemma_one_leader_per_term`.
pub proof fn lemma_one_leader_at_a_time(
    peer_count: nat,
    heartbeat_period: u64,
    steps: Seq<Step>,
    first: int,
    second: int,
)
    requires
        peer_count % 2 == 0,
        peer_count <= u32::MAX,
        Cluster::fresh(peer_count, heartbeat_period).follows(steps),
        ({
            let cluster = Cluster::fresh(peer_count, heartbeat_period).after_all(steps);
            &&& cluster.has(first)
            &&& cluster.has(second)
            &&& cluster.replicas[first].role is Leader
            &&& cluster.replicas[second].role is Leader
            &&& cluster.replicas[first].term == cluster.replicas[second].term
        }),
    ensures
        first == second,
{
    let cluster = Cluster::fresh(peer_count, heartbeat_period).after_all(steps);
    lemma_sound_after_all(peer_count, heartbeat_period, steps);
    lemma_sound_has_one_leader(cluster, peer_count, first, second, cluster.replicas[first].term);
}

} // verus!
