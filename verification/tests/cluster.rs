use barge::inner::{Role, State};
use barge::machinery::Broadcast;
use barge::messaging::{RequestVoteRequest, RequestVoteResponse};

const MS: u64 = 1_000_000;
const PERIOD: u64 = 50 * MS;
const ELECTION: u64 = 200 * MS;
const HEARTBEAT: u64 = 150 * MS;

/// A vote on its way from `voter` to `candidate`, granted or denied in
/// answer to a call for votes in `asked`.
#[derive(Debug, Clone, Copy)]
struct Reply {
    voter: usize,
    candidate: usize,
    asked: u64,
    response: RequestVoteResponse,
}

struct Cluster {
    replicas: Vec<State>,
    calls: Vec<(usize, usize, u64)>,
    replies: Vec<Reply>,
    promoted: Vec<(usize, u64)>,
    now: u64,
    seed: u64,
}

impl Cluster {
    fn new(nodes: usize, seed: u64) -> Self {
        let threshold = ((nodes - 1) / 2) as u32;
        let mut replicas = vec![State { vote_threshold: threshold, ..State::default() }; nodes];
        for (i, replica) in replicas.iter_mut().enumerate() {
            replica.start(10 * MS, HEARTBEAT + i as u64 * MS);
        }
        Cluster {
            replicas,
            calls: Vec::new(),
            replies: Vec::new(),
            promoted: Vec::new(),
            now: 10 * MS,
            seed,
        }
    }

    fn draw(&mut self, below: usize) -> usize {
        self.seed = self.seed.wrapping_mul(6364136223846793005).wrapping_add(1442695040888963407);
        ((self.seed >> 33) % below as u64) as usize
    }

    fn wake(&mut self, replica: usize) {
        let wake = self.replicas[replica].act(self.now, ELECTION, PERIOD);
        if let Broadcast::RequestVote { term } = wake.broadcast {
            for peer in 0..self.replicas.len() {
                if peer != replica {
                    self.calls.push((replica, peer, term));
                }
            }
        }
    }

    fn call(&mut self, candidate: usize, voter: usize, term: u64) {
        let request = RequestVoteRequest { term, candidate_id: format!("replica-{candidate}") };
        let response =
            self.replicas[voter].receive_request_vote_request(request, self.now, ELECTION);
        self.replies.push(Reply { voter, candidate, asked: term, response });
    }

    fn reply(&mut self, reply: Reply) {
        let broadcast = self.replicas[reply.candidate].receive_request_vote_response(
            reply.response,
            self.now,
            PERIOD,
            HEARTBEAT,
        );
        if let Broadcast::Heartbeat { term } = broadcast {
            assert_eq!(self.replicas[reply.candidate].role, Role::Leader);
            self.promoted.push((reply.candidate, term));
        }
    }

    /// Whether the reply may be handed over: a grant reaches a candidate
    /// only while it stands in the term for which the grant was given.
    fn in_time(&self, reply: &Reply) -> bool {
        let candidate = &self.replicas[reply.candidate];
        !reply.response.granted
            || candidate.role != Role::Candidate
            || candidate.term == reply.asked
    }

    fn step(&mut self) {
        self.now += 1 + self.draw(90) as u64 * MS;
        match self.draw(3) {
            0 => {
                let replica = self.draw(self.replicas.len());
                self.wake(replica);
            }
            1 if !self.calls.is_empty() => {
                let at = self.draw(self.calls.len());
                let (candidate, voter, term) = self.calls[at];
                // a call may arrive twice
                if self.draw(4) != 0 {
                    self.calls.swap_remove(at);
                }
                self.call(candidate, voter, term);
            }
            _ if !self.replies.is_empty() => {
                let at = self.draw(self.replies.len());
                let reply = self.replies.swap_remove(at);
                if self.in_time(&reply) {
                    self.reply(reply);
                }
            }
            _ => (),
        }
    }

    fn leaders_of(&self, term: u64) -> Vec<usize> {
        let mut leaders: Vec<usize> = self
            .promoted
            .iter()
            .filter(|(_, of)| *of == term)
            .map(|(replica, _)| *replica)
            .collect();
        leaders.sort();
        leaders.dedup();
        leaders
    }
}

fn run(nodes: usize, seed: u64) -> Cluster {
    let mut cluster = Cluster::new(nodes, seed);
    for _ in 0..400 {
        cluster.step();
        let terms: Vec<u64> = cluster.replicas.iter().map(|replica| replica.term).collect();
        for (i, replica) in cluster.replicas.iter().enumerate() {
            if replica.role == Role::Leader {
                assert!(cluster.promoted.contains(&(i, replica.term)), "{terms:?}");
            }
        }
    }
    cluster
}

#[test]
fn a_cluster_of_three_promotes_one_replica_at_most_in_a_term() {
    let mut promotions = 0;
    for seed in 0..300 {
        let cluster = run(3, seed);
        for (_, term) in &cluster.promoted {
            assert_eq!(cluster.leaders_of(*term).len(), 1, "seed {seed}, term {term}");
        }
        promotions += cluster.promoted.len();
    }
    assert!(promotions > 0);
}

#[test]
fn a_cluster_of_five_promotes_one_replica_at_most_in_a_term() {
    let mut promotions = 0;
    for seed in 0..300 {
        let cluster = run(5, seed);
        for (_, term) in &cluster.promoted {
            assert_eq!(cluster.leaders_of(*term).len(), 1, "seed {seed}, term {term}");
        }
        promotions += cluster.promoted.len();
    }
    assert!(promotions > 0);
}

#[test]
fn a_cluster_of_four_can_promote_two_replicas_in_one_term() {
    // three peers each: one grant is half of them, rounded down
    let mut cluster = Cluster::new(4, 0);
    cluster.now = 400 * MS;

    cluster.wake(0);
    cluster.wake(1);
    assert_eq!((cluster.replicas[0].term, cluster.replicas[1].term), (1, 1));
    cluster.call(0, 2, 1);
    cluster.call(1, 3, 1);
    let replies = cluster.replies.clone();
    for reply in replies {
        assert!(reply.response.granted);
        cluster.reply(reply);
    }

    assert_eq!(cluster.leaders_of(1), vec![0, 1]);
}

#[test]
fn a_grant_that_comes_late_can_promote_a_second_replica() {
    let mut cluster = Cluster::new(3, 0);
    cluster.now = 400 * MS;

    // 0 stands in term 1, and 1 grants
    cluster.wake(0);
    cluster.call(0, 1, 1);
    let late = cluster.replies.pop().unwrap();
    assert!(late.response.granted);

    // 0 and 2 both stand in term 2
    cluster.now += ELECTION;
    cluster.wake(0);
    cluster.wake(2);
    cluster.now += ELECTION;
    cluster.wake(2);
    assert_eq!((cluster.replicas[0].term, cluster.replicas[2].term), (2, 2));

    // 1 grants 2 its vote of term 2, and the grant of term 1 reaches 0
    cluster.call(2, 1, 2);
    let fresh = cluster.replies.pop().unwrap();
    assert!(fresh.response.granted);
    cluster.reply(fresh);
    assert!(!cluster.in_time(&late));
    cluster.reply(late);

    assert_eq!(cluster.leaders_of(2), vec![0, 2]);
}
