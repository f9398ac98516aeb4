//! The values that replicas exchange: one request and one response for each
//! of the two remote procedures.

use vstd::prelude::*;
use crate::errs::Result;

verus! {

/// Position of one entry of the replicated log.
#[derive(Debug, Clone, Copy, PartialEq, Eq)]
pub struct LogEntry {
    pub term: u64,
    pub index: u64,
}

/// A leader's heartbeat: it carries the leader's term and its identifier.
#[derive(Debug, Clone, PartialEq, Eq)]
pub struct AppendEntriesRequest {
    pub term: u64,
    pub leader_id: String,
}

/// Answer to a heartbeat.
#[derive(Debug, Clone, Copy, PartialEq, Eq)]
pub struct AppendEntriesResponse {
    pub term: u64,
    pub success: bool,
}

/// A candidate's call for votes in `term`.
#[derive(Debug, Clone, PartialEq, Eq)]
pub struct RequestVoteRequest {
    pub term: u64,
    pub candidate_id: String,
}

/// Answer to a call for votes.
#[derive(Debug, Clone, Copy, PartialEq, Eq)]
pub struct RequestVoteResponse {
    pub term: u64,
    pub granted: bool,
}

/// The two calls that a replica answers for its peers. Whoever receives the
/// calls hands each one over with the instant at which it arrived.
pub trait BargeService {
    /// Whether calls that arrive at `now` can be served.
    spec fn serves_at(&self, now: u64) -> bool;

    /// Answers a leader's heartbeat that arrives at `now`.
    fn append_entries(&mut self, request: AppendEntriesRequest, now: u64) -> (served: Result<
        AppendEntriesResponse,
    >)
        requires
            old(self).serves_at(now),
    ;

    /// Answers a candidate's call for votes that arrives at `now`.
    fn request_vote(&mut self, request: RequestVoteRequest, now: u64) -> (served: Result<
        RequestVoteResponse,
    >)
        requires
            old(self).serves_at(now),
    ;
}

impl Default for LogEntry {
    fn default() -> (entry: Self)
        ensures
            entry == (LogEntry { term: 0, index: 0 }),
    {
        LogEntry { term: 0, index: 0 }
    }
}

impl Default for AppendEntriesRequest {
    fn default() -> (request: Self)
        ensures
            request.term == 0,
            request.leader_id@ == Seq::<char>::empty(),
    {
        AppendEntriesRequest { term: 0, leader_id: String::new() }
    }
}

impl Default for AppendEntriesResponse {
    fn default() -> (response: Self)
        ensures
            response == (AppendEntriesResponse { term: 0, success: false }),
    {
        AppendEntriesResponse { term: 0, success: false }
    }
}

impl Default for RequestVoteRequest {
    fn default() -> (request: Self)
        ensures
            request.term == 0,
            request.candidate_id@ == Seq::<char>::empty(),
    {
        RequestVoteRequest { term: 0, candidate_id: String::new() }
    }
}

impl Default for RequestVoteResponse {
    fn default() -> (response: Self)
        ensures
            response == (RequestVoteResponse { term: 0, granted: false }),
    {
        RequestVoteResponse { term: 0, granted: false }
    }
}

} // verus!
