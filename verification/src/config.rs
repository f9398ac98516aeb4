//! What a replica is told at construction about its cluster and its timers.

use vstd::prelude::*;
use crate::chance::uniform_inclusive;
use crate::inner::{can_plan, plannable};

verus! {

/// An interval of waits, in nanoseconds, both ends included.
#[derive(Debug, Clone, Copy, PartialEq, Eq, Structural)]
pub struct TimeoutRange {
    pub min: u64,
    pub max: u64,
}

impl TimeoutRange {
    /// The interval is inverted when its lower end lies above its upper end.
    pub open spec fn inverted(self) -> bool {
        self.min > self.max
    }

    /// Whether `wait` lies in the interval.
    pub open spec fn contains(self, wait: u64) -> bool {
        self.min <= wait <= self.max
    }

    /// Draws a wait from the interval, each one equally likely.
    pub fn pick(&self) -> (wait: u64)
        requires
            !self.inverted(),
        ensures
            self.contains(wait),
    {
        uniform_inclusive(self.min, self.max)
    }
}

/// Configuration of one replica. It does not change after construction.
#[derive(Debug, Clone, PartialEq, Eq)]
pub struct Config {
    /// Addresses of all other replicas.
    pub peer_uris: Vec<String>,
    /// How long a follower waits for a heartbeat before it starts an election.
    pub heartbeat_timeout: TimeoutRange,
    /// How long a candidate waits before it starts the next election.
    pub election_timeout: TimeoutRange,
    /// Time between two heartbeats of a leader, in nanoseconds.
    pub send_heartbeat_period: u64,
}

/// Why a configuration was rejected.
#[derive(Debug, Clone, Copy, PartialEq, Eq, Structural)]
pub enum ConfigError {
    /// The list of peers is empty.
    NoPeers,
    /// The heartbeat-timeout range is inverted.
    InvertedHeartbeatTimeout,
    /// The election-timeout range is inverted.
    InvertedElectionTimeout,
}

impl ConfigError {
    /// What `to_string` returns for the error.
    pub open spec fn rendered(self) -> Seq<char> {
        match self {
            ConfigError::NoPeers => "ConfigError: peer_uris is empty"@,
            ConfigError::InvertedHeartbeatTimeout => {
                "ConfigError: heartbeat timeout range is inverted"@
            },
            ConfigError::InvertedElectionTimeout => {
                "ConfigError: election timeout range is inverted"@
            },
        }
    }

    /// The error as a line of text.
    pub fn to_string(&self) -> (text: String)
        ensures
            text@ == self.rendered(),
    {
        match self {
            ConfigError::NoPeers => String::from_str("ConfigError: peer_uris is empty"),
            ConfigError::InvertedHeartbeatTimeout => String::from_str(
                "ConfigError: heartbeat timeout range is inverted",
            ),
            ConfigError::InvertedElectionTimeout => String::from_str(
                "ConfigError: election timeout range is inverted",
            ),
        }
    }
}

impl Config {
    /// Number of peers, which is the number of replicas less this one.
    pub open spec fn peer_count(&self) -> nat {
        self.peer_uris@.len()
    }

    /// A configuration is valid when it names a peer and neither range is
    /// inverted.
    pub open spec fn valid(&self) -> bool {
        &&& self.peer_count() > 0
        &&& !self.heartbeat_timeout.inverted()
        &&& !self.election_timeout.inverted()
    }

    /// The first fault of the configuration, if it has one: the peers are
    /// looked at first, then the heartbeat timeouts, then the election
    /// timeouts.
    pub open spec fn fault(&self) -> Option<ConfigError> {
        if self.peer_count() == 0 {
            Some(ConfigError::NoPeers)
        } else if self.heartbeat_timeout.inverted() {
            Some(ConfigError::InvertedHeartbeatTimeout)
        } else if self.election_timeout.inverted() {
            Some(ConfigError::InvertedElectionTimeout)
        } else {
            None
        }
    }

    /// Accepts a valid configuration and names the first fault of any other.
    pub fn validate(&self) -> (checked: Result<(), ConfigError>)
        ensures
            checked is Ok <==> self.valid(),
            checked is Err ==> self.fault() == Some(checked->Err_0),
    {
        if self.peer_uris.len() == 0 {
            return Err(ConfigError::NoPeers);
        }
        if self.heartbeat_timeout.min > self.heartbeat_timeout.max {
            return Err(ConfigError::InvertedHeartbeatTimeout);
        }
        if self.election_timeout.min > self.election_timeout.max {
            return Err(ConfigError::InvertedElectionTimeout);
        }
        Ok(())
    }

    /// Whether every wait that this configuration allows can be planned as a
    /// deadline at `now`. A driver whose clock starts at the margin or later
    /// and stays clear of the end of its range meets this for any
    /// configuration whose waits do.
    pub open spec fn plannable_at(&self, now: u64) -> bool {
        &&& plannable(now, self.heartbeat_timeout.min)
        &&& plannable(now, self.heartbeat_timeout.max)
        &&& plannable(now, self.election_timeout.min)
        &&& plannable(now, self.election_timeout.max)
        &&& plannable(now, self.send_heartbeat_period)
    }

    /// Tells whether every wait that this configuration allows can be planned
    /// as a deadline at `now`.
    pub fn can_plan_at(&self, now: u64) -> (fits: bool)
        ensures
            fits == self.plannable_at(now),
    {
        can_plan(now, self.heartbeat_timeout.min) && can_plan(now, self.heartbeat_timeout.max)
            && can_plan(now, self.election_timeout.min) && can_plan(
            now,
            self.election_timeout.max,
        ) && can_plan(now, self.send_heartbeat_period)
    }

    /// Draws how long a follower waits for the next heartbeat.
    pub fn pick_heartbeat_timeout(&self) -> (wait: u64)
        requires
            !self.heartbeat_timeout.inverted(),
        ensures
            self.heartbeat_timeout.contains(wait),
    {
        self.heartbeat_timeout.pick()
    }

    /// Draws how long a candidate waits for the votes of one election.
    pub fn pick_election_timeout(&self) -> (wait: u64)
        requires
            !self.election_timeout.inverted(),
        ensures
            self.election_timeout.contains(wait),
    {
        self.election_timeout.pick()
    }
}

} // verus!
