use barge::config::TimeoutRange;
use barge::inner::{can_plan, EPSILON};
use barge::{Config, ConfigError};

const MS: u64 = 1_000_000;

fn three_nodes() -> Config {
    Config {
        peer_uris: vec![String::from("http://b:7000"), String::from("http://c:7000")],
        heartbeat_timeout: TimeoutRange { min: 150 * MS, max: 300 * MS },
        election_timeout: TimeoutRange { min: 200 * MS, max: 400 * MS },
        send_heartbeat_period: 50 * MS,
    }
}

#[test]
fn epsilon_is_two_microseconds() {
    assert_eq!(EPSILON, 2_000);
}

#[test]
fn a_config_with_peers_and_ordered_ranges_is_accepted() {
    assert_eq!(three_nodes().validate(), Ok(()));
}

#[test]
fn ranges_of_one_value_are_accepted() {
    let config = Config {
        heartbeat_timeout: TimeoutRange { min: 7, max: 7 },
        election_timeout: TimeoutRange { min: 0, max: 0 },
        ..three_nodes()
    };

    assert_eq!(config.validate(), Ok(()));
}

#[test]
fn an_empty_peer_list_is_rejected() {
    let config = Config { peer_uris: Vec::new(), ..three_nodes() };

    assert_eq!(config.validate(), Err(ConfigError::NoPeers));
}

#[test]
fn an_inverted_heartbeat_range_is_rejected() {
    let inverted = TimeoutRange { min: 300 * MS, max: 150 * MS };
    let config = Config { heartbeat_timeout: inverted, ..three_nodes() };

    assert_eq!(config.validate(), Err(ConfigError::InvertedHeartbeatTimeout));
}

#[test]
fn an_inverted_election_range_is_rejected() {
    let config =
        Config { election_timeout: TimeoutRange { min: 400 * MS, max: 399 * MS }, ..three_nodes() };

    assert_eq!(config.validate(), Err(ConfigError::InvertedElectionTimeout));
}

#[test]
fn the_first_fault_is_the_one_named() {
    let inverted = TimeoutRange { min: 2, max: 1 };

    let all = Config {
        peer_uris: Vec::new(),
        heartbeat_timeout: inverted,
        election_timeout: inverted,
        send_heartbeat_period: 0,
    };
    assert_eq!(all.validate(), Err(ConfigError::NoPeers));

    let both =
        Config { heartbeat_timeout: inverted, election_timeout: inverted, ..three_nodes() };
    assert_eq!(both.validate(), Err(ConfigError::InvertedHeartbeatTimeout));
}

#[test]
fn config_errors_read_as_text() {
    assert_eq!(ConfigError::NoPeers.to_string(), "ConfigError: peer_uris is empty");
    assert_eq!(
        ConfigError::InvertedHeartbeatTimeout.to_string(),
        "ConfigError: heartbeat timeout range is inverted"
    );
    assert_eq!(
        ConfigError::InvertedElectionTimeout.to_string(),
        "ConfigError: election timeout range is inverted"
    );
}

#[test]
fn picked_timeouts_lie_in_their_ranges() {
    let config = three_nodes();

    for _ in 0..500 {
        let heartbeat = config.pick_heartbeat_timeout();
        assert!((150 * MS..=300 * MS).contains(&heartbeat));
        let election = config.pick_election_timeout();
        assert!((200 * MS..=400 * MS).contains(&election));
    }
}

#[test]
fn a_range_of_one_value_gives_that_value() {
    let range = TimeoutRange { min: 42, max: 42 };

    for _ in 0..20 {
        assert_eq!(range.pick(), 42);
    }
}

#[test]
fn both_ends_of_a_small_range_are_drawn() {
    let range = TimeoutRange { min: 10, max: 11 };
    let mut low = false;
    let mut high = false;

    for _ in 0..200 {
        match range.pick() {
            10 => low = true,
            11 => high = true,
            other => panic!("{other} is outside 10..=11"),
        }
    }

    assert!(low && high);
}

#[test]
fn picked_timeouts_vary() {
    let config = three_nodes();
    let first = config.pick_election_timeout();

    // 64 draws out of two hundred million values agree only if nothing is drawn
    assert!((0..64).any(|_| config.pick_election_timeout() != first));
    assert!((0..64).any(|_| config.pick_election_timeout() != config.election_timeout.min));
    assert!((0..64).any(|_| config.pick_heartbeat_timeout() != config.heartbeat_timeout.max));
}

#[test]
fn the_whole_range_of_waits_can_be_drawn_from() {
    let range = TimeoutRange { min: 0, max: u64::MAX };

    assert!((0..64).any(|_| range.pick() > u64::MAX / 2));
    assert!((0..64).any(|_| range.pick() <= u64::MAX / 2));
}

#[test]
fn can_plan_needs_room_for_the_margin_on_both_sides() {
    assert!(can_plan(EPSILON, 0));
    assert!(can_plan(0, EPSILON));
    assert!(can_plan(1_500, 500));
    assert!(!can_plan(1_500, 499));
    assert!(!can_plan(0, 0));

    assert!(can_plan(u64::MAX - EPSILON, 0));
    assert!(can_plan(u64::MAX - EPSILON - 10, 10));
    assert!(!can_plan(u64::MAX - EPSILON - 10, 11));
    assert!(!can_plan(u64::MAX - EPSILON + 1, 0));
    assert!(!can_plan(u64::MAX, u64::MAX));
    assert!(!can_plan(5, u64::MAX));
}

#[test]
fn a_config_can_be_planned_when_each_of_its_waits_can() {
    let config = three_nodes();

    assert!(config.can_plan_at(EPSILON));
    assert!(config.can_plan_at(0));
    assert!(config.can_plan_at(1_000 * MS));
    assert!(config.can_plan_at(u64::MAX - EPSILON - 400 * MS));
    // the longest election timeout no longer fits
    assert!(!config.can_plan_at(u64::MAX - EPSILON - 400 * MS + 1));

    let eager = Config { send_heartbeat_period: 0, ..three_nodes() };
    assert!(eager.can_plan_at(EPSILON));
    // a heartbeat period of nothing cannot be pulled forward by the margin
    assert!(!eager.can_plan_at(EPSILON - 1));
}
