use obozrenie::games::Game;
use obozrenie::orchestrator::{RefreshCycle, RefreshEvent, StreamEvent, DEFAULT_TIMEOUT_MS};
use obozrenie::server::{Server, ServerAddr};

fn server_at(host: &str, port: u16) -> Server {
    Server::new(ServerAddr { host: host.to_string(), port })
}

fn discovered(events: &[RefreshEvent]) -> Vec<(Game, String, u16)> {
    events
        .iter()
        .filter_map(|e| match e {
            RefreshEvent::ServerDiscovered(g, s) => {
                Some((*g, s.addr.host.clone(), s.addr.port))
            }
            RefreshEvent::RefreshComplete => None,
        })
        .collect()
}

fn completions(events: &[RefreshEvent]) -> usize {
    events
        .iter()
        .filter(|e| matches!(e, RefreshEvent::RefreshComplete))
        .count()
}

#[test]
fn same_address_from_two_games_emitted_once() {
    let mut cycle = RefreshCycle::new(vec![Game::OpenArena, Game::QuakeIII], 0, DEFAULT_TIMEOUT_MS);
    let first = cycle.on_server(Game::OpenArena, server_at("203.0.113.5", 27960), 1);
    assert!(matches!(
        first,
        Some(RefreshEvent::ServerDiscovered(Game::OpenArena, _))
    ));
    let second = cycle.on_server(Game::QuakeIII, server_at("203.0.113.5", 27960), 2);
    assert!(second.is_none());
}

#[test]
fn duplicate_addresses_across_a_whole_cycle() {
    let games = vec![Game::OpenArena, Game::QuakeIII];
    let mut cycle = RefreshCycle::new(games, 0, DEFAULT_TIMEOUT_MS);
    let events = vec![
        StreamEvent::Item { game: Game::OpenArena, server: server_at("203.0.113.5", 27960), at_ms: 1 },
        StreamEvent::Item { game: Game::QuakeIII, server: server_at("203.0.113.5", 27960), at_ms: 2 },
        StreamEvent::Item { game: Game::QuakeIII, server: server_at("203.0.113.7", 27960), at_ms: 3 },
        StreamEvent::Item { game: Game::OpenArena, server: server_at("203.0.113.5", 27960), at_ms: 4 },
        StreamEvent::Ended { game: Game::OpenArena },
        StreamEvent::Ended { game: Game::QuakeIII },
    ];
    let out = cycle.process_events(events);
    let servers = discovered(&out);
    assert_eq!(servers.len(), 2);
    assert!(servers.contains(&(Game::OpenArena, "203.0.113.5".to_string(), 27960)));
    assert!(servers.contains(&(Game::QuakeIII, "203.0.113.7".to_string(), 27960)));
    assert_eq!(completions(&out), 1);
}

#[test]
fn failing_stream_does_not_disturb_siblings() {
    // One querier "fails" after two records: its stream simply ends early.
    // The sibling's records, interleaved before and after the failure, are
    // all delivered, and the completion signal still fires, once.
    let games = vec![Game::OpenArena, Game::RigsOfRods];
    let mut cycle = RefreshCycle::new(games, 0, DEFAULT_TIMEOUT_MS);
    let events = vec![
        StreamEvent::Item { game: Game::OpenArena, server: server_at("198.51.100.1", 27960), at_ms: 1 },
        StreamEvent::Item { game: Game::OpenArena, server: server_at("198.51.100.2", 27960), at_ms: 2 },
        StreamEvent::Ended { game: Game::OpenArena }, // transport error
        StreamEvent::Item { game: Game::RigsOfRods, server: server_at("198.51.100.3", 12000), at_ms: 3 },
        StreamEvent::Item { game: Game::RigsOfRods, server: server_at("198.51.100.4", 12000), at_ms: 4 },
        StreamEvent::Ended { game: Game::RigsOfRods },
    ];
    let out = cycle.process_events(events);
    let servers = discovered(&out);
    assert_eq!(servers.len(), 4);
    assert!(servers.contains(&(Game::RigsOfRods, "198.51.100.3".to_string(), 12000)));
    assert!(servers.contains(&(Game::RigsOfRods, "198.51.100.4".to_string(), 12000)));
    assert_eq!(completions(&out), 1);
    assert!(matches!(out.last(), Some(RefreshEvent::RefreshComplete)));
}

#[test]
fn events_after_timeout_are_dropped_earlier_ones_kept() {
    let games = vec![Game::OpenArena];
    let mut cycle = RefreshCycle::new(games, 0, 10_000);
    let before = cycle.on_server(Game::OpenArena, server_at("198.51.100.1", 27960), 9_999);
    assert!(before.is_some());
    let late = cycle.on_server(Game::OpenArena, server_at("198.51.100.2", 27960), 10_001);
    assert!(late.is_none());
    let on_time_boundary = cycle.on_server(Game::OpenArena, server_at("198.51.100.3", 27960), 10_000);
    assert!(on_time_boundary.is_some());
}

#[test]
fn no_events_accepted_from_an_ended_stream() {
    let mut cycle = RefreshCycle::new(vec![Game::OpenArena, Game::QuakeIII], 0, 10_000);
    assert!(cycle.on_stream_end(Game::OpenArena).is_none());
    let after_end = cycle.on_server(Game::OpenArena, server_at("198.51.100.1", 27960), 5);
    assert!(after_end.is_none());
    let sibling = cycle.on_server(Game::QuakeIII, server_at("198.51.100.1", 27960), 6);
    assert!(sibling.is_some());
}

#[test]
fn refresh_complete_fires_exactly_once() {
    let mut cycle = RefreshCycle::new(vec![Game::OpenArena, Game::QuakeIII], 0, 10_000);
    assert!(cycle.on_stream_end(Game::OpenArena).is_none());
    let done = cycle.on_stream_end(Game::QuakeIII);
    assert!(matches!(done, Some(RefreshEvent::RefreshComplete)));
    assert!(cycle.on_stream_end(Game::QuakeIII).is_none());
}

#[test]
fn fresh_cycle_accepts_an_address_from_an_earlier_cycle() {
    let mut first = RefreshCycle::new(vec![Game::OpenArena], 0, 10_000);
    assert!(first
        .on_server(Game::OpenArena, server_at("203.0.113.5", 27960), 1)
        .is_some());
    first.on_stream_end(Game::OpenArena);
    // Dedup is a within-cycle concern: the same address is welcome again.
    let mut second = RefreshCycle::new(vec![Game::OpenArena], 20_000, 10_000);
    assert!(second
        .on_server(Game::OpenArena, server_at("203.0.113.5", 27960), 20_001)
        .is_some());
}

#[test]
fn record_order_within_one_stream_is_kept() {
    let games = vec![Game::OpenArena];
    let mut cycle = RefreshCycle::new(games, 0, 10_000);
    let events = vec![
        StreamEvent::Item { game: Game::OpenArena, server: server_at("198.51.100.1", 1), at_ms: 1 },
        StreamEvent::Item { game: Game::OpenArena, server: server_at("198.51.100.2", 2), at_ms: 2 },
        StreamEvent::Item { game: Game::OpenArena, server: server_at("198.51.100.3", 3), at_ms: 3 },
        StreamEvent::Ended { game: Game::OpenArena },
    ];
    let out = cycle.process_events(events);
    let servers = discovered(&out);
    assert_eq!(
        servers,
        vec![
            (Game::OpenArena, "198.51.100.1".to_string(), 1),
            (Game::OpenArena, "198.51.100.2".to_string(), 2),
            (Game::OpenArena, "198.51.100.3".to_string(), 3),
        ]
    );
}
