use obozrenie::filters::Filters;
use obozrenie::games::{Game, GameSet};
use obozrenie::server::{Server, ServerAddr};

fn addr(host: &str, port: u16) -> ServerAddr {
    ServerAddr { host: host.to_string(), port }
}

fn bare_server() -> Server {
    Server::new(addr("203.0.113.1", 27960))
}

#[test]
fn default_filters_match_bare_server() {
    let f = Filters::default();
    assert!(f.matches(Game::QuakeIII, &bare_server()));
}

#[test]
fn full_server_rejected_when_not_full_set() {
    let mut f = Filters::default();
    f.not_full = true;
    let mut srv = bare_server();
    srv.num_clients = Some(8);
    srv.max_clients = Some(8);
    assert!(!f.matches(Game::QuakeIII, &srv));
    srv.num_clients = Some(7);
    assert!(f.matches(Game::QuakeIII, &srv));
}

#[test]
fn unknown_ping_never_excluded() {
    let mut f = Filters::default();
    f.max_ping = 100;
    let srv = bare_server();
    assert_eq!(srv.ping_ms, None);
    assert!(f.matches(Game::QuakeIII, &srv));
}

#[test]
fn ping_over_threshold_rejected() {
    let mut f = Filters::default();
    f.max_ping = 100;
    let mut srv = bare_server();
    srv.ping_ms = Some(101);
    assert!(!f.matches(Game::QuakeIII, &srv));
    srv.ping_ms = Some(100);
    assert!(f.matches(Game::QuakeIII, &srv));
}

#[test]
fn zero_max_ping_disables_latency_filtering() {
    let f = Filters::default();
    assert_eq!(f.max_ping, 0);
    let mut srv = bare_server();
    srv.ping_ms = Some(9999);
    assert!(f.matches(Game::QuakeIII, &srv));
}

#[test]
fn game_set_restricts_when_nonempty() {
    let mut f = Filters::default();
    let mut games = GameSet::new();
    games.insert(Game::OpenArena);
    f.games = games;
    assert!(f.matches(Game::OpenArena, &bare_server()));
    assert!(!f.matches(Game::QuakeIII, &bare_server()));
}

#[test]
fn empty_game_set_means_no_restriction() {
    let f = Filters::default();
    for g in Game::all() {
        assert!(f.matches(g, &bare_server()));
    }
}

#[test]
fn mod_prefix_checked_only_when_known() {
    let mut f = Filters::default();
    f.game_mod = "insta".to_string();
    let mut srv = bare_server();
    assert!(f.matches(Game::QuakeIII, &srv));
    srv.mod_name = Some("instagib".to_string());
    assert!(f.matches(Game::QuakeIII, &srv));
    srv.mod_name = Some("baseq3".to_string());
    assert!(!f.matches(Game::QuakeIII, &srv));
}

#[test]
fn game_type_and_map_prefixes() {
    let mut f = Filters::default();
    f.game_type = "ctf".to_string();
    f.map = "q3dm".to_string();
    let mut srv = bare_server();
    srv.game_type = Some("ctf".to_string());
    srv.map = Some("q3dm17".to_string());
    assert!(f.matches(Game::QuakeIII, &srv));
    srv.map = Some("oasago2".to_string());
    assert!(!f.matches(Game::QuakeIII, &srv));
}

#[test]
fn anticheat_requirement_rejects_on_mismatch_only() {
    let mut f = Filters::default();
    f.anticheat = Some(true);
    let mut srv = bare_server();
    assert!(f.matches(Game::QuakeIII, &srv));
    srv.secure = Some(false);
    assert!(!f.matches(Game::QuakeIII, &srv));
    srv.secure = Some(true);
    assert!(f.matches(Game::QuakeIII, &srv));
}

#[test]
fn not_empty_rejects_zero_players_only_when_known() {
    let mut f = Filters::default();
    f.not_empty = true;
    let mut srv = bare_server();
    assert!(f.matches(Game::QuakeIII, &srv));
    srv.num_clients = Some(0);
    assert!(!f.matches(Game::QuakeIII, &srv));
    srv.num_clients = Some(1);
    assert!(f.matches(Game::QuakeIII, &srv));
}

#[test]
fn no_password_rejects_locked_servers_only_when_known() {
    let mut f = Filters::default();
    f.no_password = true;
    let mut srv = bare_server();
    assert!(f.matches(Game::QuakeIII, &srv));
    srv.need_pass = Some(true);
    assert!(!f.matches(Game::QuakeIII, &srv));
    srv.need_pass = Some(false);
    assert!(f.matches(Game::QuakeIII, &srv));
}

#[test]
fn empty_prefix_always_matches() {
    let f = Filters::default();
    let mut srv = bare_server();
    srv.mod_name = Some("anything".to_string());
    srv.game_type = Some("ffa".to_string());
    srv.map = Some("dm6".to_string());
    assert!(f.matches(Game::QuakeIII, &srv));
}
