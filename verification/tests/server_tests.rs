use obozrenie::dedup::DedupIndex;
use obozrenie::games::rgs::{filter_keeps, ServerFilterKind};
use obozrenie::games::rigsofrods::{resolved_server, server_from_entry, ServerEntry};
use obozrenie::server::{RuleValue, Server, ServerAddr};

fn addr(host: &str, port: u16) -> ServerAddr {
    ServerAddr { host: host.to_string(), port }
}

fn list_entry() -> ServerEntry {
    ServerEntry {
        has_password: 1,
        current_users: 4,
        max_clients: 16,
        verified: 1,
        is_official: 0,
        ip: "multiplayer.example.org".to_string(),
        port: 12000,
        terrain_name: "simple2".to_string(),
        name: "Neo's Garage".to_string(),
    }
}

#[test]
fn fresh_server_knows_only_its_address() {
    let s = Server::new(addr("203.0.113.5", 27960));
    assert_eq!(s.addr.host, "203.0.113.5");
    assert_eq!(s.addr.port, 27960);
    assert_eq!(s.name, None);
    assert_eq!(s.num_clients, None);
    assert_eq!(s.ping_ms, None);
    assert!(s.rules.is_empty());
}

#[test]
fn ping_display_falls_back_to_9999() {
    let mut s = Server::new(addr("203.0.113.5", 27960));
    assert_eq!(s.ping_display_ms(), 9999);
    s.ping_ms = Some(48);
    assert_eq!(s.ping_display_ms(), 48);
}

#[test]
fn rule_lookup_finds_first_match() {
    let mut s = Server::new(addr("203.0.113.5", 27960));
    s.rules.push(("version".to_string(), RuleValue::Text("ioq3+oa 88".to_string())));
    s.rules.push(("pure".to_string(), RuleValue::Boolean(true)));
    assert_eq!(
        s.rule("version"),
        Some(&RuleValue::Text("ioq3+oa 88".to_string()))
    );
    assert_eq!(s.rule("pure"), Some(&RuleValue::Boolean(true)));
    assert_eq!(s.rule("absent"), None);
}

#[test]
fn dedup_admits_each_address_once() {
    let mut d = DedupIndex::new();
    assert!(d.record(&addr("203.0.113.5", 27960)));
    assert!(!d.record(&addr("203.0.113.5", 27960)));
    assert!(d.record(&addr("203.0.113.5", 27961)));
    assert!(d.record(&addr("203.0.113.6", 27960)));
    assert!(!d.record(&addr("203.0.113.6", 27960)));
    assert!(d.contains(&addr("203.0.113.5", 27960)));
    assert!(!d.contains(&addr("203.0.113.9", 27960)));
}

#[test]
fn master_list_entry_becomes_server_record() {
    let s = server_from_entry(list_entry(), addr("198.51.100.3", 12000), Some(62));
    assert_eq!(s.addr.host, "198.51.100.3");
    assert_eq!(s.addr.port, 12000);
    assert_eq!(s.name.as_deref(), Some("Neo's Garage"));
    assert_eq!(s.map.as_deref(), Some("simple2"));
    assert_eq!(s.num_clients, Some(4));
    assert_eq!(s.max_clients, Some(16));
    assert_eq!(s.ping_ms, Some(62));
    assert_eq!(s.need_pass, None);
    assert_eq!(s.rules.len(), 2);
    assert_eq!(s.rules[0].0, "is_official");
    assert_eq!(s.rules[0].1, RuleValue::Boolean(false));
    assert_eq!(s.rules[1].0, "verified");
    assert_eq!(s.rules[1].1, RuleValue::Boolean(true));
}

#[test]
fn unresolved_entry_is_skipped_silently() {
    assert!(resolved_server(list_entry(), None, None).is_none());
    let kept = resolved_server(list_entry(), Some(addr("198.51.100.3", 12000)), None);
    assert!(kept.is_some());
    assert_eq!(kept.unwrap().ping_ms, None);
}

#[test]
fn openarena_filter_keeps_matching_versions_only() {
    let mut s = Server::new(addr("203.0.113.5", 27960));
    assert!(!filter_keeps(ServerFilterKind::OpenArenaVersion, &s));
    s.rules.push(("version".to_string(), RuleValue::Text("ioq3+oa 88".to_string())));
    assert!(filter_keeps(ServerFilterKind::OpenArenaVersion, &s));

    let mut other = Server::new(addr("203.0.113.6", 27960));
    other.rules.push(("version".to_string(), RuleValue::Text("ioq3 1.36".to_string())));
    assert!(!filter_keeps(ServerFilterKind::OpenArenaVersion, &other));

    let mut odd = Server::new(addr("203.0.113.7", 27960));
    odd.rules.push(("version".to_string(), RuleValue::Number(88)));
    assert!(!filter_keeps(ServerFilterKind::OpenArenaVersion, &odd));

    assert!(filter_keeps(ServerFilterKind::KeepAll, &Server::new(addr("203.0.113.8", 1))));
}
