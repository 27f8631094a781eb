//! The HTTP master-list querier for Rigs of Rods: configuration and the pure
//! record construction. The driver fetches the list, parses it, resolves
//! each entry's host and measures latency; the functions here turn what it
//! got into server records and encode the per-entry skip policy.

use vstd::prelude::*;
use vstd::string::StringExecFns;
use crate::server::{RuleValue, Server, ServerAddr};

verus! {

/// One entry of the master list, as the list publishes it.
#[derive(Clone, Debug)]
pub struct ServerEntry {
    pub has_password: u8,
    pub current_users: u8,
    pub max_clients: u8,
    pub verified: u8,
    pub is_official: u8,
    pub ip: String,
    pub port: u16,
    pub terrain_name: String,
    pub name: String,
}

/// Configuration of one HTTP master-list query.
#[derive(Clone, Debug)]
pub struct Querier {
    pub master_addr: String,
}

impl Querier {
    /// The URL to fetch: the master address with the JSON switch appended.
    pub fn query_url(&self) -> (r: String)
        ensures
            r@ == self.master_addr@ + "?json=true"@,
    {
        self.master_addr.clone().concat("?json=true")
    }
}

/// Does the server record `s` carry exactly what the master-list entry
/// `entry` said, at the resolved address `addr`, with the measured latency
/// `ping_ms`?
pub open spec fn spec_entry_server(
    entry: ServerEntry,
    addr: ServerAddr,
    ping_ms: Option<u64>,
    s: Server,
) -> bool {
    &&& s.addr == addr
    &&& s.name == Some(entry.name)
    &&& s.map == Some(entry.terrain_name)
    &&& s.num_clients == Some(entry.current_users as u64)
    &&& s.max_clients == Some(entry.max_clients as u64)
    &&& s.ping_ms == ping_ms
    &&& s.mod_name is None
    &&& s.game_type is None
    &&& s.secure is None
    &&& s.need_pass is None
    &&& s.country is None
    &&& s.rules@.len() == 2
    &&& s.rules@[0].0@ == "is_official"@
    &&& s.rules@[0].1 == RuleValue::Boolean(entry.is_official == 1)
    &&& s.rules@[1].0@ == "verified"@
    &&& s.rules@[1].1 == RuleValue::Boolean(entry.verified == 1)
}

/// Build the server record for one successfully resolved master-list entry.
pub fn server_from_entry(entry: ServerEntry, addr: ServerAddr, ping_ms: Option<u64>) -> (s:
    Server)
    ensures
        spec_entry_server(entry, addr, ping_ms, s),
{
    let mut rules: Vec<(String, RuleValue)> = Vec::new();
    rules.push((String::from_str("is_official"), RuleValue::Boolean(entry.is_official == 1)));
    rules.push((String::from_str("verified"), RuleValue::Boolean(entry.verified == 1)));
    Server {
        addr,
        name: Some(entry.name),
        map: Some(entry.terrain_name),
        mod_name: None,
        game_type: None,
        num_clients: Some(entry.current_users as u64),
        max_clients: Some(entry.max_clients as u64),
        ping_ms,
        secure: None,
        need_pass: None,
        country: None,
        rules,
    }
}

/// The per-entry skip policy: an entry whose host could not be resolved is
/// dropped silently; a resolved one becomes a server record. One entry's
/// resolution failure never aborts the others.
pub fn resolved_server(entry: ServerEntry, resolved: Option<ServerAddr>, ping_ms: Option<u64>)
    -> (r: Option<Server>)
    ensures
        (match resolved {
            Some(addr) => r matches Some(s) && spec_entry_server(entry, addr, ping_ms, s),
            None => r is None,
        }),
{
    match resolved {
        Some(addr) => Some(server_from_entry(entry, addr, ping_ms)),
        None => None,
    }
}

} // verus!
