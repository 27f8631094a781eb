//! Configuration for the UDP master-protocol querier. The wire protocol
//! itself is spoken by an external protocol library; this module pins down,
//! as plain data, how that library is to be configured per game, plus the
//! one server-side filter rule the configuration carries.

use vstd::prelude::*;
use crate::server::{spec_rule_lookup, RuleValue, Server};
use crate::strutil::str_starts_with;

verus! {

/// Which discovered servers a protocol querier keeps.
#[derive(Clone, Copy, Debug, PartialEq, Eq, Structural)]
pub enum ServerFilterKind {
    /// Keep every server the masters report.
    KeepAll,
    /// Keep only servers whose `version` rule marks an OpenArena build.
    OpenArenaVersion,
}

/// Tuning of the Quake III master/server protocol pair for one game.
#[derive(Clone, Debug)]
pub struct QuakeMasterConfig {
    /// Protocol version advertised to the master; `None` keeps the protocol
    /// library's stock version.
    pub version: Option<u32>,
    /// Game tag sent with the master request, where the game demands one.
    pub request_tag: Option<String>,
    /// Rule key holding the server name, where it differs from the stock one.
    pub server_name_rule: Option<String>,
    /// Rule key holding the mod name, where it differs from the stock one.
    pub mod_rule: Option<String>,
    /// Which reported servers to keep.
    pub filter: ServerFilterKind,
}

/// The protocol family a protocol querier speaks.
#[derive(Clone, Debug)]
pub enum ProtocolConfig {
    /// The Quake III master protocol, tuned per game.
    QuakeMaster(QuakeMasterConfig),
    /// The OpenTTD master protocol, stock.
    OpenTtdMaster,
}

/// Configuration of one UDP master-protocol query: the protocol to speak,
/// the master servers to ask, and the local port to bind.
#[derive(Clone, Debug)]
pub struct Querier {
    pub protocol: ProtocolConfig,
    pub master_servers: Vec<(String, u16)>,
    pub port: u16,
}

/// Does the `version` rule of `srv` mark an OpenArena build?
pub open spec fn spec_openarena_keeps(srv: Server) -> bool {
    match spec_rule_lookup(srv.rules@, "version"@) {
        Some(v) => v matches RuleValue::Text(t) && "ioq3+oa"@.is_prefix_of(t@),
        None => false,
    }
}

/// Does the filter `kind` keep the server `srv`?
pub open spec fn spec_filter_keeps(kind: ServerFilterKind, srv: Server) -> bool {
    match kind {
        ServerFilterKind::KeepAll => true,
        ServerFilterKind::OpenArenaVersion => spec_openarena_keeps(srv),
    }
}

/// Decide whether the filter `kind` keeps the server `srv`.
pub fn filter_keeps(kind: ServerFilterKind, srv: &Server) -> (r: bool)
    ensures
        r == spec_filter_keeps(kind, *srv),
{
    match kind {
        ServerFilterKind::KeepAll => true,
        ServerFilterKind::OpenArenaVersion => {
            match srv.rule("version") {
                Some(v) => {
                    match v {
                        RuleValue::Text(t) => str_starts_with(t.as_str(), "ioq3+oa"),
                        _ => false,
                    }
                },
                None => false,
            }
        },
    }
}

} // verus!
