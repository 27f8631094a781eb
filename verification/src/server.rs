//! The record for one discovered game server, and the network address that
//! identifies it within a refresh cycle.

use vstd::prelude::*;
use crate::strutil::str_eq;

verus! {

/// A resolved network address, the key under which duplicate reports of the
/// same server are collapsed.
#[derive(Debug)]
pub struct ServerAddr {
    pub host: String,
    pub port: u16,
}

/// The mathematical value of a [`ServerAddr`]: its host's character sequence
/// together with its port.
pub struct AddrKey {
    pub host: Seq<char>,
    pub port: u16,
}

impl ServerAddr {
    /// The address as a mathematical key.
    pub open spec fn key(&self) -> AddrKey {
        AddrKey { host: self.host@, port: self.port }
    }

    /// Do two addresses denote the same endpoint?
    pub fn same_as(&self, other: &ServerAddr) -> (r: bool)
        ensures
            r == (self.key() == other.key()),
    {
        let r = str_eq(self.host.as_str(), other.host.as_str()) && self.port == other.port;
        proof {
            if self.host@ == other.host@ && self.port == other.port {
                assert(self.key() == other.key());
            }
        }
        r
    }
}

impl Clone for ServerAddr {
    fn clone(&self) -> (r: Self)
        ensures
            r == *self,
    {
        ServerAddr { host: self.host.clone(), port: self.port }
    }
}

/// A protocol-specific rule value attached to a server record.
#[derive(Clone, Debug, PartialEq, Eq)]
pub enum RuleValue {
    Boolean(bool),
    Text(String),
    Number(u64),
}

/// One discovered game server. Every field except the address is optional:
/// different wire protocols and list sources expose different subsets.
#[derive(Debug)]
pub struct Server {
    pub addr: ServerAddr,
    pub name: Option<String>,
    pub map: Option<String>,
    pub mod_name: Option<String>,
    pub game_type: Option<String>,
    pub num_clients: Option<u64>,
    pub max_clients: Option<u64>,
    pub ping_ms: Option<u64>,
    pub secure: Option<bool>,
    pub need_pass: Option<bool>,
    pub country: Option<String>,
    pub rules: Vec<(String, RuleValue)>,
}

/// The first rule value stored under `key`, if any.
pub open spec fn spec_rule_lookup(rules: Seq<(String, RuleValue)>, key: Seq<char>) -> Option<
    RuleValue,
>
    decreases rules.len(),
{
    if rules.len() == 0 {
        None
    } else if rules[0].0@ == key {
        Some(rules[0].1)
    } else {
        spec_rule_lookup(rules.drop_first(), key)
    }
}

impl Server {
    /// A record that knows nothing but its address.
    pub fn new(addr: ServerAddr) -> (s: Server)
        ensures
            s.addr == addr,
            s.name is None,
            s.map is None,
            s.mod_name is None,
            s.game_type is None,
            s.num_clients is None,
            s.max_clients is None,
            s.ping_ms is None,
            s.secure is None,
            s.need_pass is None,
            s.country is None,
            s.rules@ == Seq::<(String, RuleValue)>::empty(),
    {
        let rules: Vec<(String, RuleValue)> = Vec::new();
        Server {
            addr,
            name: None,
            map: None,
            mod_name: None,
            game_type: None,
            num_clients: None,
            max_clients: None,
            ping_ms: None,
            secure: None,
            need_pass: None,
            country: None,
            rules,
        }
    }

    /// The first rule value stored under `key`, if any.
    pub fn rule(&self, key: &str) -> (r: Option<&RuleValue>)
        ensures
            (match r {
                Some(v) => spec_rule_lookup(self.rules@, key@) == Some(*v),
                None => spec_rule_lookup(self.rules@, key@) is None,
            }),
    {
        let n = self.rules.len();
        let mut i: usize = 0;
        proof {
            assert(self.rules@.skip(0) =~= self.rules@);
        }
        while i < n
            invariant
                0 <= i <= n,
                n == self.rules@.len(),
                spec_rule_lookup(self.rules@.skip(i as int), key@) == spec_rule_lookup(
                    self.rules@,
                    key@,
                ),
            decreases n - i,
        {
            proof {
                assert(self.rules@.skip(i as int)[0] == self.rules@[i as int]);
            }
            if str_eq(self.rules[i].0.as_str(), key) {
                return Some(&self.rules[i].1);
            }
            proof {
                assert(self.rules@.skip(i as int).drop_first() =~= self.rules@.skip(i as int + 1));
            }
            i += 1;
        }
        proof {
            assert(self.rules@.skip(n as int) =~= Seq::<(String, RuleValue)>::empty());
        }
        None
    }

    /// The latency shown in a server list: the measured round trip in
    /// milliseconds, or 9999 when none was measured.
    pub fn ping_display_ms(&self) -> (r: u64)
        ensures
            (match self.ping_ms {
                Some(p) => r == p,
                None => r == 9999,
            }),
    {
        match self.ping_ms {
            Some(p) => p,
            None => 9999,
        }
    }
}

} // verus!
