//! The user-editable filter predicate and its evaluation against a
//! discovered server. A clause whose server field is unknown never rejects:
//! absence of data is not violation of a constraint.

use vstd::prelude::*;
use crate::games::{Game, GameSet};
use crate::server::Server;
use crate::strutil::str_starts_with;

verus! {

/// The current filter state. One owner (the driver's interface layer)
/// writes it; evaluation only reads it.
#[derive(Clone, Debug)]
pub struct Filters {
    /// Games to restrict to; empty means no restriction.
    pub games: GameSet,
    /// Prefix the server's mod name must start with; empty always matches.
    pub game_mod: String,
    /// Prefix the server's game type must start with; empty always matches.
    pub game_type: String,
    /// Prefix the server's map name must start with; empty always matches.
    pub map: String,
    /// Highest accepted latency in milliseconds; zero disables the
    /// constraint (a deliberate convention, not "reject everything").
    pub max_ping: u64,
    /// Required state of the anti-cheat flag; `None` ignores it.
    pub anticheat: Option<bool>,
    /// Exclude servers that are full.
    pub not_full: bool,
    /// Exclude servers with nobody playing.
    pub not_empty: bool,
    /// Exclude servers that demand a password.
    pub no_password: bool,
}

/// Either no game restriction is configured, or the server's game is one of
/// the chosen ones.
pub open spec fn clause_game(f: Filters, game: Game) -> bool {
    f.games@ == Set::<Game>::empty() || f.games@.contains(game)
}

/// If the server exposes a mod name, it starts with the configured prefix.
pub open spec fn clause_mod(f: Filters, s: Server) -> bool {
    match s.mod_name {
        Some(v) => f.game_mod@.is_prefix_of(v@),
        None => true,
    }
}

/// If the server exposes a game type, it starts with the configured prefix.
pub open spec fn clause_game_type(f: Filters, s: Server) -> bool {
    match s.game_type {
        Some(v) => f.game_type@.is_prefix_of(v@),
        None => true,
    }
}

/// If the server exposes a map name, it starts with the configured prefix.
pub open spec fn clause_map(f: Filters, s: Server) -> bool {
    match s.map {
        Some(v) => f.map@.is_prefix_of(v@),
        None => true,
    }
}

/// If a latency bound is set and the server has a measured latency, the
/// latency does not exceed the bound.
pub open spec fn clause_ping(f: Filters, s: Server) -> bool {
    f.max_ping == 0 || (match s.ping_ms {
        Some(p) => p <= f.max_ping,
        None => true,
    })
}

/// If an anti-cheat requirement is set and the server reports its secure
/// flag, the two agree.
pub open spec fn clause_anticheat(f: Filters, s: Server) -> bool {
    match f.anticheat {
        Some(required) => match s.secure {
            Some(actual) => required == actual,
            None => true,
        },
        None => true,
    }
}

/// If full servers are excluded and both player counts are known, there is
/// still room.
pub open spec fn clause_not_full(f: Filters, s: Server) -> bool {
    f.not_full ==> match (s.num_clients, s.max_clients) {
        (Some(n), Some(m)) => n < m,
        _ => true,
    }
}

/// If empty servers are excluded and the player count is known, somebody is
/// playing.
pub open spec fn clause_not_empty(f: Filters, s: Server) -> bool {
    f.not_empty ==> match s.num_clients {
        Some(n) => n != 0,
        None => true,
    }
}

/// If password-protected servers are excluded and the flag is known, no
/// password is demanded.
pub open spec fn clause_no_password(f: Filters, s: Server) -> bool {
    f.no_password ==> match s.need_pass {
        Some(p) => !p,
        None => true,
    }
}

/// The whole predicate: every clause holds.
pub open spec fn spec_matches(f: Filters, game: Game, s: Server) -> bool {
    &&& clause_game(f, game)
    &&& clause_mod(f, s)
    &&& clause_game_type(f, s)
    &&& clause_map(f, s)
    &&& clause_ping(f, s)
    &&& clause_anticheat(f, s)
    &&& clause_not_full(f, s)
    &&& clause_not_empty(f, s)
    &&& clause_no_password(f, s)
}

impl Filters {
    /// Evaluate the predicate against one `(game, server)` pair. Pure: no
    /// clause mutates anything, and unknown fields never reject.
    pub fn matches(&self, game: Game, srv: &Server) -> (r: bool)
        ensures
            r == spec_matches(*self, game, *srv),
    {
        if !self.games.is_empty() {
            if !self.games.contains(game) {
                return false;
            }
        }
        match &srv.mod_name {
            Some(v) => {
                if !str_starts_with(v.as_str(), self.game_mod.as_str()) {
                    return false;
                }
            },
            None => {},
        }
        match &srv.game_type {
            Some(v) => {
                if !str_starts_with(v.as_str(), self.game_type.as_str()) {
                    return false;
                }
            },
            None => {},
        }
        match &srv.map {
            Some(v) => {
                if !str_starts_with(v.as_str(), self.map.as_str()) {
                    return false;
                }
            },
            None => {},
        }
        if self.max_ping > 0 {
            if let Some(p) = srv.ping_ms {
                if p > self.max_ping {
                    return false;
                }
            }
        }
        if let Some(required) = self.anticheat {
            if let Some(actual) = srv.secure {
                if required != actual {
                    return false;
                }
            }
        }
        if self.not_full {
            if let Some(n) = srv.num_clients {
                if let Some(m) = srv.max_clients {
                    if n >= m {
                        return false;
                    }
                }
            }
        }
        if self.not_empty {
            if let Some(n) = srv.num_clients {
                if n == 0 {
                    return false;
                }
            }
        }
        if self.no_password {
            if let Some(p) = srv.need_pass {
                if p {
                    return false;
                }
            }
        }
        true
    }
}

impl Default for Filters {
    /// The neutral filter state: nothing is restricted.
    fn default() -> (r: Filters)
        ensures
            r.games@ == Set::<Game>::empty(),
            r.game_mod@ == Seq::<char>::empty(),
            r.game_type@ == Seq::<char>::empty(),
            r.map@ == Seq::<char>::empty(),
            r.max_ping == 0,
            r.anticheat is None,
            !r.not_full,
            !r.not_empty,
            !r.no_password,
    {
        Filters {
            games: GameSet::new(),
            game_mod: String::new(),
            game_type: String::new(),
            map: String::new(),
            max_ping: 0,
            anticheat: None,
            not_full: false,
            not_empty: false,
            no_password: false,
        }
    }
}

/// With an empty game set, the game clause never rejects, whatever the game.
pub proof fn lemma_empty_game_set_accepts(f: Filters, game: Game)
    requires
        f.games@ == Set::<Game>::empty(),
    ensures
        clause_game(f, game),
{
}

/// A server without a measured latency is never rejected by the latency
/// clause, whatever the configured bound.
pub proof fn lemma_unknown_ping_accepts(f: Filters, s: Server)
    requires
        s.ping_ms is None,
    ensures
        clause_ping(f, s),
{
}

/// Neutral filter settings match every server of every game.
pub proof fn lemma_neutral_filters_match_all(f: Filters, game: Game, s: Server)
    requires
        f.games@ == Set::<Game>::empty(),
        f.game_mod@ == Seq::<char>::empty(),
        f.game_type@ == Seq::<char>::empty(),
        f.map@ == Seq::<char>::empty(),
        f.max_ping == 0,
        f.anticheat is None,
        !f.not_full,
        !f.not_empty,
        !f.no_password,
    ensures
        spec_matches(f, game, s),
{
    assert forall|v: Seq<char>| Seq::<char>::empty().is_prefix_of(v) by {
        assert(v.subrange(0, 0) =~= Seq::<char>::empty());
    }
}

} // verus!
