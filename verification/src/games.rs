//! The closed set of supported games, the per-game strategy traits for name
//! normalisation and launch-command construction, and the static per-game
//! configuration table.

pub mod flatpak;
pub mod openttd;
pub mod quake;
pub mod rgs;
pub mod rigsofrods;

use vstd::prelude::*;
use crate::strutil::{opt_view, str_eq};

verus! {

/// A supported game title. Identity is by variant; equality and hashing are
/// structural.
#[derive(Clone, Copy, Debug, PartialEq, Eq, Hash, Structural)]
pub enum Game {
    OpenArena,
    OpenTTD,
    QuakeIII,
    RigsOfRods,
    Xonotic,
}

/// The stable string identifier of a game, used for persistence and
/// configuration.
pub open spec fn spec_game_id(g: Game) -> Seq<char> {
    match g {
        Game::OpenArena => "openarena"@,
        Game::OpenTTD => "openttd"@,
        Game::QuakeIII => "q3a"@,
        Game::RigsOfRods => "rigsofrods"@,
        Game::Xonotic => "xonotic"@,
    }
}

/// The game whose stable identifier is `s`, if any.
pub open spec fn spec_game_from_id(s: Seq<char>) -> Option<Game> {
    if s == "openarena"@ {
        Some(Game::OpenArena)
    } else if s == "openttd"@ {
        Some(Game::OpenTTD)
    } else if s == "q3a"@ {
        Some(Game::QuakeIII)
    } else if s == "rigsofrods"@ {
        Some(Game::RigsOfRods)
    } else if s == "xonotic"@ {
        Some(Game::Xonotic)
    } else {
        None
    }
}

/// The human-readable name of a game.
pub open spec fn spec_display_name(g: Game) -> Seq<char> {
    match g {
        Game::OpenArena => "OpenArena"@,
        Game::OpenTTD => "OpenTTD"@,
        Game::QuakeIII => "Quake III Arena"@,
        Game::RigsOfRods => "Rigs of Rods"@,
        Game::Xonotic => "Xonotic"@,
    }
}

impl Game {
    /// The stable string identifier of this game.
    pub fn id(self) -> (r: &'static str)
        ensures
            r@ == spec_game_id(self),
    {
        match self {
            Game::OpenArena => "openarena",
            Game::OpenTTD => "openttd",
            Game::QuakeIII => "q3a",
            Game::RigsOfRods => "rigsofrods",
            Game::Xonotic => "xonotic",
        }
    }

    /// The game whose stable identifier is `id`, if any.
    pub fn from_id(id: &str) -> (r: Option<Self>)
        ensures
            r == spec_game_from_id(id@),
    {
        if str_eq(id, "openarena") {
            Some(Game::OpenArena)
        } else if str_eq(id, "openttd") {
            Some(Game::OpenTTD)
        } else if str_eq(id, "q3a") {
            Some(Game::QuakeIII)
        } else if str_eq(id, "rigsofrods") {
            Some(Game::RigsOfRods)
        } else if str_eq(id, "xonotic") {
            Some(Game::Xonotic)
        } else {
            None
        }
    }

    /// The human-readable name of this game.
    pub fn display_name(self) -> (r: &'static str)
        ensures
            r@ == spec_display_name(self),
    {
        match self {
            Game::OpenArena => "OpenArena",
            Game::OpenTTD => "OpenTTD",
            Game::QuakeIII => "Quake III Arena",
            Game::RigsOfRods => "Rigs of Rods",
            Game::Xonotic => "Xonotic",
        }
    }

    /// Every supported game, once each, in the configuration order.
    pub fn all() -> (v: Vec<Game>)
        ensures
            v@ == seq![
                Game::OpenArena,
                Game::OpenTTD,
                Game::QuakeIII,
                Game::RigsOfRods,
                Game::Xonotic,
            ],
    {
        let mut v: Vec<Game> = Vec::new();
        v.push(Game::OpenArena);
        v.push(Game::OpenTTD);
        v.push(Game::QuakeIII);
        v.push(Game::RigsOfRods);
        v.push(Game::Xonotic);
        proof {
            assert(v@ =~= seq![
                Game::OpenArena,
                Game::OpenTTD,
                Game::QuakeIII,
                Game::RigsOfRods,
                Game::Xonotic,
            ]);
        }
        v
    }
}

/// Reading a game's identifier back yields the same game.
pub proof fn lemma_game_id_round_trip(g: Game)
    ensures
        spec_game_from_id(spec_game_id(g)) == Some(g),
{
    reveal_strlit("openarena");
    reveal_strlit("openttd");
    reveal_strlit("q3a");
    reveal_strlit("rigsofrods");
    reveal_strlit("xonotic");
    assert("openarena"@.len() == 9);
    assert("openttd"@.len() == 7);
    assert("q3a"@.len() == 3);
    assert("rigsofrods"@.len() == 10);
    assert("xonotic"@.len() == 7);
    assert("openttd"@[0] == 'o');
    assert("xonotic"@[0] == 'x');
}

/// A set of games, used to restrict a filter to chosen titles.
#[derive(Clone, Debug)]
pub struct GameSet {
    games: Vec<Game>,
}

impl View for GameSet {
    type V = Set<Game>;

    closed spec fn view(&self) -> Set<Game> {
        self.games@.to_set()
    }
}

impl GameSet {
    /// The empty set.
    pub fn new() -> (s: GameSet)
        ensures
            s@ == Set::<Game>::empty(),
    {
        let s = GameSet { games: Vec::new() };
        proof {
            assert(s@ =~= Set::<Game>::empty());
        }
        s
    }

    /// The set holding exactly the games of `games`.
    pub fn from_vec(games: Vec<Game>) -> (s: GameSet)
        ensures
            s@ == games@.to_set(),
    {
        GameSet { games }
    }

    /// Is `g` a member?
    pub fn contains(&self, g: Game) -> (r: bool)
        ensures
            r == self@.contains(g),
    {
        let n = self.games.len();
        let mut i: usize = 0;
        while i < n
            invariant
                0 <= i <= n,
                n == self.games@.len(),
                forall|j: int| 0 <= j < i ==> self.games@[j] != g,
            decreases n - i,
        {
            if self.games[i] == g {
                return true;
            }
            i += 1;
        }
        false
    }

    /// Add `g` to the set.
    pub fn insert(&mut self, g: Game)
        ensures
            final(self)@ == old(self)@.insert(g),
    {
        self.games.push(g);
        proof {
            assert(self.games@ =~= old(self).games@ + seq![g]);
            Seq::<Game>::lemma_to_set_insert_commutes(old(self).games@, g);
        }
    }

    /// Take `g` out of the set.
    pub fn remove(&mut self, g: Game)
        ensures
            final(self)@ == old(self)@.remove(g),
    {
        let n = self.games.len();
        let mut kept: Vec<Game> = Vec::new();
        let mut i: usize = 0;
        while i < n
            invariant
                0 <= i <= n,
                n == self.games@.len(),
                forall|x: Game| #[trigger]
                    kept@.contains(x) <==> (self.games@.take(i as int).contains(x) && x != g),
            decreases n - i,
        {
            let ghost prev = kept@;
            let ghost t0 = self.games@.take(i as int);
            let ghost t1 = self.games@.take(i + 1);
            let ghost e = self.games@[i as int];
            if self.games[i] != g {
                kept.push(self.games[i]);
            }
            proof {
                assert(t1 =~= t0.push(e));
                assert forall|x: Game| #[trigger] kept@.contains(x) <==> (t1.contains(x) && x
                    != g) by {
                    if kept@.contains(x) {
                        let k = choose|k: int| 0 <= k < kept@.len() && kept@[k] == x;
                        if k < prev.len() {
                            assert(prev[k] == x);
                            assert(prev.contains(x));
                            let m = choose|m: int| 0 <= m < t0.len() && t0[m] == x;
                            assert(t1[m] == x);
                        } else {
                            assert(x == e);
                            assert(t1[t1.len() - 1] == x);
                        }
                        assert(t1.contains(x));
                    }
                    if t1.contains(x) && x != g {
                        let k = choose|k: int| 0 <= k < t1.len() && t1[k] == x;
                        if k < t0.len() {
                            assert(t0[k] == x);
                            assert(t0.contains(x));
                            assert(prev.contains(x));
                            let m = choose|m: int| 0 <= m < prev.len() && prev[m] == x;
                            assert(kept@[m] == x);
                        } else {
                            assert(x == e);
                            assert(kept@[kept@.len() - 1] == x);
                        }
                        assert(kept@.contains(x));
                    }
                }
            }
            i += 1;
        }
        proof {
            assert(self.games@.take(n as int) =~= self.games@);
        }
        self.games = kept;
        proof {
            assert(self@ =~= old(self)@.remove(g));
        }
    }

    /// Is the set empty?
    pub fn is_empty(&self) -> (r: bool)
        ensures
            r == (self@ == Set::<Game>::empty()),
    {
        if self.games.len() == 0 {
            proof {
                assert(self@ =~= Set::<Game>::empty());
            }
            true
        } else {
            proof {
                assert(self.games@.contains(self.games@[0]));
                assert(self@.contains(self.games@[0]));
            }
            false
        }
    }
}

/// Adapts a raw server name for display.
pub trait NameMorpher {
    /// What this morpher turns the character sequence `v` into.
    spec fn spec_morph(&self, v: Seq<char>) -> Seq<char>;

    /// Normalise a server name.
    fn morph(&self, v: String) -> (r: String)
        ensures
            r@ == self.spec_morph(v@),
    ;
}

/// A morpher that leaves names untouched.
#[derive(Clone, Debug)]
pub struct DummyMorpher;

impl NameMorpher for DummyMorpher {
    open spec fn spec_morph(&self, v: Seq<char>) -> Seq<char> {
        v
    }

    fn morph(&self, v: String) -> (r: String) {
        v
    }
}

/// What a user asked to connect to: the server's address and, where the
/// server demands one, a password.
#[derive(Clone, Debug)]
pub struct LaunchData {
    pub addr: String,
    pub password: Option<String>,
}

/// An external-process specification: a program and its argument list. The
/// driver turns this into an actual process.
#[derive(Clone, Debug)]
pub struct LaunchSpec {
    pub program: String,
    pub args: Vec<String>,
}

/// The mathematical value of a [`LaunchSpec`].
pub struct LaunchPlan {
    pub program: Seq<char>,
    pub args: Seq<Seq<char>>,
}

impl LaunchSpec {
    /// The specification as a mathematical value.
    pub open spec fn plan(&self) -> LaunchPlan {
        LaunchPlan { program: self.program@, args: self.args.deep_view() }
    }

    /// Append one argument to the command line.
    pub fn push_arg(&mut self, arg: String)
        ensures
            final(self).program == old(self).program,
            final(self).plan().args == old(self).plan().args.push(arg@),
    {
        let ghost pre = self.args.deep_view();
        self.args.push(arg);
        proof {
            assert(self.args.deep_view() =~= pre.push(arg@));
        }
    }
}

/// The plan of an optional launch specification.
pub open spec fn plan_of(r: Option<LaunchSpec>) -> Option<LaunchPlan> {
    match r {
        Some(l) => Some(l.plan()),
        None => None,
    }
}

/// Builds the command line that joins a game server.
pub trait Launcher {
    /// The command line this launcher produces for the given address and
    /// password, if the game can be launched at all.
    spec fn spec_launch_plan(&self, addr: Seq<char>, password: Option<Seq<char>>) -> Option<
        LaunchPlan,
    >;

    /// Build the launch command for `data`.
    fn launch_cmd(&self, data: &LaunchData) -> (r: Option<LaunchSpec>)
        ensures
            plan_of(r) == self.spec_launch_plan(data.addr@, opt_view(data.password)),
    ;
}

/// A launcher for games that cannot be started from the browser.
#[derive(Clone, Debug)]
pub struct DummyLauncher;

impl Launcher for DummyLauncher {
    open spec fn spec_launch_plan(&self, addr: Seq<char>, password: Option<Seq<char>>) -> Option<
        LaunchPlan,
    > {
        None
    }

    fn launch_cmd(&self, data: &LaunchData) -> (r: Option<LaunchSpec>) {
        None
    }
}

/// The name-normalisation strategy configured for a game.
#[derive(Clone, Debug)]
pub enum MorpherKind {
    /// Names are shown as reported.
    Plain(DummyMorpher),
    /// Quake III colour codes are scrubbed off.
    QuakeColors(quake::NameMorpher),
}

impl NameMorpher for MorpherKind {
    open spec fn spec_morph(&self, v: Seq<char>) -> Seq<char> {
        match self {
            MorpherKind::Plain(m) => m.spec_morph(v),
            MorpherKind::QuakeColors(m) => m.spec_morph(v),
        }
    }

    fn morph(&self, v: String) -> (r: String) {
        match self {
            MorpherKind::Plain(m) => m.morph(v),
            MorpherKind::QuakeColors(m) => m.morph(v),
        }
    }
}

/// The launch strategy configured for a game.
#[derive(Clone, Debug)]
pub enum LauncherKind {
    /// The game cannot be started from the browser.
    NoLaunch(DummyLauncher),
    /// Quake III family: flatpak plus `+connect`.
    Quake(quake::Launcher),
    /// OpenTTD: flatpak plus `-n`.
    OpenTtd(openttd::Launcher),
}

impl Launcher for LauncherKind {
    open spec fn spec_launch_plan(&self, addr: Seq<char>, password: Option<Seq<char>>) -> Option<
        LaunchPlan,
    > {
        match self {
            LauncherKind::NoLaunch(l) => l.spec_launch_plan(addr, password),
            LauncherKind::Quake(l) => l.spec_launch_plan(addr, password),
            LauncherKind::OpenTtd(l) => l.spec_launch_plan(addr, password),
        }
    }

    fn launch_cmd(&self, data: &LaunchData) -> (r: Option<LaunchSpec>) {
        match self {
            LauncherKind::NoLaunch(l) => l.launch_cmd(data),
            LauncherKind::Quake(l) => l.launch_cmd(data),
            LauncherKind::OpenTtd(l) => l.launch_cmd(data),
        }
    }
}

/// The query strategy configured for a game.
#[derive(Clone, Debug)]
pub enum QuerierConfig {
    /// Ask UDP master servers through the wire-protocol library.
    MasterProtocol(rgs::Querier),
    /// Fetch an HTTP master list.
    MasterList(rigsofrods::Querier),
}

/// The static per-game configuration bundle: how to query, how to show
/// names, how to launch. Built once at startup, immutable thereafter.
#[derive(Clone, Debug)]
pub struct GameEntry {
    pub querier: QuerierConfig,
    pub name_morpher: MorpherKind,
    pub launcher: LauncherKind,
}

/// The full configuration table, one entry per supported game.
#[derive(Clone, Debug)]
pub struct GameList(pub Vec<(Game, GameEntry)>);

/// The master-server list configured for a game's protocol querier.
pub open spec fn spec_master_servers(g: Game) -> Seq<(Seq<char>, u16)> {
    match g {
        Game::OpenArena => seq![
            ("master3.idsoftware.com"@, 27950u16),
            ("master.ioquake3.org"@, 27950u16),
            ("dpmaster.deathmask.net"@, 27950u16),
        ],
        Game::OpenTTD => seq![("master.openttd.org"@, 3978u16)],
        Game::QuakeIII => seq![("master3.idsoftware.com"@, 27950u16)],
        Game::Xonotic => seq![("dpmaster.deathmask.net"@, 27950u16)],
        Game::RigsOfRods => Seq::<(Seq<char>, u16)>::empty(),
    }
}

/// The mathematical value of a master-server list.
pub open spec fn masters_view(v: Vec<(String, u16)>) -> Seq<(Seq<char>, u16)> {
    Seq::new(v@.len(), |i: int| (v@[i].0@, v@[i].1))
}

/// Is the name morpher the one configured for `g`?
pub open spec fn morpher_ok(g: Game, m: MorpherKind) -> bool {
    match g {
        Game::QuakeIII | Game::OpenArena => m is QuakeColors,
        _ => m is Plain,
    }
}

/// Is the launcher the one configured for `g`?
pub open spec fn launcher_ok(g: Game, l: LauncherKind) -> bool {
    match g {
        Game::QuakeIII | Game::Xonotic | Game::OpenArena => l matches LauncherKind::Quake(q)
            && q.flatpak_launcher.id_source == g,
        Game::OpenTTD => l matches LauncherKind::OpenTtd(q) && q.flatpak_launcher.id_source == g,
        Game::RigsOfRods => l is NoLaunch,
    }
}

/// Is the protocol tuning the one configured for `g`?
pub open spec fn protocol_ok(g: Game, p: rgs::ProtocolConfig) -> bool {
    match g {
        Game::OpenArena => p matches rgs::ProtocolConfig::QuakeMaster(c) && {
            &&& c.version == Some(71u32)
            &&& c.request_tag is None
            &&& c.server_name_rule is None
            &&& (c.mod_rule matches Some(m) && m@ == "gamename"@)
            &&& c.filter == rgs::ServerFilterKind::OpenArenaVersion
        },
        Game::QuakeIII => p matches rgs::ProtocolConfig::QuakeMaster(c) && {
            &&& c.version is None
            &&& c.request_tag is None
            &&& c.server_name_rule is None
            &&& c.mod_rule is None
            &&& c.filter == rgs::ServerFilterKind::KeepAll
        },
        Game::Xonotic => p matches rgs::ProtocolConfig::QuakeMaster(c) && {
            &&& c.version == Some(3u32)
            &&& (c.request_tag matches Some(t) && t@ == "Xonotic"@)
            &&& (c.server_name_rule matches Some(t) && t@ == "hostname"@)
            &&& (c.mod_rule matches Some(t) && t@ == "modname"@)
            &&& c.filter == rgs::ServerFilterKind::KeepAll
        },
        Game::OpenTTD => p is OpenTtdMaster,
        Game::RigsOfRods => false,
    }
}

/// Is the query strategy the one configured for `g`, standing at position
/// `idx` of the table?
pub open spec fn querier_ok(g: Game, idx: int, q: QuerierConfig) -> bool {
    match g {
        Game::RigsOfRods => q matches QuerierConfig::MasterList(ml) && ml.master_addr@
            == "http://multiplayer.rigsofrods.org/server-list"@,
        _ => q matches QuerierConfig::MasterProtocol(mp) && {
            &&& masters_view(mp.master_servers) == spec_master_servers(g)
            &&& mp.port as int == 5600 + idx
            &&& protocol_ok(g, mp.protocol)
        },
    }
}

/// Is `e` the configuration bundle for `g`, standing at position `idx`?
pub open spec fn entry_ok(g: Game, idx: int, e: GameEntry) -> bool {
    &&& morpher_ok(g, e.name_morpher)
    &&& launcher_ok(g, e.launcher)
    &&& querier_ok(g, idx, e.querier)
}

/// Does the table hold exactly the configured games, in order, each with its
/// configured bundle?
pub open spec fn spec_game_list_ok(l: GameList) -> bool {
    &&& l.0@.len() == 5
    &&& l.0@[0].0 == Game::OpenArena && entry_ok(Game::OpenArena, 0, l.0@[0].1)
    &&& l.0@[1].0 == Game::OpenTTD && entry_ok(Game::OpenTTD, 1, l.0@[1].1)
    &&& l.0@[2].0 == Game::QuakeIII && entry_ok(Game::QuakeIII, 2, l.0@[2].1)
    &&& l.0@[3].0 == Game::RigsOfRods && entry_ok(Game::RigsOfRods, 3, l.0@[3].1)
    &&& l.0@[4].0 == Game::Xonotic && entry_ok(Game::Xonotic, 4, l.0@[4].1)
}

impl GameList {
    /// Build the static configuration table.
    pub fn new() -> (r: GameList)
        ensures
            spec_game_list_ok(r),
    {
        let mut entries: Vec<(Game, GameEntry)> = Vec::new();

        let mut oa_masters: Vec<(String, u16)> = Vec::new();
        oa_masters.push((String::from_str("master3.idsoftware.com"), 27950));
        oa_masters.push((String::from_str("master.ioquake3.org"), 27950));
        oa_masters.push((String::from_str("dpmaster.deathmask.net"), 27950));
        proof {
            assert(masters_view(oa_masters) =~= spec_master_servers(Game::OpenArena));
        }
        entries.push(
            (
                Game::OpenArena,
                GameEntry {
                    querier: QuerierConfig::MasterProtocol(
                        rgs::Querier {
                            protocol: rgs::ProtocolConfig::QuakeMaster(
                                rgs::QuakeMasterConfig {
                                    version: Some(71),
                                    request_tag: None,
                                    server_name_rule: None,
                                    mod_rule: Some(String::from_str("gamename")),
                                    filter: rgs::ServerFilterKind::OpenArenaVersion,
                                },
                            ),
                            master_servers: oa_masters,
                            port: 5600,
                        },
                    ),
                    name_morpher: MorpherKind::QuakeColors(quake::NameMorpher),
                    launcher: LauncherKind::Quake(
                        quake::Launcher {
                            flatpak_launcher: flatpak::Launcher { id_source: Game::OpenArena },
                        },
                    ),
                },
            ),
        );

        let mut ttd_masters: Vec<(String, u16)> = Vec::new();
        ttd_masters.push((String::from_str("master.openttd.org"), 3978));
        proof {
            assert(masters_view(ttd_masters) =~= spec_master_servers(Game::OpenTTD));
        }
        entries.push(
            (
                Game::OpenTTD,
                GameEntry {
                    querier: QuerierConfig::MasterProtocol(
                        rgs::Querier {
                            protocol: rgs::ProtocolConfig::OpenTtdMaster,
                            master_servers: ttd_masters,
                            port: 5601,
                        },
                    ),
                    name_morpher: MorpherKind::Plain(DummyMorpher),
                    launcher: LauncherKind::OpenTtd(
                        openttd::Launcher {
                            flatpak_launcher: flatpak::Launcher { id_source: Game::OpenTTD },
                        },
                    ),
                },
            ),
        );

        let mut q3_masters: Vec<(String, u16)> = Vec::new();
        q3_masters.push((String::from_str("master3.idsoftware.com"), 27950));
        proof {
            assert(masters_view(q3_masters) =~= spec_master_servers(Game::QuakeIII));
        }
        entries.push(
            (
                Game::QuakeIII,
                GameEntry {
                    querier: QuerierConfig::MasterProtocol(
                        rgs::Querier {
                            protocol: rgs::ProtocolConfig::QuakeMaster(
                                rgs::QuakeMasterConfig {
                                    version: None,
                                    request_tag: None,
                                    server_name_rule: None,
                                    mod_rule: None,
                                    filter: rgs::ServerFilterKind::KeepAll,
                                },
                            ),
                            master_servers: q3_masters,
                            port: 5602,
                        },
                    ),
                    name_morpher: MorpherKind::QuakeColors(quake::NameMorpher),
                    launcher: LauncherKind::Quake(
                        quake::Launcher {
                            flatpak_launcher: flatpak::Launcher { id_source: Game::QuakeIII },
                        },
                    ),
                },
            ),
        );

        entries.push(
            (
                Game::RigsOfRods,
                GameEntry {
                    querier: QuerierConfig::MasterList(
                        rigsofrods::Querier {
                            master_addr: String::from_str(
                                "http://multiplayer.rigsofrods.org/server-list",
                            ),
                        },
                    ),
                    name_morpher: MorpherKind::Plain(DummyMorpher),
                    launcher: LauncherKind::NoLaunch(DummyLauncher),
                },
            ),
        );

        let mut xon_masters: Vec<(String, u16)> = Vec::new();
        xon_masters.push((String::from_str("dpmaster.deathmask.net"), 27950));
        proof {
            assert(masters_view(xon_masters) =~= spec_master_servers(Game::Xonotic));
        }
        entries.push(
            (
                Game::Xonotic,
                GameEntry {
                    querier: QuerierConfig::MasterProtocol(
                        rgs::Querier {
                            protocol: rgs::ProtocolConfig::QuakeMaster(
                                rgs::QuakeMasterConfig {
                                    version: Some(3),
                                    request_tag: Some(String::from_str("Xonotic")),
                                    server_name_rule: Some(String::from_str("hostname")),
                                    mod_rule: Some(String::from_str("modname")),
                                    filter: rgs::ServerFilterKind::KeepAll,
                                },
                            ),
                            master_servers: xon_masters,
                            port: 5604,
                        },
                    ),
                    name_morpher: MorpherKind::Plain(DummyMorpher),
                    launcher: LauncherKind::Quake(
                        quake::Launcher {
                            flatpak_launcher: flatpak::Launcher { id_source: Game::Xonotic },
                        },
                    ),
                },
            ),
        );

        proof {
            assert(entries@.len() == 5);
            assert(entries@[0].0 == Game::OpenArena);
            assert(entry_ok(Game::OpenArena, 0, entries@[0].1));
            assert(entries@[1].0 == Game::OpenTTD);
            assert(entry_ok(Game::OpenTTD, 1, entries@[1].1));
            assert(entries@[2].0 == Game::QuakeIII);
            assert(entry_ok(Game::QuakeIII, 2, entries@[2].1));
            assert(entries@[3].0 == Game::RigsOfRods);
            assert(entry_ok(Game::RigsOfRods, 3, entries@[3].1));
            assert(entries@[4].0 == Game::Xonotic);
            assert(entry_ok(Game::Xonotic, 4, entries@[4].1));
        }
        GameList(entries)
    }

    /// The configured games, in table order.
    pub fn games(&self) -> (v: Vec<Game>)
        ensures
            v@ == Seq::new(self.0@.len(), |i: int| self.0@[i].0),
    {
        let n = self.0.len();
        let mut v: Vec<Game> = Vec::new();
        let mut i: usize = 0;
        while i < n
            invariant
                0 <= i <= n,
                n == self.0@.len(),
                v@ == Seq::new(i as nat, |j: int| self.0@[j].0),
            decreases n - i,
        {
            v.push(self.0[i].0);
            proof {
                assert(v@ =~= Seq::new((i + 1) as nat, |j: int| self.0@[j].0));
            }
            i += 1;
        }
        v
    }
}

} // verus!
