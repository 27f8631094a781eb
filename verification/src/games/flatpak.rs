//! Launching games installed as flatpaks.

use vstd::prelude::*;
use vstd::string::StringExecFns;
use super::{Game, LaunchData, LaunchPlan, LaunchSpec};
use crate::strutil::opt_str_view;

verus! {

/// A game that may be installed under a flatpak application identifier.
pub trait FlatpakIdentifiable {
    /// The flatpak application identifier, if the game is shipped as one.
    spec fn spec_flatpak_id(&self) -> Option<Seq<char>>;

    /// The flatpak application identifier, if the game is shipped as one.
    fn id(&self) -> (r: Option<&'static str>)
        ensures
            opt_str_view(r) == self.spec_flatpak_id(),
    ;
}

impl FlatpakIdentifiable for Game {
    open spec fn spec_flatpak_id(&self) -> Option<Seq<char>> {
        match self {
            Game::OpenArena => Some("ws.openarena.OpenArena"@),
            Game::OpenTTD => Some("org.openttd.OpenTTD"@),
            Game::Xonotic => Some("org.xonotic.Xonotic"@),
            _ => None,
        }
    }

    fn id(&self) -> (r: Option<&'static str>) {
        match self {
            Game::OpenArena => Some("ws.openarena.OpenArena"),
            Game::OpenTTD => Some("org.openttd.OpenTTD"),
            Game::Xonotic => Some("org.xonotic.Xonotic"),
            _ => None,
        }
    }
}

/// Starts a game through `flatpak run`, without any game-specific arguments.
#[derive(Clone, Debug)]
pub struct Launcher {
    pub id_source: Game,
}

/// The command line that runs the stable x86_64 build of the flatpak
/// application `fid`.
pub open spec fn spec_flatpak_plan(fid: Seq<char>) -> LaunchPlan {
    LaunchPlan { program: "flatpak"@, args: seq!["run"@, fid + "/x86_64/stable"@] }
}

impl super::Launcher for Launcher {
    open spec fn spec_launch_plan(&self, addr: Seq<char>, password: Option<Seq<char>>) -> Option<
        LaunchPlan,
    > {
        match self.id_source.spec_flatpak_id() {
            Some(fid) => Some(spec_flatpak_plan(fid)),
            None => None,
        }
    }

    fn launch_cmd(&self, data: &LaunchData) -> (r: Option<LaunchSpec>) {
        match FlatpakIdentifiable::id(&self.id_source) {
            Some(fid) => {
                let mut args: Vec<String> = Vec::new();
                args.push(String::from_str("run"));
                args.push(String::from_str(fid).concat("/x86_64/stable"));
                let cmd = LaunchSpec { program: String::from_str("flatpak"), args };
                proof {
                    assert(cmd.plan().args =~= spec_flatpak_plan(fid@).args);
                }
                Some(cmd)
            },
            None => None,
        }
    }
}

} // verus!
