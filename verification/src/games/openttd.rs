//! Launch-command construction for OpenTTD.

use vstd::prelude::*;
use vstd::string::StringExecFns;
use super::{flatpak, LaunchData, LaunchPlan, LaunchSpec};
use crate::strutil::opt_view;

verus! {

/// Starts OpenTTD through its flatpak and tells it which server to join.
#[derive(Clone, Debug)]
pub struct Launcher {
    pub flatpak_launcher: flatpak::Launcher,
}

/// The extra arguments OpenTTD takes: the server to join and, if one is
/// needed, its password.
pub open spec fn spec_openttd_args(addr: Seq<char>, password: Option<Seq<char>>) -> Seq<
    Seq<char>,
> {
    match password {
        Some(p) => seq!["-n"@, addr, "-p"@, p],
        None => seq!["-n"@, addr],
    }
}

impl super::Launcher for Launcher {
    open spec fn spec_launch_plan(&self, addr: Seq<char>, password: Option<Seq<char>>) -> Option<
        LaunchPlan,
    > {
        match self.flatpak_launcher.spec_launch_plan(addr, password) {
            Some(base) => Some(
                (LaunchPlan { program: base.program, args: base.args + spec_openttd_args(
                    addr,
                    password,
                ) }),
            ),
            None => None,
        }
    }

    fn launch_cmd(&self, data: &LaunchData) -> (r: Option<LaunchSpec>) {
        match self.flatpak_launcher.launch_cmd(data) {
            Some(cmd) => {
                let ghost base = cmd.plan();
                let mut cmd = cmd;
                cmd.push_arg(String::from_str("-n"));
                cmd.push_arg(data.addr.clone());
                match &data.password {
                    Some(pass) => {
                        cmd.push_arg(String::from_str("-p"));
                        cmd.push_arg(pass.clone());
                    },
                    None => {},
                }
                proof {
                    assert(cmd.plan().args =~= base.args + spec_openttd_args(
                        data.addr@,
                        opt_view(data.password),
                    ));
                }
                Some(cmd)
            },
            None => None,
        }
    }
}

} // verus!
