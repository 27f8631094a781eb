//! Name normalisation and launch-command construction for the Quake III
//! family of games (Quake III Arena, OpenArena, Xonotic).

use vstd::prelude::*;
use vstd::string::StringExecFns;
use super::{flatpak, LaunchData, LaunchPlan, LaunchSpec};
use crate::strutil::{chars_to_string, opt_view};

verus! {

/// Server names in the Quake III family carry colour codes: a caret followed
/// by one more character. `scrub` is the name with every such pair removed;
/// a caret followed by a line feed, or a trailing caret, stays.
pub open spec fn scrub(s: Seq<char>) -> Seq<char>
    decreases s.len(),
{
    if s.len() >= 2 && s[0] == '^' && s[1] != '\n' {
        scrub(s.skip(2))
    } else if s.len() >= 1 {
        seq![s[0]] + scrub(s.skip(1))
    } else {
        Seq::<char>::empty()
    }
}

/// Scrubs colour codes off server names.
#[derive(Clone, Debug, Default)]
pub struct NameMorpher;

impl super::NameMorpher for NameMorpher {
    open spec fn spec_morph(&self, v: Seq<char>) -> Seq<char> {
        scrub(v)
    }

    fn morph(&self, v: String) -> (r: String) {
        let s = v.as_str();
        let n = s.unicode_len();
        let mut out: Vec<char> = Vec::new();
        let mut i: usize = 0;
        proof {
            assert(s@.skip(0) =~= s@);
        }
        while i < n
            invariant
                0 <= i <= n,
                n == s@.len(),
                s@ == v@,
                scrub(v@) == out@ + scrub(s@.skip(i as int)),
            decreases n - i,
        {
            let ghost tail = s@.skip(i as int);
            proof {
                assert(tail[0] == s@[i as int]);
                if i + 1 < n {
                    assert(tail[1] == s@[i as int + 1]);
                }
            }
            let c = s.get_char(i);
            if c == '^' && i + 1 < n && s.get_char(i + 1) != '\n' {
                proof {
                    assert(tail.skip(2) =~= s@.skip(i as int + 2));
                }
                i += 2;
            } else {
                proof {
                    assert(tail.skip(1) =~= s@.skip(i as int + 1));
                    assert(out@ + (seq![tail[0]] + scrub(tail.skip(1))) =~= out@.push(c) + scrub(
                        s@.skip(i as int + 1),
                    ));
                }
                out.push(c);
                i += 1;
            }
        }
        proof {
            assert(s@.skip(n as int) =~= Seq::<char>::empty());
            assert(out@ + Seq::<char>::empty() =~= out@);
        }
        chars_to_string(out)
    }
}

/// Starts a Quake III family game through its flatpak and tells it which
/// server to connect to.
#[derive(Clone, Debug)]
pub struct Launcher {
    pub flatpak_launcher: flatpak::Launcher,
}

/// The extra arguments the Quake III family takes: the server to connect to
/// and, if one is needed, its password.
pub open spec fn spec_quake_args(addr: Seq<char>, password: Option<Seq<char>>) -> Seq<Seq<char>> {
    match password {
        Some(p) => seq!["+connect"@, addr, "+password"@, p],
        None => seq!["+connect"@, addr],
    }
}

impl super::Launcher for Launcher {
    open spec fn spec_launch_plan(&self, addr: Seq<char>, password: Option<Seq<char>>) -> Option<
        LaunchPlan,
    > {
        match self.flatpak_launcher.spec_launch_plan(addr, password) {
            Some(base) => Some(
                (LaunchPlan { program: base.program, args: base.args + spec_quake_args(
                    addr,
                    password,
                ) }),
            ),
            None => None,
        }
    }

    fn launch_cmd(&self, data: &LaunchData) -> (r: Option<LaunchSpec>) {
        match self.flatpak_launcher.launch_cmd(data) {
            Some(cmd) => {
                let ghost base = cmd.plan();
                let mut cmd = cmd;
                cmd.push_arg(String::from_str("+connect"));
                cmd.push_arg(data.addr.clone());
                match &data.password {
                    Some(pass) => {
                        cmd.push_arg(String::from_str("+password"));
                        cmd.push_arg(pass.clone());
                    },
                    None => {},
                }
                proof {
                    assert(cmd.plan().args =~= base.args + spec_quake_args(
                        data.addr@,
                        opt_view(data.password),
                    ));
                }
                Some(cmd)
            },
            None => None,
        }
    }
}

} // verus!
