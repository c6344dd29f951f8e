use vstd::prelude::*;
use crate::port::{decimal, port_text, valid_port};

verus! {

/// How the backend process is to be started: the executable, looked up on
/// the search path, its arguments, and the directory it runs in.
#[derive(Debug, PartialEq, Eq)]
pub struct LaunchPlan {
    pub program: String,
    pub args: Vec<String>,
    pub working_dir: String,
}

/// The name of the backend executable.
pub open spec fn backend_program() -> Seq<char> {
    "opencode"@
}

/// The arguments that make the backend serve on the loopback interface at
/// `port`.
pub open spec fn serve_args(port: u16) -> Seq<Seq<char>> {
    seq!["serve"@, "--hostname"@, "127.0.0.1"@, "--port"@, decimal(port as nat)]
}

/// The views of a list of strings.
pub open spec fn texts(v: Seq<String>) -> Seq<Seq<char>> {
    v.map_values(|s: String| s@)
}

/// The plan that starts the backend listening on `127.0.0.1:<port>`, run
/// from `working_dir`.
pub fn launch_plan(port: u16, working_dir: &str) -> (r: LaunchPlan)
    requires
        valid_port(port),
    ensures
        r.program@ == backend_program(),
        texts(r.args@) == serve_args(port),
        r.working_dir@ == working_dir@,
{
    let mut args: Vec<String> = Vec::new();
    args.push(String::from_str("serve"));
    args.push(String::from_str("--hostname"));
    args.push(String::from_str("127.0.0.1"));
    args.push(String::from_str("--port"));
    args.push(port_text(port));
    assert(texts(args@) =~= serve_args(port));
    LaunchPlan {
        program: String::from_str("opencode"),
        args,
        working_dir: String::from_str(working_dir),
    }
}

} // verus!
