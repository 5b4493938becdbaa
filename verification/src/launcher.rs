//! The command line that launches the service, and the fixed intervals of
//! the supervisor.

use vstd::prelude::*;
use vstd::string::StringExecFns;
use crate::text::{decimal, decimal_string};

verus! {

/// Seconds to wait after the launch before the child is checked.
pub const WARM_UP_SECS: u64 = 2;

/// The module that the interpreter is asked to run.
pub open spec fn service_module() -> Seq<char> {
    "roura_agent.server"@
}

/// The address that the service is told to bind.
pub open spec fn loopback_host() -> Seq<char> {
    "127.0.0.1"@
}

/// The arguments handed to the interpreter to serve on `port`.
pub open spec fn launch_arguments(port: u16) -> Seq<Seq<char>> {
    seq![
        "-m"@,
        service_module(),
        "--port"@,
        decimal(port as nat),
        "--host"@,
        loopback_host(),
    ]
}

/// Builds the arguments handed to the interpreter to serve on `port`.
pub fn build_launch_arguments(port: u16) -> (args: Vec<String>)
    ensures
        args.deep_view() == launch_arguments(port),
{
    let mut args: Vec<String> = Vec::new();
    args.push(String::from_str("-m"));
    args.push(String::from_str("roura_agent.server"));
    args.push(String::from_str("--port"));
    args.push(decimal_string(port as u64));
    args.push(String::from_str("--host"));
    args.push(String::from_str("127.0.0.1"));
    assert(args.deep_view() =~= launch_arguments(port));
    args
}

} // verus!
