//! Construction of the sidecar invocation.
//!
//! The backend child is started with the bundled binary named
//! `flask-backend` and exactly four arguments, in order:
//! `--data-dir <resolved path> --port 5000`. The port is a fixed literal in
//! this version; the data directory value is the path the resolver produced
//! and the orchestrator ensured.

use vstd::prelude::*;

verus! {

/// The logical name of the bundled backend binary. The packaging layer
/// resolves it to an on-disk executable colocated with the shell.
pub open spec fn flask_backend_name() -> Seq<char> {
    "flask-backend"@
}

/// The flag that precedes the data directory value.
pub open spec fn data_dir_flag() -> Seq<char> {
    "--data-dir"@
}

/// The flag that precedes the port value.
pub open spec fn port_flag() -> Seq<char> {
    "--port"@
}

/// The fixed TCP port the backend must listen on, as its decimal text.
pub open spec fn port_text() -> Seq<char> {
    "5000"@
}

/// The exact argument vector the child must observe for a given data
/// directory: four arguments, order significant.
pub open spec fn sidecar_args(data_dir: Seq<char>) -> Seq<Seq<char>> {
    seq![data_dir_flag(), data_dir, port_flag(), port_text()]
}

/// The mathematical value of a [`SidecarInvocation`].
#[verifier::ext_equal]
pub struct InvocationModel {
    pub binary: Seq<char>,
    pub args: Seq<Seq<char>>,
}

/// The one invocation the shell ever constructs: the bundled backend binary
/// with the argument vector for `data_dir`.
pub open spec fn invocation_for(data_dir: Seq<char>) -> InvocationModel {
    InvocationModel { binary: flask_backend_name(), args: sidecar_args(data_dir) }
}

/// A fully constructed request to spawn the bundled backend: the binary's
/// logical name and its ordered argument vector.
#[derive(Debug, PartialEq)]
pub struct SidecarInvocation {
    pub binary: String,
    pub args: Vec<String>,
}

impl View for SidecarInvocation {
    type V = InvocationModel;

    open spec fn view(&self) -> InvocationModel {
        InvocationModel {
            binary: self.binary@,
            args: self.args@.map_values(|s: String| s@),
        }
    }
}

impl SidecarInvocation {
    /// Builds the invocation for a resolved and ensured data directory.
    pub fn new(data_dir: &String) -> (r: SidecarInvocation)
        ensures
            r@ == invocation_for(data_dir@),
    {
        let mut args: Vec<String> = Vec::new();
        args.push(String::from_str("--data-dir"));
        args.push(data_dir.clone());
        args.push(String::from_str("--port"));
        args.push(String::from_str("5000"));
        let r = SidecarInvocation { binary: String::from_str("flask-backend"), args };
        proof {
            assert(r@.args =~= sidecar_args(data_dir@));
            assert(r@ =~= invocation_for(data_dir@));
        }
        r
    }
}

} // verus!
