//! The OpenZiti side of a node: the tunnel sidecar's command line and identity enrollment.
use vstd::prelude::*;
use vstd::string::StringExecFns;

use crate::strings::{cat, decimal, u64_to_decimal};

verus! {

/// A Ziti identity and the controller it belongs to.
#[derive(Clone, Debug)]
pub struct ZitiIdentity {
    pub name: String,
    pub identity_file: String,
    pub controller_url: String,
}

/// The configuration of the ziti-tunnel sidecar process.
#[derive(Clone, Debug)]
pub struct ZitiTunnel {
    pub binary: String,
    pub identity_file: String,
    pub service: String,
    pub local_port: u16,
}

/// The arguments of `ziti tunnel proxy --identity <file> <service>:<port>`.
pub open spec fn tunnel_args(identity_file: Seq<char>, service: Seq<char>, port: u16) -> Seq<Seq<char>> {
    seq![
        "tunnel"@,
        "proxy"@,
        "--identity"@,
        identity_file,
        service + seq![':'] + decimal(port as nat),
    ]
}

impl ZitiTunnel {
    /// Returns (program, args) for the sidecar:
    /// `ziti tunnel proxy --identity <file> <service>:<port>`.
    pub fn build_args(&self) -> (r: (String, Vec<String>))
        ensures
            r.0@ == self.binary@,
            r.1.deep_view() == tunnel_args(self.identity_file@, self.service@, self.local_port),
    {
        proof {
            reveal_strlit(":");
            assert(":"@ =~= seq![':']);
        }
        let mut args: Vec<String> = Vec::new();
        args.push(String::from_str("tunnel"));
        args.push(String::from_str("proxy"));
        args.push(String::from_str("--identity"));
        args.push(self.identity_file.clone());
        let with_colon = cat(self.service.as_str(), ":");
        let port = u64_to_decimal(self.local_port as u64);
        args.push(with_colon.concat(port.as_str()));
        assert(args.deep_view() =~= tunnel_args(self.identity_file@, self.service@, self.local_port));
        (self.binary.clone(), args)
    }
}

/// The arguments of `ziti edge enroll --jwt <jwt> --out <out>`.
pub open spec fn enroll_args_of(jwt_file: Seq<char>, out_file: Seq<char>) -> Seq<Seq<char>> {
    seq!["edge"@, "enroll"@, "--jwt"@, jwt_file, "--out"@, out_file]
}

/// Returns the arguments that enroll an identity from `jwt_file` into `out_file`.
pub fn enroll_args(jwt_file: &str, out_file: &str) -> (r: Vec<String>)
    ensures
        r.deep_view() == enroll_args_of(jwt_file@, out_file@),
{
    let mut args: Vec<String> = Vec::new();
    args.push(String::from_str("edge"));
    args.push(String::from_str("enroll"));
    args.push(String::from_str("--jwt"));
    args.push(String::from_str(jwt_file));
    args.push(String::from_str("--out"));
    args.push(String::from_str(out_file));
    assert(args.deep_view() =~= enroll_args_of(jwt_file@, out_file@));
    args
}

/// What can go wrong on the Ziti side.
#[derive(Clone, Debug)]
pub enum ZitiError {
    /// `ziti edge enroll` exited unsuccessfully with this exit status and error output.
    EnrollFailed { status: String, stderr: String },
}

/// The message of an enrollment failure.
pub open spec fn enroll_failure_text(status: Seq<char>, stderr: Seq<char>) -> Seq<char> {
    "ziti enroll failed (exit "@ + status + "): "@ + stderr
}

impl ZitiError {
    /// The error's message.
    pub fn message(&self) -> (r: String)
        ensures
            match self {
                ZitiError::EnrollFailed { status, stderr } => r@ == enroll_failure_text(status@, stderr@),
            },
    {
        match self {
            ZitiError::EnrollFailed { status, stderr } => {
                let a = cat("ziti enroll failed (exit ", status.as_str());
                let b = a.concat("): ");
                b.concat(stderr.as_str())
            },
        }
    }
}

/// The outcome of an enrollment from the exit of `ziti edge enroll`: success when the
/// process succeeded, otherwise the failure with its status and error output.
pub fn enroll_outcome(success: bool, status: String, stderr: String) -> (r: Result<(), ZitiError>)
    ensures
        match r {
            Ok(()) => success,
            Err(ZitiError::EnrollFailed { status: s, stderr: e }) => !success && s@ == status@ && e@
                == stderr@,
        },
{
    if success {
        Ok(())
    } else {
        Err(ZitiError::EnrollFailed { status, stderr })
    }
}

/// A placeholder for a native Ziti SDK bridge.
#[derive(Clone, Debug)]
pub struct ZitiBridge {
    pub identity: ZitiIdentity,
}

impl ZitiBridge {
    /// A bridge for `identity`.
    pub fn new(identity: ZitiIdentity) -> (b: ZitiBridge)
        ensures
            b.identity == identity,
    {
        ZitiBridge { identity }
    }

    /// The address of service `service_name`: `ziti://{service_name}`.
    pub fn dial(&self, service_name: &str) -> (r: Result<String, ZitiError>)
        ensures
            r matches Ok(s) && s@ == "ziti://"@ + service_name@,
    {
        Ok(cat("ziti://", service_name))
    }
}

} // verus!
