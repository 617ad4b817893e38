//! Node management as the console and the command line show it: enrollment slots,
//! where identities and tokens live, and the daemon's process status.
use vstd::prelude::*;
use vstd::string::StrSliceExecFns;
use vstd::string::StringExecFns;

use crate::paths::{joined_path, path_join};
use crate::strings::{cat, decimal, u64_to_decimal};

verus! {

/// `n` in decimal, padded with zeros to at least three digits.
pub open spec fn padded3(n: nat) -> Seq<char> {
    let d = decimal(n);
    if d.len() >= 3 {
        d
    } else {
        Seq::new((3 - d.len()) as nat, |i: int| '0') + d
    }
}

/// The node name of slot `index` (counting from 0): `node-001`, `node-002`, ...
pub fn enrollment_slot_name(index: u32) -> (r: String)
    requires
        index < u32::MAX,
    ensures
        r@ == "node-"@ + padded3(index as nat + 1),
{
    let n: u64 = index as u64 + 1;
    let d = u64_to_decimal(n);
    let len = d.as_str().unicode_len();
    proof {
        reveal_strlit("00");
        reveal_strlit("0");
    }
    let padded = if len == 1 {
        assert("00"@ =~= Seq::new(2, |i: int| '0'));
        cat("00", d.as_str())
    } else if len == 2 {
        assert("0"@ =~= Seq::new(1, |i: int| '0'));
        cat("0", d.as_str())
    } else {
        d
    };
    cat("node-", padded.as_str())
}

/// Where the enrollment token of node `node_id` is expected in directory `dir`.
pub fn enrollment_jwt_path(dir: &str, node_id: &str) -> (r: String)
    ensures
        r@ == dir@ + "/"@ + node_id@ + ".jwt"@,
{
    let a = cat(dir, "/");
    let b = a.concat(node_id);
    b.concat(".jwt")
}

/// How a slot is shown: `jwt ready` once its token is there, `awaiting jwt` before.
pub fn enrollment_status(token_present: bool) -> (r: String)
    ensures
        r@ == if token_present {
            "jwt ready"@
        } else {
            "awaiting jwt"@
        },
{
    if token_present {
        String::from_str("jwt ready")
    } else {
        String::from_str("awaiting jwt")
    }
}


/// How the daemon's process is reported: from the PID file's content, when there is
/// one, and whether that process is alive.
pub open spec fn process_status_text(pid: Option<Seq<char>>, alive: bool) -> Seq<char> {
    match pid {
        Some(p) => if alive {
            "running (pid="@ + p + ")"@
        } else {
            "dead (stale PID file)"@
        },
        None => "not running (no PID file)"@,
    }
}

/// Reports the daemon's process status; `pid` is the trimmed content of the PID file.
pub fn process_status(pid: Option<String>, alive: bool) -> (r: String)
    ensures
        r@ == process_status_text(
            match pid {
                Some(p) => Some(p@),
                None => None,
            },
            alive,
        ),
{
    match pid {
        Some(p) => if alive {
            let a = cat("running (pid=", p.as_str());
            a.concat(")")
        } else {
            String::from_str("dead (stale PID file)")
        },
        None => String::from_str("not running (no PID file)"),
    }
}

/// Where an enrolled identity is written by default: `.config/twilight/identity.json`
/// under the home directory, or under the current directory when there is no home.
pub fn default_identity_path(home: &Option<String>) -> (r: String)
    ensures
        r@ == joined_path(
            match home {
                Some(h) => h@,
                None => "."@,
            },
            ".config/twilight/identity.json"@,
        ),
{
    match home {
        Some(h) => path_join(h.as_str(), ".config/twilight/identity.json"),
        None => path_join(".", ".config/twilight/identity.json"),
    }
}

} // verus!
