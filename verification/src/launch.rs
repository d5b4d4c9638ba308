//! Launch-time preparation for the worker process: the generated
//! authentication token and the argument list the worker is spawned with.

use vstd::prelude::*;

use crate::text::{dec_chars, decimal_string};

verus! {

/// A character the hyphenated form of a generated token may contain: a
/// lowercase hex digit or a hyphen.
pub open spec fn is_token_char(c: char) -> bool {
    c == '-' || ('0' <= c <= '9') || ('a' <= c <= 'f')
}

/// A fresh opaque credential for the worker connection.
///
/// Relies on `uuid::Uuid::new_v4` and its hyphenated display form: a random
/// version-4 identifier rendered as 36 characters, lowercase hex digits with
/// hyphens after the 8th, 13th, 18th and 23rd position. Nothing beyond the
/// shape is promised: the value is random.
#[verifier::external_body]
fn fresh_token() -> (r: String)
    ensures
        r@.len() == 36,
        forall|i: int| 0 <= i < 36 ==> is_token_char(#[trigger] r@[i]),
{
    uuid::Uuid::new_v4().to_string()
}

/// The argument list the worker is spawned with: its port and the
/// authentication token, as positional flags.
pub fn worker_args(port: u16, token: &str) -> (r: Vec<String>)
    ensures
        r@.len() == 4,
        r@[0]@ == "--port"@,
        r@[1]@ == dec_chars(port as nat),
        r@[2]@ == "--token"@,
        r@[3]@ == token@,
{
    let mut v: Vec<String> = Vec::new();
    v.push("--port".to_owned());
    v.push(decimal_string(port));
    v.push("--token".to_owned());
    v.push(token.to_owned());
    v
}

/// Everything decided before the worker is spawned: the chosen port, the
/// generated token, and the spawn arguments carrying both.
pub struct LaunchPlan {
    pub port: u16,
    pub token: String,
    pub args: Vec<String>,
}

/// Prepares a launch on the given pre-assigned port: generates a fresh token
/// and builds the worker's argument list from the port and that token.
pub fn plan_launch(port: u16) -> (p: LaunchPlan)
    ensures
        p.port == port,
        p.token@.len() == 36,
        forall|i: int| 0 <= i < 36 ==> is_token_char(#[trigger] p.token@[i]),
        p.args@.len() == 4,
        p.args@[0]@ == "--port"@,
        p.args@[1]@ == dec_chars(port as nat),
        p.args@[2]@ == "--token"@,
        p.args@[3]@ == p.token@,
{
    let token = fresh_token();
    let args = worker_args(port, token.as_str());
    LaunchPlan { port, token, args }
}

} // verus!
