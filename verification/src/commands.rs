//! Textual command surface.
//!
//! The chat commands around the capture pipeline are plain
//! request/response glue; only their data — command names and canned
//! replies — lives here. Registration and dispatch against the chat
//! platform stay with the caller.

use vstd::prelude::*;
use vstd::string::StringExecFns;

verus! {

/// The command that looks up user identifiers by role.
pub struct Id;

impl Id {
    /// The textual name this command is registered under.
    pub fn name(&self) -> (s: &'static str)
        ensures
            s@ == "id"@,
    {
        "id"
    }
}

/// The command that answers with a liveness check.
pub struct Ping;

impl Ping {
    /// The textual name this command is registered under.
    pub fn name(&self) -> (s: &'static str)
        ensures
            s@ == "ping"@,
    {
        "ping"
    }
}

/// Canned reply of the voice-recording toggle command, which is not
/// wired up yet.
pub fn _run() -> (s: String)
    ensures
        s@ == "in development"@,
{
    String::from_str("in development")
}

} // verus!
