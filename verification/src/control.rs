use vstd::prelude::*;

use crate::error::Error;
use crate::ids::JobId;
use crate::model::{BuildRequest, TreeRegistration};

verus! {

/// A request to the scheduler daemon over its control socket.
#[derive(Debug, Clone)]
pub enum ControlRequest {
    Status,
    Schedule { request: Box<BuildRequest> },
    GetJob { id: JobId },
    ListJobs,
    Cancel { id: JobId },
    TailLog { id: JobId, max_bytes: usize },
    ListArtifacts { id: JobId },
    GetArtifactManifest { id: JobId },
    RegisterTree { tree: TreeRegistration },
    ListTrees,
    RemoveTree { name: String },
}

/// What a client does on one attempt to reach the daemon's socket.
#[derive(Debug, Clone, Copy, PartialEq, Eq, Structural)]
pub enum ConnectStep {
    /// Look for the socket; if it is missing, wait `wait_millis` and try again.
    Probe { wait_millis: u64 },
    /// Stop: the socket did not appear.
    GiveUp,
}

/// A client looks for the socket 50 times, 10 ms apart, then gives up.
pub open spec fn connect_plan(attempt: u32) -> ConnectStep {
    if attempt < 50 {
        ConnectStep::Probe { wait_millis: 10 }
    } else {
        ConnectStep::GiveUp
    }
}

pub fn connect_step(attempt: u32) -> (s: ConnectStep)
    ensures
        s == connect_plan(attempt),
{
    if attempt < 50 {
        ConnectStep::Probe { wait_millis: 10 }
    } else {
        ConnectStep::GiveUp
    }
}

/// The error when the socket never appeared.
pub fn socket_unavailable(socket: &str) -> (e: Error)
    ensures
        e matches Error::Runtime(m) && m@ == "control socket "@ + socket@ + " is unavailable"@,
{
    let mut m = String::from_str("control socket ");
    m.append(socket);
    m.append(" is unavailable");
    Error::Runtime(m)
}

/// A reply line from the daemon is refused when it is empty.
pub fn check_reply(line: &str) -> (r: Result<(), Error>)
    ensures
        r is Ok <==> line@.len() > 0,
        r matches Err(e) ==> e matches Error::Runtime(m) && m@ == "empty control response"@,
{
    if line.is_empty() {
        return Err(Error::Runtime(String::from_str("empty control response")));
    }
    Ok(())
}

} // verus!
