//! Supervisor for a locally bundled worker process and the message transport
//! to it: launching the worker, scanning its output for a readiness signal,
//! building the connection address, preparing outbound payloads, and deciding
//! how the inbound listener loop reacts to each event it reads.

use vstd::prelude::*;

pub mod envelope;
pub mod launch;
pub mod records;
pub mod scanner;
pub mod text;
pub mod transport;

verus! {

/// Errors of the supervisor subsystem, from port allocation through the
/// lifetime of the connection.
#[derive(Clone, Copy, PartialEq, Eq, Structural, Debug)]
pub enum SupervisorError {
    /// No ephemeral port could be obtained from the operating system.
    PortAllocation,
    /// The worker binary could not be spawned.
    Spawn,
    /// The worker never signalled readiness within the allowed wait.
    ReadinessTimeout,
    /// The connect attempt after readiness failed.
    Connection,
    /// A send on the write half failed.
    Write,
    /// An outbound structured payload could not be encoded.
    Serialization,
    /// A transport-level read failure ended the listener loop.
    Listen,
}

/// The description of each error kind.
pub open spec fn error_text(e: SupervisorError) -> Seq<char> {
    match e {
        SupervisorError::PortAllocation => "no ephemeral port could be obtained"@,
        SupervisorError::Spawn => "the worker binary could not be spawned"@,
        SupervisorError::ReadinessTimeout => "the worker did not signal readiness in time"@,
        SupervisorError::Connection => "could not connect to the worker after readiness"@,
        SupervisorError::Write => "a send to the worker failed"@,
        SupervisorError::Serialization => "the outbound payload could not be encoded"@,
        SupervisorError::Listen => "reading from the worker connection failed"@,
    }
}

impl SupervisorError {
    /// A human-readable description of the error.
    pub fn message(&self) -> (r: String)
        ensures
            r@ == error_text(*self),
    {
        match self {
            SupervisorError::PortAllocation => "no ephemeral port could be obtained".to_owned(),
            SupervisorError::Spawn => "the worker binary could not be spawned".to_owned(),
            SupervisorError::ReadinessTimeout => {
                "the worker did not signal readiness in time".to_owned()
            },
            SupervisorError::Connection => {
                "could not connect to the worker after readiness".to_owned()
            },
            SupervisorError::Write => "a send to the worker failed".to_owned(),
            SupervisorError::Serialization => "the outbound payload could not be encoded".to_owned(),
            SupervisorError::Listen => "reading from the worker connection failed".to_owned(),
        }
    }
}

} // verus!
