use vstd::prelude::*;

use crate::handler::{is_server_error, Body, Reply, STATUS_SERVER_ERROR};

verus! {

/// The failure kinds that every port and handler reports.
#[derive(Clone, Copy, Debug, PartialEq, Eq, Structural)]
pub enum Error {
    /// A resource needed at startup could not be loaded.
    ConfigError,
    /// No connection could be had from the pool in time.
    PoolError,
    /// The store rejected or failed a statement.
    QueryError,
    /// The schema initialisation failed.
    InitError,
    /// The fact lookup failed or answered with a non-success status.
    UpstreamError,
    /// The fact lookup answered with a body of the wrong shape.
    DecodeError,
}

/// Startup failures stop the process; the others fail one request.
pub open spec fn is_fatal_spec(e: Error) -> bool {
    e == Error::ConfigError || e == Error::InitError
}

impl Error {
    /// Whether the failure must stop the process before it serves traffic.
    pub fn is_fatal(&self) -> (r: bool)
        ensures
            r == is_fatal_spec(*self),
    {
        match self {
            Error::ConfigError | Error::InitError => true,
            _ => false,
        }
    }
}

/// Turns any failure into the generic server error; nothing of the failure is shown.
pub fn handle_rejection(e: Error) -> (r: Reply)
    ensures
        is_server_error(r),
{
    Reply { status: STATUS_SERVER_ERROR, body: Body::ServerError }
}

} // verus!
