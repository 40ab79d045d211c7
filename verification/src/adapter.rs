//! Small adapter-facing types: markers for connection building, the
//! upstream query result, and the query handler's routing decision.

use vstd::prelude::*;

verus! {

/// Marker for a connection builder that always connects remotely.
pub struct Remote;

/// Marker for a connection builder that may use a local channel.
pub struct MaybeLocal;

/// Where a query was answered.
#[derive(Clone, Copy, Debug, PartialEq, Eq, Structural)]
pub enum QueryDestination {
    ReadySet,
    Upstream,
}

/// The result of running a query against the upstream database.
#[derive(Debug, PartialEq, Eq)]
pub enum QueryResult {
    WriteResult { num_rows_affected: u64, last_inserted_id: u64, status_flags: u32 },
    ReadResult,
    Command { status_flags: u32 },
}

impl QueryResult {
    /// Upstream results always come from the upstream database.
    pub fn destination(&self) -> (d: QueryDestination)
        ensures
            d == QueryDestination::Upstream,
    {
        QueryDestination::Upstream
    }
}

/// The query handler: decides which statements the adapter must send to
/// the upstream database rather than answer itself.
pub struct MongoDbQueryHandler;

impl MongoDbQueryHandler {
    /// Every query requires falling back to the upstream database.
    pub fn requires_fallback() -> (r: bool)
        ensures
            r == true,
    {
        true
    }
}

} // verus!
