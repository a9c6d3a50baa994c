//! Trait definitions for database operations.

use vstd::prelude::*;
use crate::events::FailureReason;

verus! {

/// Trait defining basic operations for interacting with a database
/// backend. Each backend drives one replication run; the binary
/// implements it for the pair of the verified orchestrator and the live
/// transports it owns, and future backends can be added without touching
/// the driving loop.
pub trait DatabaseOperations {
    /// Establishes and verifies the connections to both endpoints.
    fn connect(&mut self) -> Result<(), FailureReason>;

    /// Closes whichever connections exist; never an error when none do.
    fn close(&mut self) -> Result<(), FailureReason>;

    /// Replicates the database state from origin to target.
    fn replicate(&mut self) -> Result<(), FailureReason>;
}

} // verus!
