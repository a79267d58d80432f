//! The engine's error taxonomy.
//!
//! Every failure a caller can see is one of these variants; each public
//! function's contract says exactly which variants it can produce and on
//! which inputs. A wrong pool accessor is not here: that is a programming
//! defect and aborts instead of being reported as a recoverable error.

use vstd::prelude::*;

use crate::router::{Protocol, SourceType};

verus! {

/// A typed extraction failure, identifying the stage (and where applicable
/// the partition) that failed.
#[derive(Debug, Clone, PartialEq, Eq)]
pub enum ConnectorError {
    /// The connection string does not have the shape the backend requires.
    InvalidConnectionString(String),
    /// Pool construction failed: malformed connection parameters, an
    /// unreachable host, or authentication rejected while the pool
    /// eagerly validates its first connections.
    PoolBuild(String),
    /// No connection could be checked out of the pool within the
    /// configured connection timeout, or an ephemeral connection could
    /// not be opened.
    ConnectionAcquire(String),
    /// A pre-execution statement or the partition's own query failed;
    /// carries the partition index and the backend's message.
    QueryExecution { partition: usize, message: String },
    /// A backend-native value at (partition, row, column) has no
    /// representation in the destination's type system.
    Conversion { partition: usize, row: usize, column: usize },
    /// At finalization, `partition` reported `found` columns while the
    /// first partition reported `expected`.
    SchemaMismatch { partition: usize, expected: usize, found: usize },
    /// The (backend, protocol) pair is outside the selection matrix, or
    /// this build cannot drive the backend end to end.
    UnsupportedBackend { backend: SourceType, protocol: Protocol },
}

} // verus!
