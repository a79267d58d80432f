//! Extraction engine for tabular data sources: connection pooling over
//! backend-specific client crates, per-backend protocol selection, and a
//! partitioned dispatch pipeline that converts backend-native values into a
//! destination-neutral columnar result.
//!
//! By design, this build drives query execution end to end for the embedded
//! relational backend only; the networked backends' clients are reached for
//! connection pooling, and an extraction over them reports the backend as
//! unsupported rather than guessing. The conversion, destination and merge
//! logic is shared by all backends and carries exact contracts.

pub mod config;
pub mod db;
pub mod destination;
pub mod dispatch;
pub mod errors;
pub mod pool;
pub mod router;
pub mod stream;
pub mod value;
