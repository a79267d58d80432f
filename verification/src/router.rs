//! Backends, protocols and the source-selection matrix.
//!
//! A `SourceDescriptor` is the parsed form of a connection target: which
//! backend it is, the normalized connection string, the wire protocol to use
//! and whether TLS was requested. Descriptors are produced by a routing
//! collaborator outside this crate; everything here consumes them.

use vstd::prelude::*;

use crate::errors::ConnectorError;

verus! {

/// The closed set of supported backends: five relational engines and two
/// analytical query services.
#[derive(Debug, Clone, Copy, PartialEq, Eq, Structural)]
pub enum SourceType {
    MySQL,
    Postgres,
    SQLite,
    Oracle,
    MsSQL,
    BigQuery,
    Trino,
}

/// A backend-specific wire/execution mode affecting how rows are fetched.
/// Backends with only one mode use `Single`.
#[derive(Debug, Clone, Copy, PartialEq, Eq, Structural)]
pub enum Protocol {
    Csv,
    Binary,
    Cursor,
    Simple,
    Text,
    Single,
}

/// A parsed connection target. Immutable once produced.
#[derive(Debug, Clone)]
pub struct SourceDescriptor {
    pub ty: SourceType,
    pub conn: String,
    pub proto: Protocol,
    pub tls: bool,
}

/// Whether a backend supports connection pooling. The analytical services
/// and MsSQL always open ephemeral connections instead.
pub open spec fn spec_supports_pooling(ty: SourceType) -> bool {
    match ty {
        SourceType::MySQL => true,
        SourceType::Postgres => true,
        SourceType::SQLite => true,
        SourceType::Oracle => true,
        SourceType::MsSQL => false,
        SourceType::BigQuery => false,
        SourceType::Trino => false,
    }
}

/// Runtime test for `spec_supports_pooling`.
pub fn supports_pooling(ty: SourceType) -> (r: bool)
    ensures
        r == spec_supports_pooling(ty),
{
    match ty {
        SourceType::MySQL => true,
        SourceType::Postgres => true,
        SourceType::SQLite => true,
        SourceType::Oracle => true,
        SourceType::MsSQL => false,
        SourceType::BigQuery => false,
        SourceType::Trino => false,
    }
}

/// The tag a pool built for a descriptor must carry. TLS changes the
/// physical connection type for Postgres, so it produces a distinct tag.
#[derive(Debug, Clone, Copy, PartialEq, Eq, Structural)]
pub enum PoolTag {
    MySQL,
    PostgresNoTls,
    PostgresTls,
    SQLite,
    Oracle,
}

/// The pool tag a descriptor determines, `None` for backends without
/// pooling support.
pub open spec fn spec_pool_tag_of(ty: SourceType, tls: bool) -> Option<PoolTag> {
    match ty {
        SourceType::MySQL => Some(PoolTag::MySQL),
        SourceType::Postgres => if tls {
            Some(PoolTag::PostgresTls)
        } else {
            Some(PoolTag::PostgresNoTls)
        },
        SourceType::SQLite => Some(PoolTag::SQLite),
        SourceType::Oracle => Some(PoolTag::Oracle),
        SourceType::MsSQL => None,
        SourceType::BigQuery => None,
        SourceType::Trino => None,
    }
}

/// One concrete source implementation: a valid (backend, protocol) pairing
/// from the selection matrix.
#[derive(Debug, Clone, Copy, PartialEq, Eq, Structural)]
pub enum SourceKind {
    PostgresCsv,
    PostgresBinary,
    PostgresCursor,
    PostgresSimple,
    MySQLBinary,
    MySQLText,
    SQLite,
    Oracle,
    MsSQL,
    BigQuery,
    Trino,
}

/// The selection matrix: which source implementation serves each
/// (backend, protocol) pair, `None` where the pair is not supported.
///
/// Postgres speaks csv, binary, cursor and simple; MySQL speaks binary and
/// text; every other backend has a single mode.
pub open spec fn spec_select(ty: SourceType, proto: Protocol) -> Option<SourceKind> {
    match (ty, proto) {
        (SourceType::Postgres, Protocol::Csv) => Some(SourceKind::PostgresCsv),
        (SourceType::Postgres, Protocol::Binary) => Some(SourceKind::PostgresBinary),
        (SourceType::Postgres, Protocol::Cursor) => Some(SourceKind::PostgresCursor),
        (SourceType::Postgres, Protocol::Simple) => Some(SourceKind::PostgresSimple),
        (SourceType::MySQL, Protocol::Binary) => Some(SourceKind::MySQLBinary),
        (SourceType::MySQL, Protocol::Text) => Some(SourceKind::MySQLText),
        (SourceType::SQLite, Protocol::Single) => Some(SourceKind::SQLite),
        (SourceType::Oracle, Protocol::Single) => Some(SourceKind::Oracle),
        (SourceType::MsSQL, Protocol::Single) => Some(SourceKind::MsSQL),
        (SourceType::BigQuery, Protocol::Single) => Some(SourceKind::BigQuery),
        (SourceType::Trino, Protocol::Single) => Some(SourceKind::Trino),
        _ => None,
    }
}

/// Selects the source implementation for a (backend, protocol) pair, or
/// reports exactly which unsupported pair was asked for.
pub fn select_source(ty: SourceType, proto: Protocol) -> (r: Result<SourceKind, ConnectorError>)
    ensures
        spec_select(ty, proto) matches Some(k) ==> r == Ok::<SourceKind, ConnectorError>(k),
        spec_select(ty, proto) is None ==> r == Err::<SourceKind, ConnectorError>(
            ConnectorError::UnsupportedBackend { backend: ty, protocol: proto },
        ),
{
    match (ty, proto) {
        (SourceType::Postgres, Protocol::Csv) => Ok(SourceKind::PostgresCsv),
        (SourceType::Postgres, Protocol::Binary) => Ok(SourceKind::PostgresBinary),
        (SourceType::Postgres, Protocol::Cursor) => Ok(SourceKind::PostgresCursor),
        (SourceType::Postgres, Protocol::Simple) => Ok(SourceKind::PostgresSimple),
        (SourceType::MySQL, Protocol::Binary) => Ok(SourceKind::MySQLBinary),
        (SourceType::MySQL, Protocol::Text) => Ok(SourceKind::MySQLText),
        (SourceType::SQLite, Protocol::Single) => Ok(SourceKind::SQLite),
        (SourceType::Oracle, Protocol::Single) => Ok(SourceKind::Oracle),
        (SourceType::MsSQL, Protocol::Single) => Ok(SourceKind::MsSQL),
        (SourceType::BigQuery, Protocol::Single) => Ok(SourceKind::BigQuery),
        (SourceType::Trino, Protocol::Single) => Ok(SourceKind::Trino),
        _ => Err(ConnectorError::UnsupportedBackend { backend: ty, protocol: proto }),
    }
}

/// Which source kinds this build can actually drive end to end. Query
/// execution is wired for the embedded relational backend; the clients of
/// the networked backends are reached for pooling only.
pub open spec fn spec_executable(kind: SourceKind) -> bool {
    kind is SQLite
}

/// Runtime test for `spec_executable`.
pub fn executable(kind: SourceKind) -> (r: bool)
    ensures
        r == spec_executable(kind),
{
    match kind {
        SourceKind::SQLite => true,
        _ => false,
    }
}

} // verus!
