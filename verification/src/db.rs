//! Trusted declarations and wrappers around the database client crates.
//!
//! Everything in this module is believed, not proved: each wrapper's body
//! makes the outside call (plus argument/result conversion), and its contract
//! states only what the called crate's source shows. The pooled-connection
//! types carry trait obligations the verifier cannot express, so each
//! backend's pool is held opaquely in a handle struct of this crate; the
//! verified engine reasons about what it hands the pools and what it does
//! with what they return.

use vstd::prelude::*;

use crate::config::BuilderSettings;
use crate::dispatch::RawPartition;
use crate::value::TypedCell;

verus! {

// ---------------------------------------------------------------------------
// Declarations of client-crate types, and the opaque pool handles.
// ---------------------------------------------------------------------------

#[verifier::external_type_specification]
#[verifier::external_body]
pub struct ExMakeTlsConnector(postgres_openssl::MakeTlsConnector);

#[verifier::external_type_specification]
#[verifier::external_body]
pub struct ExRusqliteConnection(r2d2_sqlite::rusqlite::Connection);

#[verifier::external_type_specification]
#[verifier::external_body]
pub struct ExValueRef<'a>(r2d2_sqlite::rusqlite::types::ValueRef<'a>);

/// A pool of connections to the embedded relational backend.
#[verifier::external_body]
pub struct SqlitePool {
    inner: r2d2::Pool<r2d2_sqlite::SqliteConnectionManager>,
}

/// One connection checked out of a `SqlitePool`; dropping it returns the
/// connection to the pool on every exit path.
#[verifier::external_body]
pub struct SqlitePooledConn {
    inner: r2d2::PooledConnection<r2d2_sqlite::SqliteConnectionManager>,
}

/// A pool of connections to the prepared-statement relational backend.
#[verifier::external_body]
pub struct MySqlPool {
    inner: r2d2::Pool<r2d2_mysql::MySqlConnectionManager>,
}

/// A pool of plaintext connections to the extended-protocol relational
/// backend.
#[verifier::external_body]
pub struct PgNoTlsPool {
    inner: r2d2::Pool<r2d2_postgres::PostgresConnectionManager<postgres::NoTls>>,
}

/// A pool of TLS-negotiating connections to the extended-protocol
/// relational backend.
#[verifier::external_body]
pub struct PgTlsPool {
    inner: r2d2::Pool<
        r2d2_postgres::PostgresConnectionManager<postgres_openssl::MakeTlsConnector>,
    >,
}

/// A pool of connections to the OCI-style relational backend.
#[verifier::external_body]
pub struct OraclePool {
    inner: r2d2::Pool<r2d2_oracle::OracleConnectionManager>,
}

// ---------------------------------------------------------------------------
// Names for values only the client crates can compute.
// ---------------------------------------------------------------------------

/// The fixed connection bound a sqlite pool was built with.
pub uninterp spec fn sqlite_pool_bound(p: SqlitePool) -> u32;

/// The fixed connection bound a MySQL pool was built with.
pub uninterp spec fn mysql_pool_bound(p: MySqlPool) -> u32;

/// The fixed connection bound a plaintext Postgres pool was built with.
pub uninterp spec fn pg_notls_pool_bound(p: PgNoTlsPool) -> u32;

/// The fixed connection bound a TLS Postgres pool was built with.
pub uninterp spec fn pg_tls_pool_bound(p: PgTlsPool) -> u32;

/// The fixed connection bound an Oracle pool was built with.
pub uninterp spec fn oracle_pool_bound(p: OraclePool) -> u32;

/// What percent-decoding yields on a string.
pub uninterp spec fn decoded_of(s: Seq<char>) -> Seq<char>;

/// Whether percent-decoding succeeds on a string: decoding is a pure
/// function of the characters alone, and it fails exactly when the decoded
/// bytes are not valid text.
pub uninterp spec fn decode_ok(s: Seq<char>) -> bool;

// ---------------------------------------------------------------------------
// Cloning pool handles: r2d2's `impl Clone for Pool` returns a new handle
// referencing the same shared pool state.
// ---------------------------------------------------------------------------

/// Relies on r2d2's `impl Clone for Pool`.
#[verifier::external_body]
pub(crate) fn clone_sqlite_pool(p: &SqlitePool) -> (r: SqlitePool)
    ensures
        r == *p,
{
    SqlitePool { inner: p.inner.clone() }
}

/// Relies on r2d2's `impl Clone for Pool`.
#[verifier::external_body]
pub(crate) fn clone_mysql_pool(p: &MySqlPool) -> (r: MySqlPool)
    ensures
        r == *p,
{
    MySqlPool { inner: p.inner.clone() }
}

/// Relies on r2d2's `impl Clone for Pool`.
#[verifier::external_body]
pub(crate) fn clone_pg_notls_pool(p: &PgNoTlsPool) -> (r: PgNoTlsPool)
    ensures
        r == *p,
{
    PgNoTlsPool { inner: p.inner.clone() }
}

/// Relies on r2d2's `impl Clone for Pool`.
#[verifier::external_body]
pub(crate) fn clone_pg_tls_pool(p: &PgTlsPool) -> (r: PgTlsPool)
    ensures
        r == *p,
{
    PgTlsPool { inner: p.inner.clone() }
}

/// Relies on r2d2's `impl Clone for Pool`.
#[verifier::external_body]
pub(crate) fn clone_oracle_pool(p: &OraclePool) -> (r: OraclePool)
    ensures
        r == *p,
{
    OraclePool { inner: p.inner.clone() }
}

// ---------------------------------------------------------------------------
// Pool construction and checkout.
// ---------------------------------------------------------------------------

/// Relies on `urlencoding::decode`: replaces every percent-escape by the
/// byte it names. The result, and whether decoding succeeds at all, depend
/// on the characters alone; it fails exactly when the decoded bytes are not
/// valid text.
#[verifier::external_body]
pub(crate) fn percent_decode(s: &str) -> (r: Result<String, String>)
    ensures
        r is Ok <==> decode_ok(s@),
        r matches Ok(d) ==> d@ == decoded_of(s@),
{
    match urlencoding::decode(s) {
        Ok(d) => Ok(d.into_owned()),
        Err(e) => Err(e.to_string()),
    }
}

/// Relies on `SqliteConnectionManager::file` and r2d2's builder: opens (or
/// creates) the database file at `path` for each pooled connection, and
/// eagerly establishes and validates the initial connections, waiting at
/// most the connection timeout. The resulting pool's connection bound is
/// the requested `max_size` (`Pool::max_size` returns the configured bound).
#[verifier::external_body]
pub(crate) fn build_sqlite_pool(path: &str, s: &BuilderSettings) -> (r: Result<SqlitePool, String>)
    requires
        s.max_size >= 1,
        s.idle_timeout_ms matches Some(v) ==> v >= 1,
        s.max_lifetime_ms matches Some(v) ==> v >= 1,
        s.connection_timeout_ms >= 1,
    ensures
        r matches Ok(p) ==> sqlite_pool_bound(p) == s.max_size,
{
    let manager = r2d2_sqlite::SqliteConnectionManager::file(path);
    let pool = r2d2::Pool::builder().max_size(s.max_size).idle_timeout(
        s.idle_timeout_ms.map(std::time::Duration::from_millis),
    ).max_lifetime(s.max_lifetime_ms.map(std::time::Duration::from_millis)).connection_timeout(
        std::time::Duration::from_millis(s.connection_timeout_ms),
    ).test_on_check_out(s.test_on_check_out).build(manager).map_err(|e| e.to_string())?;
    Ok(SqlitePool { inner: pool })
}

/// Relies on `Pool::max_size`: returns the configured connection bound.
#[verifier::external_body]
pub fn sqlite_pool_max_size(p: &SqlitePool) -> (r: u32)
    ensures
        r == sqlite_pool_bound(*p),
{
    p.inner.max_size()
}

/// Relies on `mysql::Opts::from_url` (parses the connection URL) and
/// r2d2's builder, which eagerly validates the initial connections; the
/// resulting pool's connection bound is the requested `max_size`.
#[verifier::external_body]
pub(crate) fn build_mysql_pool(conn: &str, s: &BuilderSettings) -> (r: Result<MySqlPool, String>)
    requires
        s.max_size >= 1,
        s.idle_timeout_ms matches Some(v) ==> v >= 1,
        s.max_lifetime_ms matches Some(v) ==> v >= 1,
        s.connection_timeout_ms >= 1,
    ensures
        r matches Ok(p) ==> mysql_pool_bound(p) == s.max_size,
{
    let opts = r2d2_mysql::mysql::Opts::from_url(conn).map_err(|e| e.to_string())?;
    let manager = r2d2_mysql::MySqlConnectionManager::new(
        r2d2_mysql::mysql::OptsBuilder::from_opts(opts),
    );
    let pool = r2d2::Pool::builder().max_size(s.max_size).idle_timeout(
        s.idle_timeout_ms.map(std::time::Duration::from_millis),
    ).max_lifetime(s.max_lifetime_ms.map(std::time::Duration::from_millis)).connection_timeout(
        std::time::Duration::from_millis(s.connection_timeout_ms),
    ).test_on_check_out(s.test_on_check_out).build(manager).map_err(|e| e.to_string())?;
    Ok(MySqlPool { inner: pool })
}

/// Relies on `postgres::Config`'s string parsing (URL or key-value form)
/// and r2d2's builder, which eagerly validates the initial connections; the
/// resulting pool's connection bound is the requested `max_size`.
#[verifier::external_body]
pub(crate) fn build_postgres_notls_pool(conn: &str, s: &BuilderSettings) -> (r: Result<
    PgNoTlsPool,
    String,
>)
    requires
        s.max_size >= 1,
        s.idle_timeout_ms matches Some(v) ==> v >= 1,
        s.max_lifetime_ms matches Some(v) ==> v >= 1,
        s.connection_timeout_ms >= 1,
    ensures
        r matches Ok(p) ==> pg_notls_pool_bound(p) == s.max_size,
{
    let config: postgres::Config = conn.parse().map_err(|e: postgres::Error| e.to_string())?;
    let manager = r2d2_postgres::PostgresConnectionManager::new(config, postgres::NoTls);
    let pool = r2d2::Pool::builder().max_size(s.max_size).idle_timeout(
        s.idle_timeout_ms.map(std::time::Duration::from_millis),
    ).max_lifetime(s.max_lifetime_ms.map(std::time::Duration::from_millis)).connection_timeout(
        std::time::Duration::from_millis(s.connection_timeout_ms),
    ).test_on_check_out(s.test_on_check_out).build(manager).map_err(|e| e.to_string())?;
    Ok(PgNoTlsPool { inner: pool })
}

/// Relies on openssl's `SslConnector` and `MakeTlsConnector::new`: a TLS
/// connector with the process defaults, for descriptors that request TLS.
#[verifier::external_body]
pub(crate) fn make_tls_connector() -> (r: Result<postgres_openssl::MakeTlsConnector, String>) {
    let builder = openssl::ssl::SslConnector::builder(openssl::ssl::SslMethod::tls()).map_err(
        |e| e.to_string(),
    )?;
    Ok(postgres_openssl::MakeTlsConnector::new(builder.build()))
}

/// Relies on `postgres::Config`'s string parsing and r2d2's builder, as the
/// non-TLS variant, with the given TLS connector negotiating each
/// connection; the resulting pool's connection bound is the requested
/// `max_size`.
#[verifier::external_body]
pub(crate) fn build_postgres_tls_pool(
    conn: &str,
    tls: postgres_openssl::MakeTlsConnector,
    s: &BuilderSettings,
) -> (r: Result<PgTlsPool, String>)
    requires
        s.max_size >= 1,
        s.idle_timeout_ms matches Some(v) ==> v >= 1,
        s.max_lifetime_ms matches Some(v) ==> v >= 1,
        s.connection_timeout_ms >= 1,
    ensures
        r matches Ok(p) ==> pg_tls_pool_bound(p) == s.max_size,
{
    let config: postgres::Config = conn.parse().map_err(|e: postgres::Error| e.to_string())?;
    let manager = r2d2_postgres::PostgresConnectionManager::new(config, tls);
    let pool = r2d2::Pool::builder().max_size(s.max_size).idle_timeout(
        s.idle_timeout_ms.map(std::time::Duration::from_millis),
    ).max_lifetime(s.max_lifetime_ms.map(std::time::Duration::from_millis)).connection_timeout(
        std::time::Duration::from_millis(s.connection_timeout_ms),
    ).test_on_check_out(s.test_on_check_out).build(manager).map_err(|e| e.to_string())?;
    Ok(PgTlsPool { inner: pool })
}

/// Relies on `OracleConnectionManager::new` (stores the credentials and
/// connect string) and r2d2's builder, which eagerly validates the initial
/// connections; the resulting pool's connection bound is the requested
/// `max_size`.
#[verifier::external_body]
pub(crate) fn build_oracle_pool(
    username: &str,
    password: &str,
    connect_string: &str,
    s: &BuilderSettings,
) -> (r: Result<OraclePool, String>)
    requires
        s.max_size >= 1,
        s.idle_timeout_ms matches Some(v) ==> v >= 1,
        s.max_lifetime_ms matches Some(v) ==> v >= 1,
        s.connection_timeout_ms >= 1,
    ensures
        r matches Ok(p) ==> oracle_pool_bound(p) == s.max_size,
{
    let manager = r2d2_oracle::OracleConnectionManager::new(username, password, connect_string);
    let pool = r2d2::Pool::builder().max_size(s.max_size).idle_timeout(
        s.idle_timeout_ms.map(std::time::Duration::from_millis),
    ).max_lifetime(s.max_lifetime_ms.map(std::time::Duration::from_millis)).connection_timeout(
        std::time::Duration::from_millis(s.connection_timeout_ms),
    ).test_on_check_out(s.test_on_check_out).build(manager).map_err(|e| e.to_string())?;
    Ok(OraclePool { inner: pool })
}

/// Relies on `Pool::get`: checks a connection out, waiting at most the
/// pool's connection timeout before failing.
#[verifier::external_body]
pub fn sqlite_checkout(pool: &SqlitePool) -> (r: Result<SqlitePooledConn, String>) {
    match pool.inner.get() {
        Ok(c) => Ok(SqlitePooledConn { inner: c }),
        Err(e) => Err(e.to_string()),
    }
}

// ---------------------------------------------------------------------------
// Query execution on the embedded relational backend.
// ---------------------------------------------------------------------------

/// Relies on `PooledConnection`'s deref to the managed connection.
#[verifier::external_body]
pub(crate) fn sqlite_conn<'a>(pooled: &'a SqlitePooledConn) -> (r:
    &'a r2d2_sqlite::rusqlite::Connection) {
    &*pooled.inner
}

/// Relies on `rusqlite::Connection::open`: opens (or creates) the database
/// file at `path` as an ephemeral, unpooled connection.
#[verifier::external_body]
pub(crate) fn sqlite_open(path: &str) -> (r: Result<r2d2_sqlite::rusqlite::Connection, String>) {
    r2d2_sqlite::rusqlite::Connection::open(path).map_err(|e| e.to_string())
}

/// Relies on `rusqlite::Connection::execute_batch`: runs the statement(s)
/// to completion, returning any backend-reported failure.
#[verifier::external_body]
pub(crate) fn sqlite_execute(conn: &r2d2_sqlite::rusqlite::Connection, sql: &str) -> (r: Result<
    (),
    String,
>) {
    conn.execute_batch(sql).map_err(|e| e.to_string())
}

/// Relies on `rusqlite`'s value representation: one backend-native value,
/// carried over into the transport's logical types. Floating point values
/// have no destination representation and come out `Unsupported`.
#[verifier::external_body]
pub(crate) fn cell_from(v: r2d2_sqlite::rusqlite::types::ValueRef<'_>) -> (r: TypedCell) {
    match v {
        r2d2_sqlite::rusqlite::types::ValueRef::Null => TypedCell::Null,
        r2d2_sqlite::rusqlite::types::ValueRef::Integer(i) => TypedCell::I64(i),
        r2d2_sqlite::rusqlite::types::ValueRef::Real(_) => TypedCell::Unsupported,
        r2d2_sqlite::rusqlite::types::ValueRef::Text(t) => TypedCell::Text(
            String::from_utf8_lossy(t).into_owned(),
        ),
        r2d2_sqlite::rusqlite::types::ValueRef::Blob(b) => TypedCell::Bytes(b.to_vec()),
    }
}

/// Relies on `rusqlite`'s `prepare`, `column_count`, `query`, `Rows::next`
/// and `Row::get_ref` to stream the statement's full result. Every returned
/// row has exactly the statement's column count, in the order the backend
/// produced the rows.
#[verifier::external_body]
pub(crate) fn sqlite_fetch(conn: &r2d2_sqlite::rusqlite::Connection, sql: &str) -> (r: Result<
    RawPartition,
    String,
>)
    ensures
        r matches Ok(rp) ==> rp.wf(),
{
    let work = || -> Result<RawPartition, r2d2_sqlite::rusqlite::Error> {
        let mut stmt = conn.prepare(sql)?;
        let ncols = stmt.column_count();
        let mut fetched: Vec<Vec<TypedCell>> = Vec::new();
        let mut rows = stmt.query([])?;
        while let Some(row) = rows.next()? {
            let mut cells: Vec<TypedCell> = Vec::with_capacity(ncols);
            for c in 0..ncols {
                cells.push(cell_from(row.get_ref(c)?));
            }
            fetched.push(cells);
        }
        Ok(RawPartition { ncols, rows: fetched })
    };
    work().map_err(|e| e.to_string())
}

} // verus!
