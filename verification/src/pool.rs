//! The pool variant and the lifecycle-guarded pool handle.
//!
//! `PoolVariant` is a closed, backend-tagged union of live connection pools:
//! exactly one tag is populated, the tag is determined solely by the
//! descriptor the variant was built from, and it never changes afterwards.
//! The typed accessors must only be called when the caller already knows,
//! from that same descriptor, which tag the variant holds; calling the wrong
//! accessor is a programming defect and aborts instead of returning wrong
//! data.

use vstd::prelude::*;
use vstd::pervasive::unreached;
use vstd::string::*;

use crate::config::{configure_builder, spec_settings_of, PoolConfig};
use crate::db::{
    build_mysql_pool, build_oracle_pool, build_postgres_notls_pool, build_postgres_tls_pool,
    build_sqlite_pool, clone_mysql_pool, clone_oracle_pool, clone_pg_notls_pool,
    clone_pg_tls_pool, clone_sqlite_pool, decode_ok, decoded_of, make_tls_connector,
    mysql_pool_bound, oracle_pool_bound, percent_decode, pg_notls_pool_bound, pg_tls_pool_bound,
    sqlite_pool_bound, MySqlPool, OraclePool, PgNoTlsPool, PgTlsPool, SqlitePool,
};
use crate::errors::ConnectorError;
use crate::router::{spec_pool_tag_of, spec_supports_pooling, PoolTag, SourceDescriptor, SourceType};

verus! {

/// A configuration a pool can actually be built with: the pool builder
/// rejects a zero size and zero timeouts.
pub open spec fn spec_config_valid(c: PoolConfig) -> bool {
    &&& c.max_size >= 1
    &&& c.connection_timeout_ms >= 1
    &&& (c.idle_timeout_ms matches Some(v) ==> v >= 1)
    &&& (c.max_lifetime_ms matches Some(v) ==> v >= 1)
}

/// A connection string of the embedded backend: the scheme prefix
/// `sqlite://` followed by the (percent-encoded) database path.
pub open spec fn spec_sqlite_prefixed(s: Seq<char>) -> bool {
    &&& s.len() >= 9
    &&& s[0] == 's'
    &&& s[1] == 'q'
    &&& s[2] == 'l'
    &&& s[3] == 'i'
    &&& s[4] == 't'
    &&& s[5] == 'e'
    &&& s[6] == ':'
    &&& s[7] == '/'
    &&& s[8] == '/'
}

/// A sqlite connection string the engine can use: the scheme prefix is
/// there and the path after it percent-decodes.
pub open spec fn spec_sqlite_conn_ok(s: Seq<char>) -> bool {
    spec_sqlite_prefixed(s) && decode_ok(s.subrange(9, s.len() as int))
}

/// Strips the `sqlite://` scheme prefix and percent-decodes the remainder,
/// yielding the database path. A string without the prefix, or whose path
/// does not decode, is rejected as an invalid connection string.
pub fn sqlite_path(conn: &str) -> (r: Result<String, ConnectorError>)
    ensures
        r is Ok <==> spec_sqlite_conn_ok(conn@),
        r matches Ok(p) ==> p@ == decoded_of(conn@.subrange(9, conn@.len() as int)),
        r matches Err(e) ==> e is InvalidConnectionString,
{
    let n = conn.unicode_len();
    if n < 9 || conn.get_char(0) != 's' || conn.get_char(1) != 'q' || conn.get_char(2) != 'l'
        || conn.get_char(3) != 'i' || conn.get_char(4) != 't' || conn.get_char(5) != 'e'
        || conn.get_char(6) != ':' || conn.get_char(7) != '/' || conn.get_char(8) != '/' {
        return Err(
            ConnectorError::InvalidConnectionString(
                "the connection string does not start with the sqlite:// scheme".to_owned(),
            ),
        );
    }
    let path = conn.substring_char(9, n);
    match percent_decode(path) {
        Ok(d) => Ok(d),
        Err(m) => Err(ConnectorError::InvalidConnectionString(m)),
    }
}

/// A closed, backend-tagged union of live connection pools.
pub enum PoolVariant {
    MySQL(MySqlPool),
    PostgresNoTls(PgNoTlsPool),
    PostgresTls(PgTlsPool),
    SQLite(SqlitePool),
    Oracle(OraclePool),
}

impl PoolVariant {
    /// Which tag this variant holds.
    pub open spec fn tag(self) -> PoolTag {
        match self {
            PoolVariant::MySQL(_) => PoolTag::MySQL,
            PoolVariant::PostgresNoTls(_) => PoolTag::PostgresNoTls,
            PoolVariant::PostgresTls(_) => PoolTag::PostgresTls,
            PoolVariant::SQLite(_) => PoolTag::SQLite,
            PoolVariant::Oracle(_) => PoolTag::Oracle,
        }
    }

    /// The tag's name, for diagnostics.
    pub open spec fn spec_variant_name(t: PoolTag) -> Seq<char> {
        match t {
            PoolTag::MySQL => "MySQL"@,
            PoolTag::PostgresNoTls => "PostgresNoTls"@,
            PoolTag::PostgresTls => "PostgresTls"@,
            PoolTag::SQLite => "SQLite"@,
            PoolTag::Oracle => "Oracle"@,
        }
    }

    /// Names the held tag.
    pub fn variant_name(&self) -> (r: &'static str)
        ensures
            r@ == PoolVariant::spec_variant_name(self.tag()),
    {
        match self {
            PoolVariant::MySQL(_) => "MySQL",
            PoolVariant::PostgresNoTls(_) => "PostgresNoTls",
            PoolVariant::PostgresTls(_) => "PostgresTls",
            PoolVariant::SQLite(_) => "SQLite",
            PoolVariant::Oracle(_) => "Oracle",
        }
    }

    /// A second handle to the same pool: the underlying pools are
    /// reference-counted and shared, so this is cheap.
    pub fn duplicate(&self) -> (r: Self)
        ensures
            r == *self,
    {
        match self {
            PoolVariant::MySQL(p) => PoolVariant::MySQL(clone_mysql_pool(p)),
            PoolVariant::PostgresNoTls(p) => PoolVariant::PostgresNoTls(clone_pg_notls_pool(p)),
            PoolVariant::PostgresTls(p) => PoolVariant::PostgresTls(clone_pg_tls_pool(p)),
            PoolVariant::SQLite(p) => PoolVariant::SQLite(clone_sqlite_pool(p)),
            PoolVariant::Oracle(p) => PoolVariant::Oracle(clone_oracle_pool(p)),
        }
    }

    /// Builds the pool a descriptor calls for, `Ok(None)` for the backends
    /// that do not support pooling (pooling is an optimization there, not a
    /// requirement). The tag of a built pool is exactly the tag the
    /// descriptor determines; for the embedded backend the pool's connection
    /// bound is the configured `max_size`. Construction validates the
    /// initial connections eagerly, so an unreachable host or rejected
    /// authentication surfaces here as a pool-build error.
    pub fn from_source_conn(source_conn: &SourceDescriptor, config: &PoolConfig) -> (r: Result<
        Option<PoolVariant>,
        ConnectorError,
    >)
        requires
            spec_config_valid(*config),
        ensures
            r matches Ok(opt) ==> (opt is Some <==> spec_supports_pooling(source_conn.ty)),
            r matches Ok(Some(v)) ==> spec_pool_tag_of(source_conn.ty, source_conn.tls) == Some(
                v.tag(),
            ),
            r matches Ok(Some(PoolVariant::SQLite(p))) ==> sqlite_pool_bound(p)
                == spec_settings_of(*config).max_size,
            r matches Ok(Some(PoolVariant::MySQL(p))) ==> mysql_pool_bound(p)
                == spec_settings_of(*config).max_size,
            r matches Ok(Some(PoolVariant::PostgresNoTls(p))) ==> pg_notls_pool_bound(p)
                == spec_settings_of(*config).max_size,
            r matches Ok(Some(PoolVariant::PostgresTls(p))) ==> pg_tls_pool_bound(p)
                == spec_settings_of(*config).max_size,
            r matches Ok(Some(PoolVariant::Oracle(p))) ==> oracle_pool_bound(p)
                == spec_settings_of(*config).max_size,
            !spec_supports_pooling(source_conn.ty) ==> r == Ok::<
                Option<PoolVariant>,
                ConnectorError,
            >(None),
            r matches Err(e) ==> (e is PoolBuild || e is InvalidConnectionString),
            (source_conn.ty is SQLite && !spec_sqlite_conn_ok(source_conn.conn@)) ==> (r matches
            Err(e) && e is InvalidConnectionString),
            r matches Err(e) ==> (e is InvalidConnectionString ==> (source_conn.ty is SQLite
                && !spec_sqlite_conn_ok(source_conn.conn@))),
    {
        let settings = configure_builder(config);
        match source_conn.ty {
            SourceType::MySQL => match build_mysql_pool(source_conn.conn.as_str(), &settings) {
                Ok(p) => Ok(Some(PoolVariant::MySQL(p))),
                Err(m) => Err(ConnectorError::PoolBuild(m)),
            },
            SourceType::Postgres => {
                if source_conn.tls {
                    let tls = match make_tls_connector() {
                        Ok(t) => t,
                        Err(m) => {
                            return Err(ConnectorError::PoolBuild(m));
                        },
                    };
                    match build_postgres_tls_pool(source_conn.conn.as_str(), tls, &settings) {
                        Ok(p) => Ok(Some(PoolVariant::PostgresTls(p))),
                        Err(m) => Err(ConnectorError::PoolBuild(m)),
                    }
                } else {
                    match build_postgres_notls_pool(source_conn.conn.as_str(), &settings) {
                        Ok(p) => Ok(Some(PoolVariant::PostgresNoTls(p))),
                        Err(m) => Err(ConnectorError::PoolBuild(m)),
                    }
                }
            },
            SourceType::SQLite => {
                let path = match sqlite_path(source_conn.conn.as_str()) {
                    Ok(p) => p,
                    Err(e) => {
                        return Err(e);
                    },
                };
                match build_sqlite_pool(path.as_str(), &settings) {
                    Ok(p) => Ok(Some(PoolVariant::SQLite(p))),
                    Err(m) => Err(ConnectorError::PoolBuild(m)),
                }
            },
            SourceType::Oracle => {
                // The routing collaborator resolves credentials out of the
                // connection string; built from the bare descriptor, the
                // connect string stands alone and construction succeeds only
                // where it embeds authentication.
                let user = String::new();
                let password = String::new();
                match build_oracle_pool(
                    user.as_str(),
                    password.as_str(),
                    source_conn.conn.as_str(),
                    &settings,
                ) {
                    Ok(p) => Ok(Some(PoolVariant::Oracle(p))),
                    Err(m) => Err(ConnectorError::PoolBuild(m)),
                }
            },
            SourceType::MsSQL => Ok(None),
            SourceType::BigQuery => Ok(None),
            SourceType::Trino => Ok(None),
        }
    }

    /// Builds an OCI-backend pool from credentials the routing collaborator
    /// has already split out of the connection URL.
    pub fn oracle_pool_with_credentials(
        username: &str,
        password: &str,
        connect_string: &str,
        config: &PoolConfig,
    ) -> (r: Result<PoolVariant, ConnectorError>)
        requires
            spec_config_valid(*config),
        ensures
            r matches Ok(v) ==> v.tag() == PoolTag::Oracle,
            r matches Err(e) ==> e is PoolBuild,
    {
        let settings = configure_builder(config);
        match build_oracle_pool(username, password, connect_string, &settings) {
            Ok(p) => Ok(PoolVariant::Oracle(p)),
            Err(m) => Err(ConnectorError::PoolBuild(m)),
        }
    }

    /// The held MySQL pool. Must only be called when the descriptor that
    /// built this variant was a MySQL one; anything else is a programming
    /// defect and aborts.
    pub fn mysql_pool(&self) -> (r: MySqlPool)
        requires
            self is MySQL,
        ensures
            *self matches PoolVariant::MySQL(p) ==> r == p,
    {
        match self {
            PoolVariant::MySQL(p) => clone_mysql_pool(p),
            _ => unreached(),
        }
    }

    /// The held plaintext Postgres pool; aborts on any other tag.
    pub fn postgres_notls_pool(&self) -> (r: PgNoTlsPool)
        requires
            self is PostgresNoTls,
        ensures
            *self matches PoolVariant::PostgresNoTls(p) ==> r == p,
    {
        match self {
            PoolVariant::PostgresNoTls(p) => clone_pg_notls_pool(p),
            _ => unreached(),
        }
    }

    /// The held TLS Postgres pool; aborts on any other tag.
    pub fn postgres_tls_pool(&self) -> (r: PgTlsPool)
        requires
            self is PostgresTls,
        ensures
            *self matches PoolVariant::PostgresTls(p) ==> r == p,
    {
        match self {
            PoolVariant::PostgresTls(p) => clone_pg_tls_pool(p),
            _ => unreached(),
        }
    }

    /// The held sqlite pool; aborts on any other tag.
    pub fn sqlite_pool(&self) -> (r: SqlitePool)
        requires
            self is SQLite,
        ensures
            *self matches PoolVariant::SQLite(p) ==> r == p,
    {
        match self {
            PoolVariant::SQLite(p) => clone_sqlite_pool(p),
            _ => unreached(),
        }
    }

    /// The held Oracle pool; aborts on any other tag.
    pub fn oracle_pool(&self) -> (r: OraclePool)
        requires
            self is Oracle,
        ensures
            *self matches PoolVariant::Oracle(p) ==> r == p,
    {
        match self {
            PoolVariant::Oracle(p) => clone_oracle_pool(p),
            _ => unreached(),
        }
    }
}

/// Law: pool accessor safety.
///
/// A variant built for a descriptor holds exactly the tag that descriptor
/// determines, so the accessor the same descriptor selects is always
/// licensed: its precondition holds, and by its contract it returns the held
/// pool. Every other accessor's precondition is false for this variant, so
/// a wrong accessor cannot be reached from verified code at all — at run
/// time it aborts rather than returning wrong data.
pub proof fn lemma_pool_accessor_safety(v: PoolVariant, ty: SourceType, tls: bool)
    requires
        spec_pool_tag_of(ty, tls) == Some(v.tag()),
    ensures
        ty is SQLite ==> v is SQLite,
        ty is MySQL ==> v is MySQL,
        (ty is Postgres && tls) ==> v is PostgresTls,
        (ty is Postgres && !tls) ==> v is PostgresNoTls,
        ty is Oracle ==> v is Oracle,
{
}

/// A lifecycle-guarded pool handle: live until closed, and explicitly dead
/// afterwards. Closing is idempotent; a closed handle hands out no pool.
pub struct PyConnectionPool {
    pool: Option<PoolVariant>,
    pub conn_str: String,
    max_size: u32,
}

impl PyConnectionPool {
    /// The held pool, if the handle is still live.
    pub closed spec fn spec_pool(self) -> Option<PoolVariant> {
        self.pool
    }

    /// Whether the handle has been closed.
    pub open spec fn spec_is_closed(self) -> bool {
        self.spec_pool() is None
    }

    /// The configured connection bound.
    pub closed spec fn spec_max_size(self) -> u32 {
        self.max_size
    }

    /// The connection string the handle was built for.
    pub closed spec fn spec_conn_str(self) -> Seq<char> {
        self.conn_str@
    }

    /// Builds the pool for a descriptor and wraps it in a live handle.
    /// A backend without pooling support is reported as unsupported rather
    /// than silently handed an unpooled stand-in.
    pub fn new(source_conn: &SourceDescriptor, config: &PoolConfig) -> (r: Result<
        Self,
        ConnectorError,
    >)
        requires
            spec_config_valid(*config),
        ensures
            r matches Ok(h) ==> {
                &&& !h.spec_is_closed()
                &&& h.spec_pool() matches Some(v) && spec_pool_tag_of(
                    source_conn.ty,
                    source_conn.tls,
                ) == Some(v.tag())
                &&& h.spec_max_size() == config.max_size
                &&& h.spec_conn_str() == source_conn.conn@
            },
            !spec_supports_pooling(source_conn.ty) ==> (r matches Err(e) && e
                is UnsupportedBackend),
            r matches Err(e) ==> (e is UnsupportedBackend || e is PoolBuild
                || e is InvalidConnectionString),
            r matches Err(e) ==> (e is UnsupportedBackend ==> !spec_supports_pooling(
                source_conn.ty,
            )),
            (source_conn.ty is SQLite && !spec_sqlite_conn_ok(source_conn.conn@)) ==> (r matches
            Err(e) && e is InvalidConnectionString),
            r matches Err(e) ==> (e is InvalidConnectionString ==> (source_conn.ty is SQLite
                && !spec_sqlite_conn_ok(source_conn.conn@))),
    {
        match PoolVariant::from_source_conn(source_conn, config) {
            Ok(Some(v)) => Ok(
                PyConnectionPool {
                    pool: Some(v),
                    conn_str: source_conn.conn.clone(),
                    max_size: config.max_size,
                },
            ),
            Ok(None) => Err(
                ConnectorError::UnsupportedBackend {
                    backend: source_conn.ty,
                    protocol: source_conn.proto,
                },
            ),
            Err(e) => Err(e),
        }
    }

    /// Closes the handle, releasing the pool. Closing twice is a no-op.
    pub fn close(&mut self)
        ensures
            final(self).spec_is_closed(),
            final(self).spec_max_size() == old(self).spec_max_size(),
            final(self).spec_conn_str() == old(self).spec_conn_str(),
    {
        self.pool = None;
    }

    /// Whether the handle has been closed.
    pub fn is_closed(&self) -> (r: bool)
        ensures
            r == self.spec_is_closed(),
    {
        self.pool.is_none()
    }

    /// The configured connection bound.
    pub fn max_size(&self) -> (r: u32)
        ensures
            r == self.spec_max_size(),
    {
        self.max_size
    }

    /// A handle to the held pool: `Some` exactly while the handle is live,
    /// and then a second handle to the very pool this handle guards.
    pub fn get_pool_variant(&self) -> (r: Option<PoolVariant>)
        ensures
            r == self.spec_pool(),
    {
        match &self.pool {
            Some(v) => Some(v.duplicate()),
            None => None,
        }
    }
}

} // verus!
