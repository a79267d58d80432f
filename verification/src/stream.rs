//! The streaming variant of extraction: a lazy, finite, single-pass
//! sequence of destination batches.
//!
//! A `RecordBatchStream` holds the not-yet-executed partitions and a buffer
//! of converted rows. Each `next_batch` call executes just enough partitions
//! to fill one batch, then hands out at most `batch_size` rows, in the same
//! partition-index order the eager extraction uses. Any failure aborts the
//! stream: no partial batch is handed out as if the extraction had
//! succeeded.

use vstd::prelude::*;

use crate::db::{sqlite_checkout, sqlite_conn, sqlite_open};
use crate::destination::{spec_rows_view, ResultSet};
use crate::dispatch::run_partition;
use crate::errors::ConnectorError;
use crate::pool::{spec_sqlite_conn_ok, sqlite_path, PoolVariant};
use crate::router::{
    executable, select_source, spec_executable, spec_pool_tag_of, spec_select, PoolTag,
    SourceDescriptor,
};
use crate::value::{convert_row, DestValue};

verus! {

/// Removes and returns the first `min(k, len)` rows of `buffer`.
#[verifier::loop_isolation(false)]
fn take_rows(buffer: &mut Vec<Vec<DestValue>>, k: usize) -> (out: Vec<Vec<DestValue>>)
    ensures
        out@.len() == (if k <= old(buffer)@.len() {
            k as int
        } else {
            old(buffer)@.len() as int
        }),
        out@ + final(buffer)@ == old(buffer)@,
{
    let ghost orig = buffer@;
    let take = if k <= buffer.len() {
        k
    } else {
        buffer.len()
    };
    let mut out: Vec<Vec<DestValue>> = Vec::new();
    let mut i: usize = 0;
    proof {
        assert(out@ + buffer@ =~= orig);
    }
    while i < take
        invariant
            i <= take,
            take <= orig.len(),
            out@.len() == i,
            out@ + buffer@ == orig,
        decreases take - i,
    {
        let row = buffer.remove(0);
        out.push(row);
        proof {
            assert(out@ + buffer@ =~= orig);
        }
        i = i + 1;
    }
    out
}

/// A lazy, finite, single-pass stream of extraction batches.
pub struct RecordBatchStream {
    path: String,
    pool: Option<PoolVariant>,
    pre_execution_queries: Option<Vec<String>>,
    queries: Vec<String>,
    next_partition: usize,
    ncols: usize,
    started: bool,
    buffer: Vec<Vec<DestValue>>,
    batch_size: usize,
}

impl RecordBatchStream {
    /// The batch size every non-final batch is cut to.
    pub closed spec fn spec_batch_size(self) -> usize {
        self.batch_size
    }

    /// How many partitions have not been executed yet.
    pub closed spec fn spec_pending(self) -> nat {
        self.queries@.len()
    }

    /// How many converted rows are buffered but not yet handed out.
    pub closed spec fn spec_buffered(self) -> nat {
        self.buffer@.len()
    }

    /// The buffered rows, oldest first.
    pub closed spec fn spec_buffer(self) -> Seq<Seq<DestValue>> {
        spec_rows_view(self.buffer@)
    }

    /// Nothing left: every partition ran and every row was handed out.
    pub open spec fn spec_exhausted(self) -> bool {
        self.spec_pending() == 0 && self.spec_buffered() == 0
    }

    /// The stream's internal consistency: a positive batch size, a pool of
    /// the right tag if one is held, and every buffered row as wide as the
    /// first partition said.
    pub closed spec fn wf(self) -> bool {
        &&& self.batch_size >= 1
        &&& self.next_partition + self.queries@.len() <= usize::MAX
        &&& (self.pool matches Some(v) ==> v.tag() == PoolTag::SQLite)
        &&& forall|j: int|
            0 <= j < self.buffer@.len() ==> (#[trigger] self.buffer@[j])@.len() == self.ncols
        &&& (!self.started ==> self.buffer@.len() == 0)
    }
}

/// Opens a stream over the partitions of one extraction. The descriptor is
/// validated against the selection matrix exactly as the eager extraction
/// does; nothing is executed until the first `next_batch` call.
pub fn new_record_batch_iter(
    source_conn: &SourceDescriptor,
    queries: Vec<String>,
    batch_size: usize,
    pre_execution_queries: Option<Vec<String>>,
    pool: Option<&PoolVariant>,
) -> (r: Result<RecordBatchStream, ConnectorError>)
    requires
        batch_size >= 1,
        pool matches Some(v) ==> spec_pool_tag_of(source_conn.ty, source_conn.tls) == Some(
            v.tag(),
        ),
    ensures
        spec_select(source_conn.ty, source_conn.proto) is None ==> r == Err::<
            RecordBatchStream,
            ConnectorError,
        >(
            ConnectorError::UnsupportedBackend {
                backend: source_conn.ty,
                protocol: source_conn.proto,
            },
        ),
        (spec_select(source_conn.ty, source_conn.proto) matches Some(k) && !spec_executable(k))
            ==> r == Err::<RecordBatchStream, ConnectorError>(
            ConnectorError::UnsupportedBackend {
                backend: source_conn.ty,
                protocol: source_conn.proto,
            },
        ),
        r matches Ok(s) ==> s.wf() && s.spec_batch_size() == batch_size && s.spec_pending()
            == queries@.len() && s.spec_buffered() == 0,
        r is Ok <==> (spec_select(source_conn.ty, source_conn.proto) matches Some(k)
            && spec_executable(k) && spec_sqlite_conn_ok(source_conn.conn@)),
        (spec_select(source_conn.ty, source_conn.proto) matches Some(k) && spec_executable(k)
            && !spec_sqlite_conn_ok(source_conn.conn@)) ==> (r matches Err(e) && e
            is InvalidConnectionString),
        r matches Err(e) ==> (e is InvalidConnectionString ==> (source_conn.ty is SQLite
            && !spec_sqlite_conn_ok(source_conn.conn@))),
        r matches Err(e) ==> (e is UnsupportedBackend ==> !(spec_select(
            source_conn.ty,
            source_conn.proto,
        ) matches Some(k)
            && spec_executable(k))),
        r matches Err(e) ==> (e is UnsupportedBackend || e is InvalidConnectionString),
{
    let kind = match select_source(source_conn.ty, source_conn.proto) {
        Ok(k) => k,
        Err(e) => {
            return Err(e);
        },
    };
    if !executable(kind) {
        return Err(
            ConnectorError::UnsupportedBackend {
                backend: source_conn.ty,
                protocol: source_conn.proto,
            },
        );
    }
    proof {
        assert(source_conn.ty is SQLite);
    }
    let path = match sqlite_path(source_conn.conn.as_str()) {
        Ok(p) => p,
        Err(e) => {
            return Err(e);
        },
    };
    let _nq = queries.len();
    proof {
        assert(_nq == queries@.len());
        assert(queries@.len() <= usize::MAX);
    }
    let own_pool: Option<PoolVariant> = match pool {
        Some(v) => Some(v.duplicate()),
        None => None,
    };
    Ok(
        RecordBatchStream {
            path,
            pool: own_pool,
            pre_execution_queries,
            queries,
            next_partition: 0,
            ncols: 0,
            started: false,
            buffer: Vec::new(),
            batch_size,
        },
    )
}

impl RecordBatchStream {
    /// Executes partitions until one batch can be cut, and hands it out:
    /// at most `batch_size` rows, never an empty batch. `Ok(None)` means the
    /// stream is exhausted. Any error — acquiring a connection, running a
    /// partition, a value without a destination representation, or a
    /// partition disagreeing with the first one's column count — aborts the
    /// stream: afterwards it is exhausted and hands out nothing more.
    #[verifier::loop_isolation(false)]
    pub fn next_batch(&mut self) -> (r: Result<Option<ResultSet>, ConnectorError>)
        requires
            old(self).wf(),
        ensures
            final(self).wf(),
            final(self).spec_batch_size() == old(self).spec_batch_size(),
            r matches Ok(Some(b)) ==> b.wf() && 1 <= b.view_rows().len() <= old(
                self,
            ).spec_batch_size(),
            r matches Ok(None) ==> final(self).spec_exhausted(),
            r is Err ==> final(self).spec_exhausted(),
            old(self).spec_exhausted() ==> r == Ok::<Option<ResultSet>, ConnectorError>(None),
            r matches Err(e) ==> (e is ConnectionAcquire || e is QueryExecution || e is Conversion
                || e is SchemaMismatch),
            old(self).spec_buffered() >= old(self).spec_batch_size() ==> {
                &&& r matches Ok(Some(b)) && b.view_rows() == old(self).spec_buffer().take(
                    old(self).spec_batch_size() as int,
                )
                &&& final(self).spec_buffer() == old(self).spec_buffer().skip(
                    old(self).spec_batch_size() as int,
                )
            },
    {
        if self.queries.len() == 0 && self.buffer.len() == 0 {
            return Ok(None);
        }
        if self.buffer.len() < self.batch_size {
            // Refill: run partitions until a batch is buffered or none remain.
            while self.buffer.len() < self.batch_size && self.queries.len() > 0
                invariant
                    self.wf(),
                    self.batch_size == old(self).batch_size,
                decreases self.queries@.len(),
            {
                let query = self.queries.remove(0);
                let partition = self.next_partition;
                self.next_partition = self.next_partition + 1;
                let pool_local: Option<PoolVariant> = match &self.pool {
                    Some(v) => Some(v.duplicate()),
                    None => None,
                };
                let fetched = match &pool_local {
                    Some(v) => {
                        proof {
                            assert(*v == self.pool->Some_0);
                            assert(v is SQLite);
                        }
                        let sp = v.sqlite_pool();
                        let pc = match sqlite_checkout(&sp) {
                            Ok(c) => c,
                            Err(m) => {
                                self.abort();
                                return Err(ConnectorError::ConnectionAcquire(m));
                            },
                        };
                        let conn = sqlite_conn(&pc);
                        match run_partition(
                            conn,
                            self.pre_execution_queries.as_ref(),
                            query.as_str(),
                            partition,
                        ) {
                            Ok(rp) => rp,
                            Err(e) => {
                                self.abort();
                                return Err(e);
                            },
                        }
                    },
                    None => {
                        let conn = match sqlite_open(self.path.as_str()) {
                            Ok(c) => c,
                            Err(m) => {
                                self.abort();
                                return Err(ConnectorError::ConnectionAcquire(m));
                            },
                        };
                        match run_partition(
                            &conn,
                            self.pre_execution_queries.as_ref(),
                            query.as_str(),
                            partition,
                        ) {
                            Ok(rp) => rp,
                            Err(e) => {
                                self.abort();
                                return Err(e);
                            },
                        }
                    },
                };
                if !self.started {
                    self.ncols = fetched.ncols;
                    self.started = true;
                } else if fetched.ncols != self.ncols {
                    let expected = self.ncols;
                    let found = fetched.ncols;
                    self.abort();
                    return Err(ConnectorError::SchemaMismatch { partition, expected, found });
                }
                let mut rows = fetched.rows;
                let ghost rows_orig = rows@;
                let nrows = rows.len();
                let ghost fncols = fetched.ncols;
                let ghost queries_now = self.queries@;
                let mut k: usize = 0;
                while k < nrows
                    invariant
                        k <= nrows,
                        rows@ == rows_orig.subrange(k as int, nrows as int),
                        nrows == rows_orig.len(),
                        forall|j: int|
                            0 <= j < rows_orig.len() ==> (#[trigger] rows_orig[j])@.len() == fncols,
                        self.ncols == fncols,
                        self.started,
                        self.queries@ == queries_now,
                        self.wf(),
                        self.batch_size == old(self).batch_size,
                    decreases nrows - k,
                {
                    let row = rows.remove(0);
                    proof {
                        assert(row == rows_orig[k as int]);
                        assert(rows@ =~= rows_orig.subrange(k + 1, nrows as int));
                    }
                    match convert_row(row) {
                        Ok(vals) => {
                            self.buffer.push(vals);
                        },
                        Err(column) => {
                            self.abort();
                            return Err(
                                ConnectorError::Conversion { partition, row: k, column },
                            );
                        },
                    }
                    k = k + 1;
                }
            }
        }
        if self.buffer.len() == 0 {
            return Ok(None);
        }
        let ghost buf_pre = self.buffer@;
        let rows = take_rows(&mut self.buffer, self.batch_size);
        proof {
            assert(rows@ =~= buf_pre.take(rows@.len() as int));
            assert(self.buffer@ =~= buf_pre.skip(rows@.len() as int));
            assert(spec_rows_view(rows@) =~= spec_rows_view(buf_pre).take(rows@.len() as int));
            assert(spec_rows_view(self.buffer@) =~= spec_rows_view(buf_pre).skip(
                rows@.len() as int,
            ));
        }
        proof {
            assert forall|j: int| 0 <= j < rows@.len() implies (#[trigger] rows@[j])@.len()
                == self.ncols by {
                assert(rows@[j] == (rows@ + self.buffer@)[j]);
            }
            assert forall|j: int|
                0 <= j < self.buffer@.len() implies (#[trigger] self.buffer@[j])@.len()
                == self.ncols by {
                assert(self.buffer@[j] == (rows@ + self.buffer@)[rows@.len() + j]);
            }
        }
        Ok(Some(ResultSet { ncols: self.ncols, rows }))
    }

    /// Drops everything pending: the stream is exhausted afterwards.
    fn abort(&mut self)
        ensures
            final(self).spec_exhausted(),
            final(self).spec_batch_size() == old(self).spec_batch_size(),
            old(self).wf() ==> final(self).wf(),
    {
        self.queries.clear();
        self.buffer.clear();
    }
}

} // verus!
