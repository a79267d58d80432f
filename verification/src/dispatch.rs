//! The dispatch core: assembling per-partition row sets into the destination.
//!
//! `assemble` is the pure heart of an extraction. It takes the raw typed rows
//! every partition produced, allocates one destination region per partition,
//! converts each cell through the transport, writes it into the partition's
//! own region, and finalizes. Its contract pins the result down completely:
//! the output is exactly the cell-wise conversion of the partitions' rows,
//! concatenated in partition order, and the laws below state that this is
//! independent of how the rows were partitioned.

use vstd::prelude::*;
use vstd::seq_lib::*;

use crate::db::{sqlite_checkout, sqlite_conn, sqlite_execute, sqlite_fetch, sqlite_open};
use crate::destination::{spec_rows_view, Destination, ResultSet};
use crate::errors::ConnectorError;
use crate::pool::{spec_sqlite_conn_ok, sqlite_path, PoolVariant};
use crate::router::{
    executable, select_source, spec_executable, spec_pool_tag_of, spec_select, PoolTag,
    SourceDescriptor,
};
use crate::value::{convert_row, spec_convert, spec_row_conv, spec_row_ok, DestValue, TypedCell};

verus! {

/// The raw result of one partition's query: the column count the backend
/// reported and the fetched rows, every row `ncols` cells wide.
pub struct RawPartition {
    pub ncols: usize,
    pub rows: Vec<Vec<TypedCell>>,
}

impl RawPartition {
    /// Every row has exactly `ncols` cells.
    pub open spec fn wf(self) -> bool {
        forall|r: int| 0 <= r < self.rows@.len() ==> (#[trigger] self.rows@[r])@.len() == self.ncols
    }

    /// The rows as a sequence of row views.
    pub open spec fn view_rows(self) -> Seq<Seq<TypedCell>> {
        self.rows@.map_values(|v: Vec<TypedCell>| v@)
    }
}

/// The views of a vector of raw partitions: partition -> row -> cell.
pub open spec fn spec_parts_view(parts: Seq<RawPartition>) -> Seq<Seq<Seq<TypedCell>>> {
    parts.map_values(|rp: RawPartition| rp.view_rows())
}

/// The column counts the partitions report.
pub open spec fn spec_cols_view(parts: Seq<RawPartition>) -> Seq<usize> {
    parts.map_values(|rp: RawPartition| rp.ncols)
}

/// Every cell of every row of one partition converts.
pub open spec fn spec_part_ok(rows: Seq<Seq<TypedCell>>) -> bool {
    forall|r: int| 0 <= r < rows.len() ==> spec_row_ok(#[trigger] rows[r])
}

/// Every cell of every partition converts.
pub open spec fn spec_all_ok(parts: Seq<Seq<Seq<TypedCell>>>) -> bool {
    forall|p: int| 0 <= p < parts.len() ==> spec_part_ok(#[trigger] parts[p])
}

/// One partition's rows after cell-wise conversion.
pub open spec fn spec_part_conv(rows: Seq<Seq<TypedCell>>) -> Seq<Seq<DestValue>> {
    rows.map_values(|r: Seq<TypedCell>| spec_row_conv(r))
}

/// All partitions' rows after cell-wise conversion, partition by partition.
pub open spec fn spec_conv_parts(parts: Seq<Seq<Seq<TypedCell>>>) -> Seq<Seq<Seq<DestValue>>> {
    parts.map_values(|rows: Seq<Seq<TypedCell>>| spec_part_conv(rows))
}

/// What an extraction produces from partitioned rows: each partition
/// converted cell by cell, then concatenated in partition order.
pub open spec fn spec_extract_rows(parts: Seq<Seq<Seq<TypedCell>>>) -> Seq<Seq<DestValue>> {
    spec_conv_parts(parts).flatten()
}

/// All partitions report the same column count (vacuously true of none).
pub open spec fn spec_uniform_cols(ns: Seq<usize>) -> bool {
    forall|p: int| 0 <= p < ns.len() ==> #[trigger] ns[p] == ns[0]
}

/// Law: extraction is exactly the cell-wise conversion of the source rows.
///
/// The rows an extraction produces are the concatenation of the partitions'
/// rows, in partition order and row order, with every cell individually
/// converted: no row is dropped, duplicated or reordered, and every value
/// (null handling included) is reproduced exactly as the conversion table
/// says.
pub proof fn lemma_extraction_fidelity(parts: Seq<Seq<Seq<TypedCell>>>)
    ensures
        spec_extract_rows(parts) == spec_part_conv(parts.flatten()),
    decreases parts.len(),
{
    if parts.len() == 0 {
        assert(spec_conv_parts(parts) =~= Seq::<Seq<Seq<DestValue>>>::empty());
        assert(parts.flatten() =~= Seq::<Seq<TypedCell>>::empty());
        assert(spec_extract_rows(parts) =~= spec_part_conv(parts.flatten()));
    } else {
        let first = parts.first();
        let rest = parts.drop_first();
        lemma_extraction_fidelity(rest);
        assert(spec_conv_parts(parts).first() == spec_part_conv(first));
        assert(spec_conv_parts(parts).drop_first() =~= spec_conv_parts(rest));
        assert(spec_conv_parts(parts).flatten() == spec_part_conv(first) + spec_conv_parts(
            rest,
        ).flatten());
        assert(spec_part_conv(first + rest.flatten()) =~= spec_part_conv(first) + spec_part_conv(
            rest.flatten(),
        ));
        assert(spec_extract_rows(parts) =~= spec_part_conv(parts.flatten()));
    }
}

/// Law: partition independence.
///
/// Two partitionings of the same rows — however many partitions each uses —
/// produce exactly the same extracted rows.
pub proof fn lemma_partition_independence(
    a: Seq<Seq<Seq<TypedCell>>>,
    b: Seq<Seq<Seq<TypedCell>>>,
)
    requires
        a.flatten() == b.flatten(),
    ensures
        spec_extract_rows(a) == spec_extract_rows(b),
{
    lemma_extraction_fidelity(a);
    lemma_extraction_fidelity(b);
}

/// Converts and merges the partitions' raw rows into a finalized result.
///
/// Succeeds exactly when every cell converts and all partitions agree on the
/// column count; the result is then `spec_extract_rows` of the input. A cell
/// without a destination representation is reported as a conversion error
/// naming the first such cell in (partition, row, column) scan order; a
/// column-count disagreement is reported at finalization, naming the first
/// partition that differs from partition 0.
#[verifier::loop_isolation(false)]
pub fn assemble(parts: Vec<RawPartition>) -> (res: Result<ResultSet, ConnectorError>)
    requires
        forall|q: int| 0 <= q < parts@.len() ==> (#[trigger] parts@[q]).wf(),
    ensures
        res is Ok <==> spec_all_ok(spec_parts_view(parts@)) && spec_uniform_cols(
            spec_cols_view(parts@),
        ),
        res matches Ok(rs) ==> {
            &&& rs.wf()
            &&& rs.ncols == (if parts@.len() == 0 {
                0usize
            } else {
                spec_cols_view(parts@)[0]
            })
            &&& rs.view_rows() == spec_extract_rows(spec_parts_view(parts@))
        },
        res matches Err(e) ==> (e is Conversion || e is SchemaMismatch),
        res matches Err(ConnectorError::Conversion { partition, row, column }) ==> {
            let pv = spec_parts_view(parts@);
            &&& 0 <= partition < pv.len()
            &&& 0 <= row < pv[partition as int].len()
            &&& 0 <= column < pv[partition as int][row as int].len()
            &&& spec_convert(pv[partition as int][row as int][column as int]) is None
            &&& forall|q: int| 0 <= q < partition ==> spec_part_ok(#[trigger] pv[q])
            &&& forall|j: int|
                0 <= j < row ==> spec_row_ok(#[trigger] pv[partition as int][j])
            &&& forall|k: int|
                0 <= k < column ==> (#[trigger] spec_convert(
                    pv[partition as int][row as int][k],
                )) is Some
        },
        res matches Err(ConnectorError::SchemaMismatch { partition, expected, found }) ==> {
            let ns = spec_cols_view(parts@);
            &&& spec_all_ok(spec_parts_view(parts@))
            &&& 0 < partition < ns.len()
            &&& expected == ns[0]
            &&& found == ns[partition as int]
            &&& found != expected
            &&& forall|q: int| 0 <= q < partition ==> #[trigger] ns[q] == expected
        },
{
    let ghost orig = parts@;
    let ghost pv = spec_parts_view(orig);
    let ghost ns = spec_cols_view(orig);
    let n = parts.len();
    let mut rem = parts;
    let mut dest = Destination::new();
    let mut p: usize = 0;
    proof {
        assert(rem@ =~= orig.subrange(0, n as int));
        assert(dest.cells() =~= spec_conv_parts(pv.take(0)));
        assert(dest.spec_ncols() =~= ns.take(0));
    }
    while p < n
        invariant
            p <= n,
            rem@ == orig.subrange(p as int, n as int),
            dest.wf(),
            dest.cells() == spec_conv_parts(pv.take(p as int)),
            dest.spec_ncols() == ns.take(p as int),
            forall|q: int| 0 <= q < p ==> spec_part_ok(#[trigger] pv[q]),
        decreases n - p,
    {
        let part = rem.remove(0);
        proof {
            assert(part == orig[p as int]);
            assert(rem@ =~= orig.subrange(p + 1, n as int));
            assert(pv[p as int] == part.view_rows());
            assert(ns[p as int] == part.ncols);
        }
        let ncols = part.ncols;
        let mut rows = part.rows;
        let ghost rows_orig = rows@;
        let ghost rows_v = pv[p as int];
        let nrows = rows.len();
        let ghost null_row = Seq::new(ncols as nat, |c: int| DestValue::Null);
        dest.allocate(nrows, ncols);
        proof {
            assert(rows_v =~= rows_orig.map_values(|v: Vec<TypedCell>| v@));
            assert(dest.spec_ncols() =~= ns.take(p + 1));
            assert(Seq::new(nrows as nat, |j: int| null_row) =~= Seq::new(
                nrows as nat,
                |j: int|
                    if j < 0 {
                        spec_row_conv(rows_v[j])
                    } else {
                        null_row
                    },
            ));
            assert(rows@ =~= rows_orig.subrange(0, nrows as int));
        }
        let mut r: usize = 0;
        while r < nrows
            invariant
                r <= nrows,
                nrows == rows_orig.len(),
                rows@ == rows_orig.subrange(r as int, nrows as int),
                dest.wf(),
                dest.spec_ncols() == ns.take(p + 1),
                dest.cells() == spec_conv_parts(pv.take(p as int)).push(
                    Seq::new(
                        nrows as nat,
                        |j: int|
                            if j < r {
                                spec_row_conv(rows_v[j])
                            } else {
                                null_row
                            },
                    ),
                ),
                forall|j: int| 0 <= j < r ==> spec_row_ok(#[trigger] rows_v[j]),
            decreases nrows - r,
        {
            let row = rows.remove(0);
            proof {
                assert(row == rows_orig[r as int]);
                assert(row@ == rows_v[r as int]);
                assert(rows@ =~= rows_orig.subrange(r + 1, nrows as int));
                assert(row@.len() == ncols);
            }
            match convert_row(row) {
                Ok(vals) => {
                    proof {
                        assert(dest.cells()[p as int].len() == nrows);
                        assert(vals@.len() == ncols);
                        assert(dest.spec_ncols()[p as int] == ncols);
                    }
                    dest.write_row(p, r, vals);
                    proof {
                        assert(Seq::new(
                            nrows as nat,
                            |j: int|
                                if j < r {
                                    spec_row_conv(rows_v[j])
                                } else {
                                    null_row
                                },
                        ).update(r as int, spec_row_conv(rows_v[r as int])) =~= Seq::new(
                            nrows as nat,
                            |j: int|
                                if j < r + 1 {
                                    spec_row_conv(rows_v[j])
                                } else {
                                    null_row
                                },
                        ));
                        assert(dest.cells() =~~= spec_conv_parts(pv.take(p as int)).push(
                            Seq::new(
                                nrows as nat,
                                |j: int|
                                    if j < r + 1 {
                                        spec_row_conv(rows_v[j])
                                    } else {
                                        null_row
                                    },
                            ),
                        ));
                    }
                },
                Err(c) => {
                    proof {
                        assert(spec_convert(rows_v[r as int][c as int]) is None);
                        assert(!spec_row_ok(rows_v[r as int]));
                        assert(!spec_part_ok(pv[p as int]));
                        assert(!spec_all_ok(pv));
                    }
                    return Err(
                        ConnectorError::Conversion { partition: p, row: r, column: c },
                    );
                },
            }
            r = r + 1;
        }
        proof {
            assert(Seq::new(
                nrows as nat,
                |j: int|
                    if j < nrows {
                        spec_row_conv(rows_v[j])
                    } else {
                        null_row
                    },
            ) =~= spec_part_conv(rows_v));
            assert(pv.take(p + 1) =~= pv.take(p as int).push(rows_v));
            assert(spec_conv_parts(pv.take(p + 1)) =~= spec_conv_parts(pv.take(p as int)).push(
                spec_part_conv(rows_v),
            ));
            assert(dest.cells() =~~= spec_conv_parts(pv.take(p + 1)));
            assert(spec_part_ok(rows_v));
        }
        p = p + 1;
    }
    proof {
        assert(pv.take(n as int) =~= pv);
        assert(ns.take(n as int) =~= ns);
        assert(dest.cells() =~~= spec_conv_parts(pv));
        assert(dest.spec_uniform() <==> spec_uniform_cols(ns));
    }
    dest.finalize()
}

/// A failed partition's error, re-tagged with that partition's index in the
/// overall extraction (a sub-extraction reports everything as partition 0).
pub open spec fn spec_retag(e: ConnectorError, partition: usize) -> ConnectorError {
    match e {
        ConnectorError::QueryExecution { partition: old_p, message } => {
            ConnectorError::QueryExecution { partition, message }
        },
        ConnectorError::Conversion { partition: old_p, row, column } => {
            ConnectorError::Conversion { partition, row, column }
        },
        ConnectorError::SchemaMismatch { partition: old_p, expected, found } => {
            ConnectorError::SchemaMismatch { partition, expected, found }
        },
        other => other,
    }
}

/// Re-tags one error, exactly as `spec_retag` says.
fn retag_error(e: ConnectorError, partition: usize) -> (r: ConnectorError)
    ensures
        r == spec_retag(e, partition),
{
    match e {
        ConnectorError::QueryExecution { partition: _, message } => {
            ConnectorError::QueryExecution { partition, message }
        },
        ConnectorError::Conversion { partition: _, row, column } => {
            ConnectorError::Conversion { partition, row, column }
        },
        ConnectorError::SchemaMismatch { partition: _, expected, found } => {
            ConnectorError::SchemaMismatch { partition, expected, found }
        },
        other => other,
    }
}

/// Every per-partition outcome succeeded.
pub open spec fn spec_all_results_ok(rv: Seq<Result<ResultSet, ConnectorError>>) -> bool {
    forall|i: int| 0 <= i < rv.len() ==> (#[trigger] rv[i]) is Ok
}

/// All successful partitions report partition 0's column count (meaningful
/// where every outcome succeeded).
pub open spec fn spec_results_uniform(rv: Seq<Result<ResultSet, ConnectorError>>) -> bool {
    forall|p: int|
        0 <= p < rv.len() ==> (#[trigger] rv[p])->Ok_0.ncols == rv[0]->Ok_0.ncols
}

/// The successful partitions' rows, partition by partition.
pub open spec fn spec_ok_rows(rv: Seq<Result<ResultSet, ConnectorError>>) -> Seq<
    Seq<Seq<DestValue>>,
> {
    rv.map_values(|x: Result<ResultSet, ConnectorError>| x->Ok_0.view_rows())
}

/// Merges per-partition extraction outcomes in partition-index order, as a
/// fan-out over sub-extractions needs: the first failed partition's error
/// wins, re-tagged with its index; otherwise the partitions' rows are
/// concatenated in order, rejecting the first partition whose column count
/// differs from partition 0's.
#[verifier::loop_isolation(false)]
#[verifier::rlimit(60)]
pub fn merge_results(results: Vec<Result<ResultSet, ConnectorError>>) -> (res: Result<
    ResultSet,
    ConnectorError,
>)
    requires
        forall|i: int|
            0 <= i < results@.len() ==> ((#[trigger] results@[i]) matches Ok(rs) ==> rs.wf()),
    ensures
        res is Ok <==> spec_all_results_ok(results@) && spec_results_uniform(results@),
        res matches Ok(rs) ==> {
            &&& rs.wf()
            &&& rs.ncols == (if results@.len() == 0 {
                0usize
            } else {
                results@[0]->Ok_0.ncols
            })
            &&& rs.view_rows() == spec_ok_rows(results@).flatten()
        },
        res matches Err(e) ==> (exists|i: int|
            {
                &&& 0 <= i < results@.len()
                &&& (forall|j: int|
                    0 <= j < i ==> (#[trigger] results@[j]) is Ok && results@[j]->Ok_0.ncols
                        == results@[0]->Ok_0.ncols)
                &&& (((#[trigger] results@[i]) is Err && e == spec_retag(
                    results@[i]->Err_0,
                    i as usize,
                )) || (results@[i] is Ok && i > 0 && results@[i]->Ok_0.ncols
                    != results@[0]->Ok_0.ncols && e == ConnectorError::SchemaMismatch {
                    partition: i as usize,
                    expected: results@[0]->Ok_0.ncols,
                    found: results@[i]->Ok_0.ncols,
                }))
            }),
        spec_all_results_ok(results@) ==> (res matches Err(e) ==> e is SchemaMismatch),
        spec_all_results_ok(results@) ==> (res matches Err(ConnectorError::SchemaMismatch {
            partition,
            expected,
            found,
        }) ==> {
            &&& 0 < partition < results@.len()
            &&& expected == results@[0]->Ok_0.ncols
            &&& found == results@[partition as int]->Ok_0.ncols
            &&& found != expected
            &&& forall|q: int| 0 <= q < partition ==> results@[q]->Ok_0.ncols == expected
        }),
{
    let ghost rv = results@;
    let n = results.len();
    let mut rem = results;
    let mut ncols: usize = 0;
    let mut rows: Vec<Vec<DestValue>> = Vec::new();
    let mut i: usize = 0;
    proof {
        assert(rem@ =~= rv.subrange(0, n as int));
        assert(spec_ok_rows(rv).take(0).flatten() =~= Seq::<Seq<DestValue>>::empty());
        assert(spec_rows_view(rows@) =~= spec_ok_rows(rv).take(0).flatten());
    }
    while i < n
        invariant
            i <= n,
            rem@ == rv.subrange(i as int, n as int),
            forall|j: int| 0 <= j < i ==> (#[trigger] rv[j]) is Ok,
            forall|j: int| 0 <= j < i ==> (#[trigger] rv[j])->Ok_0.ncols == ncols,
            i > 0 ==> ncols == rv[0]->Ok_0.ncols,
            forall|j: int| 0 <= j < rows@.len() ==> (#[trigger] rows@[j])@.len() == ncols,
            spec_rows_view(rows@) == spec_ok_rows(rv).take(i as int).flatten(),
        decreases n - i,
    {
        let outcome = rem.remove(0);
        proof {
            assert(outcome == rv[i as int]);
            assert(rem@ =~= rv.subrange(i + 1, n as int));
        }
        let rs = match outcome {
            Ok(rs) => rs,
            Err(e) => {
                return Err(retag_error(e, i));
            },
        };
        if i == 0 {
            ncols = rs.ncols;
        } else if rs.ncols != ncols {
            proof {
                assert(rv[i as int]->Ok_0.ncols != rv[0]->Ok_0.ncols);
                assert(!spec_results_uniform(rv));
            }
            return Err(
                ConnectorError::SchemaMismatch { partition: i, expected: ncols, found: rs.ncols },
            );
        }
        let ghost part_rows = spec_ok_rows(rv)[i as int];
        let mut part = rs.rows;
        let ghost orig_part = part@;
        proof {
            assert(part_rows == spec_rows_view(orig_part));
            assert(part@ =~= orig_part.subrange(0, orig_part.len() as int));
            assert(part_rows.take(0) =~= Seq::<Seq<DestValue>>::empty());
            assert(spec_rows_view(rows@) =~= spec_ok_rows(rv).take(i as int).flatten()
                + part_rows.take(0));
        }
        let m = part.len();
        let mut k: usize = 0;
        while k < m
            invariant
                k <= m,
                m == orig_part.len(),
                part@ == orig_part.subrange(k as int, m as int),
                forall|j: int|
                    0 <= j < orig_part.len() ==> (#[trigger] orig_part[j])@.len() == ncols,
                spec_rows_view(rows@) == spec_ok_rows(rv).take(i as int).flatten()
                    + part_rows.take(k as int),
                forall|j: int| 0 <= j < rows@.len() ==> (#[trigger] rows@[j])@.len() == ncols,
            decreases m - k,
        {
            let ghost rows_pre = rows@;
            let row = part.remove(0);
            proof {
                assert(row == orig_part[k as int]);
                assert(row@ == part_rows[k as int]);
                assert(part@ =~= orig_part.subrange(k + 1, m as int));
            }
            rows.push(row);
            proof {
                assert(spec_rows_view(rows@) =~= spec_rows_view(rows_pre).push(row@));
                assert(part_rows.take(k + 1) =~= part_rows.take(k as int).push(
                    part_rows[k as int],
                ));
                assert((spec_ok_rows(rv).take(i as int).flatten() + part_rows.take(k as int)).push(
                    row@,
                ) =~= spec_ok_rows(rv).take(i as int).flatten() + part_rows.take(k + 1));
                assert(spec_rows_view(rows@) =~= spec_ok_rows(rv).take(i as int).flatten()
                    + part_rows.take(k + 1));
            }
            k = k + 1;
        }
        proof {
            assert(part_rows.take(m as int) =~= part_rows);
            spec_ok_rows(rv).take(i as int).lemma_flatten_push(part_rows);
            assert(spec_ok_rows(rv).take(i + 1) =~= spec_ok_rows(rv).take(i as int).push(
                part_rows,
            ));
            assert(spec_rows_view(rows@) =~= spec_ok_rows(rv).take(i + 1).flatten());
        }
        i = i + 1;
    }
    proof {
        assert(spec_ok_rows(rv).take(n as int) =~= spec_ok_rows(rv));
    }
    Ok(ResultSet { ncols: if n == 0 { 0 } else { ncols }, rows })
}

/// Runs one partition on an already-acquired connection: first the
/// pre-execution statements, in order, then the partition's own query. A
/// failure of either aborts this partition with a query-execution error
/// carrying the partition's index.
#[verifier::loop_isolation(false)]
pub(crate) fn run_partition(
    conn: &r2d2_sqlite::rusqlite::Connection,
    pre_execution_queries: Option<&Vec<String>>,
    query: &str,
    partition: usize,
) -> (r: Result<RawPartition, ConnectorError>)
    ensures
        r matches Ok(rp) ==> rp.wf(),
        r matches Err(e) ==> (e matches ConnectorError::QueryExecution { partition: p, message }
            && p == partition),
{
    match pre_execution_queries {
        Some(list) => {
            let m = list.len();
            let mut j: usize = 0;
            while j < m
                invariant
                    j <= m,
                decreases m - j,
            {
                match sqlite_execute(conn, list[j].as_str()) {
                    Ok(_) => {},
                    Err(msg) => {
                        return Err(
                            ConnectorError::QueryExecution { partition, message: msg },
                        );
                    },
                }
                j = j + 1;
            }
        },
        None => {},
    }
    match sqlite_fetch(conn, query) {
        Ok(rp) => Ok(rp),
        Err(msg) => Err(ConnectorError::QueryExecution { partition, message: msg }),
    }
}

/// One full extraction: selects the source implementation for the
/// descriptor's (backend, protocol) pair, then, per partition, acquires a
/// connection (checked out of the supplied pool, or opened fresh), runs the
/// pre-execution statements and the partition's query, and finally converts
/// and merges all partitions through `assemble`.
///
/// The supplied pool, if any, must be the one built for this descriptor:
/// handing a pool with another tag is a programming defect and aborts.
/// A (backend, protocol) pair outside the selection matrix, or one whose
/// client this build cannot drive end to end, is reported as unsupported.
/// Connections are released on every exit path (checked-out connections
/// return to the pool when dropped).
#[verifier::loop_isolation(false)]
pub fn get_arrow(
    source_conn: &SourceDescriptor,
    queries: &Vec<String>,
    pre_execution_queries: Option<&Vec<String>>,
    pool: Option<&PoolVariant>,
) -> (r: Result<ResultSet, ConnectorError>)
    requires
        pool matches Some(v) ==> spec_pool_tag_of(source_conn.ty, source_conn.tls) == Some(
            v.tag(),
        ),
    ensures
        spec_select(source_conn.ty, source_conn.proto) is None ==> r == Err::<
            ResultSet,
            ConnectorError,
        >(
            ConnectorError::UnsupportedBackend {
                backend: source_conn.ty,
                protocol: source_conn.proto,
            },
        ),
        (spec_select(source_conn.ty, source_conn.proto) matches Some(k) && !spec_executable(k))
            ==> r == Err::<ResultSet, ConnectorError>(
            ConnectorError::UnsupportedBackend {
                backend: source_conn.ty,
                protocol: source_conn.proto,
            },
        ),
        r matches Ok(rs) ==> rs.wf(),
        r is Ok ==> (spec_select(source_conn.ty, source_conn.proto) matches Some(k)
            && spec_executable(k)),
        r matches Err(e) ==> !(e is PoolBuild),
        r matches Err(e) ==> (e is UnsupportedBackend ==> !(spec_select(
            source_conn.ty,
            source_conn.proto,
        ) matches Some(k)
            && spec_executable(k))),
        r matches Err(e) ==> (e is InvalidConnectionString ==> (source_conn.ty is SQLite
            && !spec_sqlite_conn_ok(source_conn.conn@))),
        (spec_select(source_conn.ty, source_conn.proto) matches Some(k) && spec_executable(k)
            && !spec_sqlite_conn_ok(source_conn.conn@)) ==> (r matches Err(e) && e
            is InvalidConnectionString),
        (spec_select(source_conn.ty, source_conn.proto) matches Some(k) && spec_executable(k)
            && spec_sqlite_conn_ok(source_conn.conn@) && queries@.len() == 0) ==> (r matches Ok(
            rs,
        ) && rs.ncols == 0 && rs.view_rows() == Seq::<Seq<DestValue>>::empty()),
        r matches Err(ConnectorError::QueryExecution { partition, message }) ==> partition
            < queries@.len(),
        r matches Err(ConnectorError::Conversion { partition, row, column }) ==> partition
            < queries@.len(),
        r matches Err(ConnectorError::SchemaMismatch { partition, expected, found }) ==> partition
            < queries@.len(),
{
    let kind = match select_source(source_conn.ty, source_conn.proto) {
        Ok(k) => k,
        Err(e) => {
            return Err(e);
        },
    };
    if !executable(kind) {
        return Err(
            ConnectorError::UnsupportedBackend {
                backend: source_conn.ty,
                protocol: source_conn.proto,
            },
        );
    }
    proof {
        assert(source_conn.ty is SQLite);
    }
    let path = match sqlite_path(source_conn.conn.as_str()) {
        Ok(p) => p,
        Err(e) => {
            return Err(e);
        },
    };
    let n = queries.len();
    let mut parts: Vec<RawPartition> = Vec::new();
    let mut i: usize = 0;
    while i < n
        invariant
            i <= n,
            parts@.len() == i,
            forall|j: int| 0 <= j < i ==> (#[trigger] parts@[j]).wf(),
        decreases n - i,
    {
        let rp = match pool {
            Some(v) => {
                proof {
                    assert(v.tag() == PoolTag::SQLite);
                    assert(v is SQLite);
                }
                let sp = v.sqlite_pool();
                let pc = match sqlite_checkout(&sp) {
                    Ok(c) => c,
                    Err(m) => {
                        return Err(ConnectorError::ConnectionAcquire(m));
                    },
                };
                let conn = sqlite_conn(&pc);
                match run_partition(conn, pre_execution_queries, queries[i].as_str(), i) {
                    Ok(rp) => rp,
                    Err(e) => {
                        return Err(e);
                    },
                }
            },
            None => {
                let conn = match sqlite_open(path.as_str()) {
                    Ok(c) => c,
                    Err(m) => {
                        return Err(ConnectorError::ConnectionAcquire(m));
                    },
                };
                match run_partition(&conn, pre_execution_queries, queries[i].as_str(), i) {
                    Ok(rp) => rp,
                    Err(e) => {
                        return Err(e);
                    },
                }
            },
        };
        parts.push(rp);
        i = i + 1;
    }
    let ghost gparts = parts@;
    let res = assemble(parts);
    proof {
        if n == 0 {
            assert(spec_parts_view(gparts) =~= Seq::<Seq<Seq<TypedCell>>>::empty());
            assert(spec_conv_parts(spec_parts_view(gparts)) =~= Seq::<
                Seq<Seq<DestValue>>,
            >::empty());
            assert(spec_extract_rows(spec_parts_view(gparts)) =~= Seq::<Seq<DestValue>>::empty());
        }
    }
    res
}

} // verus!
