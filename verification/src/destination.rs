//! The columnar destination.
//!
//! A `Destination` holds one pre-allocated buffer per partition. Each
//! partition writes only into its own region — that exclusivity is the
//! design's concurrency-safety argument — and `finalize` merges the regions
//! in partition order, rejecting partitions that disagree on column count.

use vstd::prelude::*;
use vstd::seq_lib::*;

use crate::errors::ConnectorError;
use crate::value::DestValue;

verus! {

/// The view of a vector of rows: a sequence of row views.
pub open spec fn spec_rows_view(rows: Seq<Vec<DestValue>>) -> Seq<Seq<DestValue>> {
    rows.map_values(|v: Vec<DestValue>| v@)
}

/// The finalized result: all partitions' rows merged in partition order.
#[derive(Debug, PartialEq, Eq)]
pub struct ResultSet {
    pub ncols: usize,
    pub rows: Vec<Vec<DestValue>>,
}

impl ResultSet {
    /// The rows as a sequence of row views.
    pub open spec fn view_rows(self) -> Seq<Seq<DestValue>> {
        spec_rows_view(self.rows@)
    }

    /// Every row has exactly `ncols` cells.
    pub open spec fn wf(self) -> bool {
        forall|r: int| 0 <= r < self.rows@.len() ==> (#[trigger] self.rows@[r])@.len() == self.ncols
    }

    /// Number of rows in the result.
    pub fn row_count(&self) -> (n: usize)
        ensures
            n == self.view_rows().len(),
    {
        self.rows.len()
    }

    /// Runtime test for `wf`, for callers outside the verifier's reach.
    #[verifier::loop_isolation(false)]
    pub fn is_wf(&self) -> (b: bool)
        ensures
            b == self.wf(),
    {
        let n = self.rows.len();
        let mut r: usize = 0;
        while r < n
            invariant
                r <= n,
                forall|j: int| 0 <= j < r ==> (#[trigger] self.rows@[j])@.len() == self.ncols,
            decreases n - r,
        {
            if self.rows[r].len() != self.ncols {
                return false;
            }
            r = r + 1;
        }
        true
    }
}

/// A destination with one pre-sized buffer per partition.
pub struct Destination {
    parts: Vec<Vec<Vec<DestValue>>>,
    ncols: Vec<usize>,
}

/// The cell grid after one cell at (p, r, c) is replaced by `v`.
pub open spec fn spec_write(
    cells: Seq<Seq<Seq<DestValue>>>,
    p: int,
    r: int,
    c: int,
    v: DestValue,
) -> Seq<Seq<Seq<DestValue>>> {
    cells.update(p, cells[p].update(r, cells[p][r].update(c, v)))
}

impl Destination {
    /// One partition's rows, as a sequence of row views.
    pub closed spec fn spec_part(self, p: int) -> Seq<Seq<DestValue>> {
        spec_rows_view(self.parts@[p]@)
    }

    /// The whole destination: partition -> row -> cell.
    pub closed spec fn cells(self) -> Seq<Seq<Seq<DestValue>>> {
        Seq::new(self.parts@.len(), |p: int| self.spec_part(p))
    }

    /// Column count each partition was allocated with.
    pub closed spec fn spec_ncols(self) -> Seq<usize> {
        self.ncols@
    }

    /// Every row of every partition has that partition's column count.
    pub closed spec fn wf(self) -> bool {
        &&& self.ncols@.len() == self.parts@.len()
        &&& forall|p: int, r: int|
            0 <= p < self.cells().len() && 0 <= r < self.cells()[p].len() ==> (
            #[trigger] self.cells()[p][r]).len() == self.ncols@[p]
    }

    /// All partitions report the same column count (vacuously true with no
    /// partitions).
    pub open spec fn spec_uniform(self) -> bool {
        forall|p: int|
            0 <= p < self.spec_ncols().len() ==> #[trigger] self.spec_ncols()[p]
                == self.spec_ncols()[0]
    }

    /// A new destination with no partitions.
    pub fn new() -> (d: Destination)
        ensures
            d.wf(),
            d.cells() == Seq::<Seq<Seq<DestValue>>>::empty(),
            d.spec_ncols() == Seq::<usize>::empty(),
    {
        let d = Destination { parts: Vec::new(), ncols: Vec::new() };
        proof {
            assert(d.cells() =~= Seq::<Seq<Seq<DestValue>>>::empty());
            assert(d.spec_ncols() =~= Seq::<usize>::empty());
        }
        d
    }

    /// Number of partitions allocated so far.
    pub fn partition_count(&self) -> (n: usize)
        ensures
            n == self.cells().len(),
    {
        self.parts.len()
    }

    /// Appends a fresh partition region of `nrows` x `ncols` cells, every
    /// cell null, leaving existing regions untouched.
    #[verifier::loop_isolation(false)]
    pub fn allocate(&mut self, nrows: usize, ncols: usize)
        requires
            old(self).wf(),
        ensures
            final(self).wf(),
            final(self).cells() == old(self).cells().push(
                Seq::new(nrows as nat, |r: int| Seq::new(ncols as nat, |c: int| DestValue::Null)),
            ),
            final(self).spec_ncols() == old(self).spec_ncols().push(ncols),
    {
        let ghost target_row: Seq<DestValue> = Seq::new(ncols as nat, |c: int| DestValue::Null);
        let mut region: Vec<Vec<DestValue>> = Vec::new();
        let mut r: usize = 0;
        while r < nrows
            invariant
                r <= nrows,
                region@.len() == r,
                forall|j: int| 0 <= j < r ==> (#[trigger] region@[j])@ == target_row,
            decreases nrows - r,
        {
            let mut row: Vec<DestValue> = Vec::new();
            let mut c: usize = 0;
            while c < ncols
                invariant
                    c <= ncols,
                    row@.len() == c,
                    forall|k: int| 0 <= k < c ==> row@[k] == DestValue::Null,
                decreases ncols - c,
            {
                row.push(DestValue::Null);
                c = c + 1;
            }
            assert(row@ =~= target_row);
            region.push(row);
            r = r + 1;
        }
        self.parts.push(region);
        self.ncols.push(ncols);
        proof {
            assert(spec_rows_view(region@) =~= Seq::new(
                nrows as nat,
                |r: int| Seq::new(ncols as nat, |c: int| DestValue::Null),
            ));
            assert(self.cells() =~= old(self).cells().push(spec_rows_view(region@)));
        }
    }

    /// Writes one converted value into this partition's region. Only the
    /// addressed cell changes.
    pub fn write_cell(&mut self, p: usize, r: usize, c: usize, v: DestValue)
        requires
            old(self).wf(),
            p < old(self).cells().len(),
            r < old(self).cells()[p as int].len(),
            c < old(self).spec_ncols()[p as int],
        ensures
            final(self).wf(),
            final(self).cells() == spec_write(old(self).cells(), p as int, r as int, c as int, v),
            final(self).spec_ncols() == old(self).spec_ncols(),
    {
        let part = &mut self.parts[p];
        let row = &mut part[r];
        proof {
            assert((*row)@ == old(self).cells()[p as int][r as int]);
            assert((*row)@.len() == old(self).spec_ncols()[p as int]);
        }
        row[c] = v;
        proof {
            assert(self.cells() =~~= spec_write(
                old(self).cells(),
                p as int,
                r as int,
                c as int,
                v,
            ));
        }
    }

    /// Writes one full converted row into this partition's region, cell by
    /// cell. Only the addressed row changes.
    #[verifier::loop_isolation(false)]
    pub fn write_row(&mut self, p: usize, r: usize, vals: Vec<DestValue>)
        requires
            old(self).wf(),
            p < old(self).cells().len(),
            r < old(self).cells()[p as int].len(),
            vals@.len() == old(self).spec_ncols()[p as int],
        ensures
            final(self).wf(),
            final(self).cells() == old(self).cells().update(
                p as int,
                old(self).cells()[p as int].update(r as int, vals@),
            ),
            final(self).spec_ncols() == old(self).spec_ncols(),
    {
        let ghost target = vals@;
        let ghost row0 = old(self).cells()[p as int][r as int];
        let ncols = vals.len();
        let mut vals = vals;
        let mut c: usize = 0;
        proof {
            assert(target.take(0) + row0.skip(0) =~= row0);
            assert(old(self).cells()[p as int].update(r as int, row0) =~= old(
                self,
            ).cells()[p as int]);
            assert(old(self).cells().update(
                p as int,
                old(self).cells()[p as int].update(r as int, target.take(0) + row0.skip(0)),
            ) =~~= old(self).cells());
        }
        while c < ncols
            invariant
                c <= ncols,
                vals@ == target.subrange(c as int, ncols as int),
                self.wf(),
                self.spec_ncols() == old(self).spec_ncols(),
                self.cells() == old(self).cells().update(
                    p as int,
                    old(self).cells()[p as int].update(
                        r as int,
                        target.take(c as int) + row0.skip(c as int),
                    ),
                ),
            decreases ncols - c,
        {
            let v = vals.remove(0);
            proof {
                assert(v == target[c as int]);
                assert(self.cells()[p as int][r as int].len() == ncols);
            }
            self.write_cell(p, r, c, v);
            proof {
                assert(vals@ =~= target.subrange(c + 1, ncols as int));
                assert((target.take(c as int) + row0.skip(c as int)).update(c as int, v) =~= target
                    .take(c + 1) + row0.skip(c + 1));
                assert(self.cells() =~~= old(self).cells().update(
                    p as int,
                    old(self).cells()[p as int].update(
                        r as int,
                        target.take(c + 1) + row0.skip(c + 1),
                    ),
                ));
            }
            c = c + 1;
        }
        proof {
            assert(target.take(ncols as int) + row0.skip(ncols as int) =~= target);
            assert(self.cells() =~~= old(self).cells().update(
                p as int,
                old(self).cells()[p as int].update(r as int, target),
            ));
        }
    }

    /// Merges the partitions in partition order. Fails with a schema
    /// mismatch naming the first partition whose column count differs from
    /// partition 0's; succeeds exactly when all partitions agree.
    #[verifier::loop_isolation(false)]
    pub fn finalize(self) -> (r: Result<ResultSet, ConnectorError>)
        requires
            self.wf(),
        ensures
            r is Ok <==> self.spec_uniform(),
            r matches Ok(rs) ==> {
                &&& rs.wf()
                &&& rs.ncols == (if self.spec_ncols().len() == 0 {
                    0usize
                } else {
                    self.spec_ncols()[0]
                })
                &&& rs.view_rows() == self.cells().flatten()
            },
            r matches Err(e) ==> e matches ConnectorError::SchemaMismatch {
                partition,
                expected,
                found,
            } && {
                &&& 0 < partition < self.spec_ncols().len()
                &&& expected == self.spec_ncols()[0]
                &&& found == self.spec_ncols()[partition as int]
                &&& found != expected
                &&& forall|q: int| 0 <= q < partition ==> self.spec_ncols()[q] == expected
            },
    {
        let n = self.parts.len();
        if n == 0 {
            proof {
                assert(self.cells() =~= Seq::<Seq<Seq<DestValue>>>::empty());
                assert(self.cells().flatten() =~= Seq::<Seq<DestValue>>::empty());
            }
            return Ok(ResultSet { ncols: 0, rows: Vec::new() });
        }
        let expected = self.ncols[0];
        let mut p: usize = 1;
        while p < n
            invariant
                1 <= p <= n,
                forall|q: int| 0 <= q < p ==> self.spec_ncols()[q] == expected,
            decreases n - p,
        {
            let found = self.ncols[p];
            if found != expected {
                proof {
                    assert(self.spec_ncols()[p as int] != self.spec_ncols()[0]);
                    assert(!self.spec_uniform());
                }
                return Err(
                    ConnectorError::SchemaMismatch { partition: p, expected, found },
                );
            }
            p = p + 1;
        }
        let ghost all = self.cells();
        let mut parts = self.parts;
        let ghost orig_parts = parts@;
        let mut out: Vec<Vec<DestValue>> = Vec::new();
        let mut i: usize = 0;
        proof {
            assert(orig_parts.subrange(0, n as int) =~= orig_parts);
            assert(all.take(0).flatten() =~= Seq::<Seq<DestValue>>::empty());
            assert(spec_rows_view(out@) =~= all.take(0).flatten());
            assert(forall|p: int|
                0 <= p < n ==> #[trigger] all[p] == spec_rows_view(orig_parts[p]@));
        }
        while i < n
            invariant
                i <= n,
                parts@ == orig_parts.subrange(i as int, n as int),
                spec_rows_view(out@) == all.take(i as int).flatten(),
                forall|j: int| 0 <= j < out@.len() ==> (#[trigger] out@[j])@.len() == expected,
            decreases n - i,
        {
            let mut part = parts.remove(0);
            proof {
                assert(part == orig_parts[i as int]);
                assert(parts@ =~= orig_parts.subrange(i + 1, n as int));
            }
            let ghost orig_part = part@;
            let ghost part_rows = all[i as int];
            proof {
                assert(part_rows == spec_rows_view(orig_part));
            }
            let m = part.len();
            let mut k: usize = 0;
            proof {
                assert(part@ =~= orig_part.subrange(0, m as int));
                assert(part_rows.take(0) =~= Seq::<Seq<DestValue>>::empty());
                assert(spec_rows_view(out@) =~= all.take(i as int).flatten() + part_rows.take(0));
            }
            while k < m
                invariant
                    k <= m,
                    m == orig_part.len(),
                    part@ == orig_part.subrange(k as int, m as int),
                    spec_rows_view(out@) == all.take(i as int).flatten() + part_rows.take(
                        k as int,
                    ),
                    forall|j: int| 0 <= j < out@.len() ==> (#[trigger] out@[j])@.len() == expected,
                decreases m - k,
            {
                let ghost out_pre = out@;
                let row = part.remove(0);
                proof {
                    assert(row == orig_part[k as int]);
                    assert(row@ == part_rows[k as int]);
                    assert(part@ =~= orig_part.subrange(k + 1, m as int));
                }
                out.push(row);
                proof {
                    assert(self.cells()[i as int][k as int].len() == self.spec_ncols()[i as int]);
                    assert(row@.len() == expected);
                    assert(spec_rows_view(out@) =~= spec_rows_view(out_pre).push(row@));
                    assert(part_rows.take(k + 1) =~= part_rows.take(k as int).push(
                        part_rows[k as int],
                    ));
                    assert((all.take(i as int).flatten() + part_rows.take(k as int)).push(row@)
                        =~= all.take(i as int).flatten() + part_rows.take(k + 1));
                    assert(spec_rows_view(out@) =~= all.take(i as int).flatten()
                        + part_rows.take(k + 1));
                }
                k = k + 1;
            }
            proof {
                assert(part_rows.take(m as int) =~= part_rows);
                all.take(i as int).lemma_flatten_push(part_rows);
                assert(all.take(i + 1) =~= all.take(i as int).push(part_rows));
                assert(spec_rows_view(out@) =~= all.take(i + 1).flatten());
            }
            i = i + 1;
        }
        proof {
            assert(all.take(n as int) =~= all);
        }
        Ok(ResultSet { ncols: expected, rows: out })
    }
}

} // verus!
