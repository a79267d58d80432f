//! Typed cells and the transport's cell-level conversion.
//!
//! A `TypedCell` is one backend-native value tagged with its logical type; it
//! is produced by a source and consumed immediately. A `DestValue` is the
//! destination's native representation. The conversion is a pure, total
//! function over the supported logical types: integers widen to 64 bits
//! exactly, text, binary and boolean values pass through unchanged, and null
//! is explicit. A value outside the supported types (for example a floating
//! point number, which the destination has no representation for) is carried
//! as `Unsupported` and rejected by the conversion.

use vstd::prelude::*;

verus! {

/// A backend-native value tagged with its logical type.
#[derive(Debug, Clone, PartialEq, Eq)]
pub enum TypedCell {
    Null,
    Bool(bool),
    I32(i32),
    I64(i64),
    Text(String),
    Bytes(Vec<u8>),
    /// A backend value whose logical type the transport does not support.
    Unsupported,
}

/// A value in the destination's native type system.
#[derive(Debug, Clone, PartialEq, Eq)]
pub enum DestValue {
    Null,
    Bool(bool),
    I64(i64),
    Text(String),
    Bytes(Vec<u8>),
}

/// The cell-level conversion table: what each logical type becomes in the
/// destination, `None` where no conversion exists. 32-bit integers widen to
/// 64 bits without loss; everything else maps to itself.
pub open spec fn spec_convert(c: TypedCell) -> Option<DestValue> {
    match c {
        TypedCell::Null => Some(DestValue::Null),
        TypedCell::Bool(b) => Some(DestValue::Bool(b)),
        TypedCell::I32(v) => Some(DestValue::I64(v as i64)),
        TypedCell::I64(v) => Some(DestValue::I64(v)),
        TypedCell::Text(s) => Some(DestValue::Text(s)),
        TypedCell::Bytes(b) => Some(DestValue::Bytes(b)),
        TypedCell::Unsupported => None,
    }
}

/// Converts one cell into the destination's representation, exactly as
/// `spec_convert` says.
pub fn convert_cell(c: TypedCell) -> (r: Option<DestValue>)
    ensures
        r == spec_convert(c),
{
    match c {
        TypedCell::Null => Some(DestValue::Null),
        TypedCell::Bool(b) => Some(DestValue::Bool(b)),
        TypedCell::I32(v) => Some(DestValue::I64(v as i64)),
        TypedCell::I64(v) => Some(DestValue::I64(v)),
        TypedCell::Text(s) => Some(DestValue::Text(s)),
        TypedCell::Bytes(b) => Some(DestValue::Bytes(b)),
        TypedCell::Unsupported => None,
    }
}

/// Whether every cell of a row has a destination representation.
pub open spec fn spec_row_ok(row: Seq<TypedCell>) -> bool {
    forall|i: int| 0 <= i < row.len() ==> (#[trigger] spec_convert(row[i])) is Some
}

/// The converted row, cell by cell, defined where `spec_row_ok` holds.
pub open spec fn spec_row_conv(row: Seq<TypedCell>) -> Seq<DestValue> {
    Seq::new(row.len(), |i: int| spec_convert(row[i]).unwrap())
}

/// Converts a whole row, reporting the column of the first cell that has no
/// destination representation.
#[verifier::loop_isolation(false)]
pub fn convert_row(row: Vec<TypedCell>) -> (r: Result<Vec<DestValue>, usize>)
    ensures
        r matches Ok(out) ==> spec_row_ok(row@) && out@ == spec_row_conv(row@),
        r matches Err(c) ==> c < row@.len() && spec_convert(row@[c as int]) is None && (forall|
            j: int,
        |
            0 <= j < c ==> (#[trigger] spec_convert(row@[j])) is Some),
        spec_row_ok(row@) <==> r is Ok,
{
    let ghost orig = row@;
    let mut out: Vec<DestValue> = Vec::new();
    let mut rest = row;
    let n = rest.len();
    let mut i: usize = 0;
    assert(orig.subrange(0, n as int) =~= orig);
    while i < n
        invariant
            n == orig.len(),
            rest@ == orig.subrange(i as int, n as int),
            i <= n,
            out@.len() == i,
            forall|j: int| 0 <= j < i ==> (#[trigger] spec_convert(orig[j])) is Some,
            forall|j: int| 0 <= j < i ==> out@[j] == spec_convert(orig[j]).unwrap(),
        decreases n - i,
    {
        let cell = rest.remove(0);
        assert(cell == orig[i as int]);
        match convert_cell(cell) {
            Some(v) => {
                out.push(v);
            },
            None => {
                return Err(i);
            },
        }
        i = i + 1;
        assert(rest@ =~= orig.subrange(i as int, n as int));
    }
    assert(out@ =~= spec_row_conv(orig));
    Ok(out)
}

} // verus!
