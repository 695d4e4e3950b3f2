//! The tagged parameter representation and its marshaling into the MySQL
//! backend's native value union.
//!
//! A bound statement parameter arrives from the host as a discriminant tag
//! plus one populated payload. [`SqlParameter`] is that union; floating-point
//! payloads are carried as their IEEE 754 bit patterns, so that the mapping
//! itself stays free of native float arithmetic. The boundary layer
//! reconstructs the native float from the bits when it hands the value to the
//! backend.

use vstd::prelude::*;

use crate::text::str_eq;

verus! {

/// One bound statement parameter, backend-agnostic.
///
/// `Float` holds the bit pattern of a 32-bit IEEE 754 value and `Double` the
/// bit pattern of a 64-bit one.
#[derive(Clone, Debug, PartialEq)]
pub enum SqlParameter {
    Null,
    Bytes(Vec<u8>),
    Int(i64),
    Float(u32),
    Double(u64),
}

/// The discriminant tags a parameter object can carry on the wire.
#[derive(Clone, Copy, Debug, PartialEq, Eq, Structural)]
pub enum ParamKind {
    Null,
    Bytes,
    Int,
    Float,
    Double,
}

/// The MySQL backend's client-side value union, modeled variant for variant.
/// `Float` and `Double` hold IEEE 754 bit patterns. The marshaler only ever
/// produces the first six variants; the remaining ones exist so that the model
/// covers the backend's full union.
#[derive(Clone, Debug, PartialEq)]
pub enum MysqlValue {
    Null,
    Bytes(Vec<u8>),
    Int(i64),
    UInt(u64),
    Float(u32),
    Double(u64),
    /// year, month, day, hour, minutes, seconds, micro seconds
    Date(u16, u8, u8, u8, u8, u8, u32),
    /// is negative, days, hours, minutes, seconds, micro seconds
    Time(bool, u32, u8, u8, u8, u32),
}

/// The fixed 1:1 mapping from a tagged parameter to the MySQL value that is
/// bound in its place: null to native null, bytes to a raw buffer, the
/// integer and the two float widths each to their native counterpart.
pub open spec fn wire_of(p: SqlParameter, v: MysqlValue) -> bool {
    match (p, v) {
        (SqlParameter::Null, MysqlValue::Null) => true,
        (SqlParameter::Bytes(b), MysqlValue::Bytes(c)) => b@ == c@,
        (SqlParameter::Int(x), MysqlValue::Int(y)) => x == y,
        (SqlParameter::Float(x), MysqlValue::Float(y)) => x == y,
        (SqlParameter::Double(x), MysqlValue::Double(y)) => x == y,
        _ => false,
    }
}

/// Marshals one tagged parameter. Total: every variant of the union has
/// exactly one native image, so no conversion failure is possible.
pub fn to_mysql_value(p: &SqlParameter) -> (v: MysqlValue)
    ensures
        wire_of(*p, v),
{
    match p {
        SqlParameter::Null => MysqlValue::Null,
        SqlParameter::Bytes(b) => {
            let c = b.clone();
            assert(c@ =~= b@);
            MysqlValue::Bytes(c)
        },
        SqlParameter::Int(x) => MysqlValue::Int(*x),
        SqlParameter::Float(x) => MysqlValue::Float(*x),
        SqlParameter::Double(x) => MysqlValue::Double(*x),
    }
}

/// Marshals an ordered parameter sequence into the backend's bound-parameter
/// list. Order-preserving and 1:1: the value at each position is the native
/// image of the tagged parameter at the same position.
pub fn marshal_params(ps: &Vec<SqlParameter>) -> (vs: Vec<MysqlValue>)
    ensures
        vs@.len() == ps@.len(),
        forall|i: int| 0 <= i < ps@.len() ==> wire_of(ps@[i], #[trigger] vs@[i]),
{
    let mut vs: Vec<MysqlValue> = Vec::new();
    let mut i: usize = 0;
    while i < ps.len()
        invariant
            i <= ps@.len(),
            vs@.len() == i,
            forall|j: int| 0 <= j < i ==> wire_of(ps@[j], #[trigger] vs@[j]),
        decreases ps@.len() - i,
    {
        let v = to_mysql_value(&ps[i]);
        vs.push(v);
        i = i + 1;
    }
    vs
}

/// The fixed table from a wire discriminant tag to the parameter kind it
/// announces. A tag outside the table is rejected, never coerced.
pub open spec fn spec_parameter_kind(tag: Seq<char>) -> Option<ParamKind> {
    if tag == "NULL"@ {
        Some(ParamKind::Null)
    } else if tag == "BYTES"@ {
        Some(ParamKind::Bytes)
    } else if tag == "INT"@ {
        Some(ParamKind::Int)
    } else if tag == "FLOAT"@ {
        Some(ParamKind::Float)
    } else if tag == "DOUBLE"@ {
        Some(ParamKind::Double)
    } else {
        None
    }
}

/// Decodes the discriminant tag of one incoming parameter object, telling the
/// boundary layer which payload field to read.
pub fn parameter_kind(tag: &str) -> (k: Option<ParamKind>)
    ensures
        k == spec_parameter_kind(tag@),
{
    if str_eq(tag, "NULL") {
        Some(ParamKind::Null)
    } else if str_eq(tag, "BYTES") {
        Some(ParamKind::Bytes)
    } else if str_eq(tag, "INT") {
        Some(ParamKind::Int)
    } else if str_eq(tag, "FLOAT") {
        Some(ParamKind::Float)
    } else if str_eq(tag, "DOUBLE") {
        Some(ParamKind::Double)
    } else {
        None
    }
}

} // verus!
