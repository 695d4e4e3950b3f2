//! The MySQL backend's column-type taxonomy and its fixed mapping onto the
//! four target shapes.
//!
//! [`MysqlColumnType`] models the backend's column type tag set variant for
//! variant; the boundary layer translates each native tag to its counterpart
//! here. The mapping table is explicit data, so the set of unsupported tags
//! is auditable: a tag outside the table aborts the whole projection.

use vstd::prelude::*;

use crate::row::ColumnShape;
use crate::row::ProjectionError;

verus! {

/// The MySQL column type tags, one variant per native tag. Fixed-length
/// character columns report `FixedString`, actual VARCHAR columns report
/// `VarString`, and TEXT columns report one of the blob tags.
#[derive(Clone, Copy, Debug, PartialEq, Eq, Structural)]
pub enum MysqlColumnType {
    Decimal,
    Tiny,
    Short,
    Long,
    Float,
    Double,
    Null,
    Timestamp,
    LongLong,
    Int24,
    Date,
    Time,
    DateTime,
    Year,
    NewDate,
    VarChar,
    Bit,
    Timestamp2,
    DateTime2,
    Time2,
    TypedArray,
    Vector,
    Unknown,
    Json,
    NewDecimal,
    Enumeration,
    StringSet,
    TinyBlob,
    MediumBlob,
    LongBlob,
    Blob,
    VarString,
    FixedString,
    Geometry,
}

/// The fixed mapping table from a MySQL column type tag to its target shape.
/// `None` marks a tag outside the table: projecting such a column is a hard
/// failure, never a silent coercion.
pub open spec fn spec_mysql_target_shape(t: MysqlColumnType) -> Option<ColumnShape> {
    match t {
        MysqlColumnType::FixedString => Some(ColumnShape::Text),
        MysqlColumnType::VarString => Some(ColumnShape::Text),
        MysqlColumnType::VarChar => Some(ColumnShape::Text),
        MysqlColumnType::Int24 => Some(ColumnShape::Integer64),
        MysqlColumnType::Long => Some(ColumnShape::Integer64),
        MysqlColumnType::LongLong => Some(ColumnShape::Integer64),
        MysqlColumnType::Double => Some(ColumnShape::Double),
        MysqlColumnType::Float => Some(ColumnShape::Double),
        MysqlColumnType::Blob => Some(ColumnShape::ByteBlob),
        MysqlColumnType::LongBlob => Some(ColumnShape::ByteBlob),
        MysqlColumnType::MediumBlob => Some(ColumnShape::ByteBlob),
        MysqlColumnType::TinyBlob => Some(ColumnShape::ByteBlob),
        _ => None,
    }
}

/// Dispatches one MySQL column type tag through the mapping table.
pub fn mysql_target_shape(t: MysqlColumnType) -> (s: Option<ColumnShape>)
    ensures
        s == spec_mysql_target_shape(t),
{
    match t {
        MysqlColumnType::FixedString => Some(ColumnShape::Text),
        MysqlColumnType::VarString => Some(ColumnShape::Text),
        MysqlColumnType::VarChar => Some(ColumnShape::Text),
        MysqlColumnType::Int24 => Some(ColumnShape::Integer64),
        MysqlColumnType::Long => Some(ColumnShape::Integer64),
        MysqlColumnType::LongLong => Some(ColumnShape::Integer64),
        MysqlColumnType::Double => Some(ColumnShape::Double),
        MysqlColumnType::Float => Some(ColumnShape::Double),
        MysqlColumnType::Blob => Some(ColumnShape::ByteBlob),
        MysqlColumnType::LongBlob => Some(ColumnShape::ByteBlob),
        MysqlColumnType::MediumBlob => Some(ColumnShape::ByteBlob),
        MysqlColumnType::TinyBlob => Some(ColumnShape::ByteBlob),
        _ => None,
    }
}

/// Plans the projection of a MySQL result set: maps every column's type tag
/// to its target shape, in column order.
///
/// Succeeds if and only if every tag is in the mapping table. The first tag
/// outside the table aborts the whole plan with its column index: the entire
/// projection fails, not just that column.
pub fn plan_mysql_columns(tags: &Vec<MysqlColumnType>) -> (r: Result<
    Vec<ColumnShape>,
    ProjectionError,
>)
    ensures
        r is Ok <==> (forall|i: int|
            0 <= i < tags@.len() ==> spec_mysql_target_shape(#[trigger] tags@[i]) is Some),
        r matches Ok(shapes) ==> {
            &&& shapes@.len() == tags@.len()
            &&& forall|i: int|
                0 <= i < tags@.len() ==> Some(#[trigger] shapes@[i]) == spec_mysql_target_shape(
                    tags@[i],
                )
        },
        r matches Err(e) ==> e matches ProjectionError::UnsupportedType { index } && {
            &&& index < tags@.len()
            &&& spec_mysql_target_shape(tags@[index as int]) is None
            &&& forall|j: int|
                0 <= j < index ==> spec_mysql_target_shape(#[trigger] tags@[j]) is Some
        },
{
    let mut shapes: Vec<ColumnShape> = Vec::new();
    let mut i: usize = 0;
    while i < tags.len()
        invariant
            i <= tags@.len(),
            shapes@.len() == i,
            forall|j: int|
                0 <= j < i ==> Some(#[trigger] shapes@[j]) == spec_mysql_target_shape(tags@[j]),
            forall|j: int| 0 <= j < i ==> spec_mysql_target_shape(#[trigger] tags@[j]) is Some,
        decreases tags@.len() - i,
    {
        match mysql_target_shape(tags[i]) {
            Some(s) => shapes.push(s),
            None => {
                return Err(ProjectionError::UnsupportedType { index: i });
            },
        }
        i = i + 1;
    }
    Ok(shapes)
}

} // verus!
