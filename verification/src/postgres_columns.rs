//! The PostgreSQL backend's column-type dispatch and its fixed mapping onto
//! the four target shapes.
//!
//! The PostgreSQL backend announces a column's type by name. The mapping
//! table is explicit data over those names, so the set of unsupported types
//! is auditable: a name outside the table aborts the whole projection.

use vstd::prelude::*;

use crate::row::ColumnShape;
use crate::row::ProjectionError;
use crate::text::str_eq;

verus! {

/// The fixed mapping table from a PostgreSQL type name to its target shape.
/// `None` marks a name outside the table: projecting such a column is a hard
/// failure, never a silent coercion.
pub open spec fn spec_postgres_target_shape(name: Seq<char>) -> Option<ColumnShape> {
    if name == "text"@ || name == "varchar"@ || name == "bytea"@ {
        Some(ColumnShape::Text)
    } else if name == "int8"@ || name == "int2"@ || name == "int4"@ || name == "numeric"@ {
        Some(ColumnShape::Integer64)
    } else if name == "float4"@ || name == "float8"@ {
        Some(ColumnShape::Double)
    } else if name == "_bytea"@ {
        Some(ColumnShape::ByteBlob)
    } else {
        None
    }
}

/// Dispatches one PostgreSQL type name through the mapping table.
pub fn postgres_target_shape(name: &str) -> (s: Option<ColumnShape>)
    ensures
        s == spec_postgres_target_shape(name@),
{
    if str_eq(name, "text") || str_eq(name, "varchar") || str_eq(name, "bytea") {
        Some(ColumnShape::Text)
    } else if str_eq(name, "int8") || str_eq(name, "int2") || str_eq(name, "int4") || str_eq(
        name,
        "numeric",
    ) {
        Some(ColumnShape::Integer64)
    } else if str_eq(name, "float4") || str_eq(name, "float8") {
        Some(ColumnShape::Double)
    } else if str_eq(name, "_bytea") {
        Some(ColumnShape::ByteBlob)
    } else {
        None
    }
}

/// Plans the projection of a PostgreSQL result set: maps every column's type
/// name to its target shape, in column order.
///
/// Succeeds if and only if every name is in the mapping table. The first
/// name outside the table aborts the whole plan with its column index: the
/// entire projection fails, not just that column.
pub fn plan_postgres_columns(names: &Vec<String>) -> (r: Result<Vec<ColumnShape>, ProjectionError>)
    ensures
        r is Ok <==> (forall|i: int|
            0 <= i < names@.len() ==> spec_postgres_target_shape(#[trigger] names@[i]@) is Some),
        r matches Ok(shapes) ==> {
            &&& shapes@.len() == names@.len()
            &&& forall|i: int|
                0 <= i < names@.len() ==> Some(#[trigger] shapes@[i]) == spec_postgres_target_shape(
                    names@[i]@,
                )
        },
        r matches Err(e) ==> e matches ProjectionError::UnsupportedType { index } && {
            &&& index < names@.len()
            &&& spec_postgres_target_shape(names@[index as int]@) is None
            &&& forall|j: int|
                0 <= j < index ==> spec_postgres_target_shape(#[trigger] names@[j]@) is Some
        },
{
    let mut shapes: Vec<ColumnShape> = Vec::new();
    let mut i: usize = 0;
    while i < names.len()
        invariant
            i <= names@.len(),
            shapes@.len() == i,
            forall|j: int|
                0 <= j < i ==> Some(#[trigger] shapes@[j]) == spec_postgres_target_shape(
                    names@[j]@,
                ),
            forall|j: int|
                0 <= j < i ==> spec_postgres_target_shape(#[trigger] names@[j]@) is Some,
        decreases names@.len() - i,
    {
        match postgres_target_shape(names[i].as_str()) {
            Some(s) => shapes.push(s),
            None => {
                return Err(ProjectionError::UnsupportedType { index: i });
            },
        }
        i = i + 1;
    }
    Ok(shapes)
}

} // verus!
