//! The managed host's view of projected values.
//!
//! Each target shape of a projected column is exposed to the host as a boxed
//! object of a fixed host class. [`Java`] maps the shapes to the internal
//! names of those classes, which the boundary layer uses to look the classes
//! up and to fill the type-descriptor sequence of a row.

use vstd::prelude::*;

use crate::row::ColumnShape;

verus! {

/// Namespace for the managed host's class taxonomy.
pub struct Java;

/// The internal host class name that boxes one target shape: text becomes a
/// host string, 64-bit integers a boxed long, doubles a boxed double, and a
/// byte blob an array of boxed bytes.
pub open spec fn spec_class_name(shape: ColumnShape) -> Seq<char> {
    match shape {
        ColumnShape::Text => "java/lang/String"@,
        ColumnShape::Integer64 => "java/lang/Long"@,
        ColumnShape::Double => "java/lang/Double"@,
        ColumnShape::ByteBlob => "[Ljava/lang/Byte;"@,
    }
}

impl Java {
    /// The internal name of the host class that boxes values of `shape`.
    pub fn class_name(shape: ColumnShape) -> (r: &'static str)
        ensures
            r@ == spec_class_name(shape),
    {
        match shape {
            ColumnShape::Text => "java/lang/String",
            ColumnShape::Integer64 => "java/lang/Long",
            ColumnShape::Double => "java/lang/Double",
            ColumnShape::ByteBlob => "[Ljava/lang/Byte;",
        }
    }
}

} // verus!
