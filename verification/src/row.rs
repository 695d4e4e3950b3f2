//! The uniform row representation and its assembly.
//!
//! A query result row is projected into three equal-length parallel
//! sequences: column names, boxed nullable values, and type descriptors. The
//! assembly is total over shape-correct input and fails closed: a cell whose
//! payload does not match its column's target shape aborts the whole row.

use vstd::prelude::*;

verus! {

/// The four target shapes a backend column type can be projected onto. Also
/// serves as the per-column type descriptor of an assembled row.
#[derive(Clone, Copy, Debug, PartialEq, Eq, Structural)]
pub enum ColumnShape {
    Text,
    Integer64,
    Double,
    ByteBlob,
}

/// One non-null column value in its target shape. `Double` holds the IEEE 754
/// bit pattern of the 64-bit value; the boundary layer boxes the native float
/// from the bits.
#[derive(Clone, Debug, PartialEq)]
pub enum CellValue {
    Text(String),
    Integer64(i64),
    Double(u64),
    ByteBlob(Vec<u8>),
}

impl CellValue {
    /// The shape this payload has.
    pub open spec fn spec_shape(self) -> ColumnShape {
        match self {
            CellValue::Text(_) => ColumnShape::Text,
            CellValue::Integer64(_) => ColumnShape::Integer64,
            CellValue::Double(_) => ColumnShape::Double,
            CellValue::ByteBlob(_) => ColumnShape::ByteBlob,
        }
    }

    /// Reads the shape of this payload.
    pub fn shape(&self) -> (s: ColumnShape)
        ensures
            s == self.spec_shape(),
    {
        match self {
            CellValue::Text(_) => ColumnShape::Text,
            CellValue::Integer64(_) => ColumnShape::Integer64,
            CellValue::Double(_) => ColumnShape::Double,
            CellValue::ByteBlob(_) => ColumnShape::ByteBlob,
        }
    }
}

/// Whether a nullable cell agrees with its column's target shape. A null
/// cell agrees with every shape: SQL NULL is representable at every column.
pub open spec fn cell_matches(v: Option<CellValue>, s: ColumnShape) -> bool {
    match v {
        None => true,
        Some(c) => c.spec_shape() == s,
    }
}

/// Why a projection was aborted.
#[derive(Clone, Copy, Debug, PartialEq, Eq, Structural)]
pub enum ProjectionError {
    /// A column's native type tag is absent from the backend's mapping table.
    /// Fatal for the whole projection, not just the column.
    UnsupportedType { index: usize },
    /// A cell's payload does not have its column's target shape.
    ShapeMismatch { index: usize },
    /// The name, shape and cell sequences do not have one common length.
    LengthMismatch,
}

/// One projected result row: three equal-length ordered sequences, built
/// together and immutable once returned. A SQL NULL is an explicit `None`
/// entry at its position, never an omitted column.
#[derive(Clone, Debug, PartialEq)]
pub struct SqlRow {
    pub names: Vec<String>,
    pub values: Vec<Option<CellValue>>,
    pub shapes: Vec<ColumnShape>,
}

impl SqlRow {
    /// Well-formedness: the three sequences have one common length and every
    /// non-null value has its column's shape.
    pub open spec fn wf(self) -> bool {
        &&& self.names@.len() == self.values@.len()
        &&& self.names@.len() == self.shapes@.len()
        &&& forall|i: int|
            0 <= i < self.values@.len() ==> cell_matches(#[trigger] self.values@[i], self.shapes@[i])
    }

    /// How many columns the row has.
    pub fn len(&self) -> (n: usize)
        ensures
            n == self.names@.len(),
    {
        self.names.len()
    }
}

/// Whether `row` is the projection of the given name, shape and cell
/// sequences: same order, same length, nulls kept at their positions.
pub open spec fn row_projects(
    names: Seq<String>,
    shapes: Seq<ColumnShape>,
    cells: Seq<Option<CellValue>>,
    row: SqlRow,
) -> bool {
    &&& row.names@ == names
    &&& row.shapes@ == shapes
    &&& row.values@ == cells
}

/// Whether the three input sequences can form a well-formed row.
pub open spec fn assemblable(
    names: Seq<String>,
    shapes: Seq<ColumnShape>,
    cells: Seq<Option<CellValue>>,
) -> bool {
    &&& names.len() == shapes.len()
    &&& names.len() == cells.len()
    &&& forall|i: int| 0 <= i < cells.len() ==> cell_matches(#[trigger] cells[i], shapes[i])
}

/// What a row-assembly error says of the input it came from: a length
/// mismatch reports unequal sequence lengths, a shape mismatch points at the
/// first cell whose payload does not have its column's shape.
pub open spec fn error_explains(
    e: ProjectionError,
    n_names: nat,
    shapes: Seq<ColumnShape>,
    cells: Seq<Option<CellValue>>,
) -> bool {
    match e {
        ProjectionError::LengthMismatch => n_names != shapes.len() || n_names != cells.len(),
        ProjectionError::ShapeMismatch { index } => {
            &&& n_names == shapes.len() && n_names == cells.len()
            &&& index < cells.len()
            &&& !cell_matches(cells[index as int], shapes[index as int])
            &&& forall|j: int| 0 <= j < index ==> cell_matches(#[trigger] cells[j], shapes[j])
        },
        ProjectionError::UnsupportedType { .. } => false,
    }
}

/// Assembles one projected row from its three parallel sequences, in order.
///
/// Succeeds if and only if the sequences have one common length and every
/// non-null cell has its column's shape. On success the row holds exactly the
/// given sequences, so a null cell stays an explicit null entry at its
/// position. A mismatch aborts the whole row with the index of the first
/// offending cell.
pub fn assemble_row(
    names: Vec<String>,
    shapes: Vec<ColumnShape>,
    cells: Vec<Option<CellValue>>,
) -> (r: Result<SqlRow, ProjectionError>)
    ensures
        r is Ok <==> assemblable(names@, shapes@, cells@),
        r matches Ok(row) ==> row_projects(names@, shapes@, cells@, row) && row.wf(),
        r matches Err(e) ==> error_explains(e, names@.len(), shapes@, cells@),
{
    if names.len() != shapes.len() || names.len() != cells.len() {
        return Err(ProjectionError::LengthMismatch);
    }
    let mut i: usize = 0;
    while i < cells.len()
        invariant
            i <= cells@.len(),
            forall|j: int| 0 <= j < i ==> cell_matches(#[trigger] cells@[j], shapes@[j]),
            names@.len() == shapes@.len(),
            names@.len() == cells@.len(),
        decreases cells@.len() - i,
    {
        let ok = match &cells[i] {
            None => true,
            Some(c) => {
                let s = c.shape();
                s == shapes[i]
            },
        };
        if !ok {
            return Err(ProjectionError::ShapeMismatch { index: i });
        }
        i = i + 1;
    }
    Ok(SqlRow { names, values: cells, shapes })
}

/// Whether every row of a result set can be assembled against one shared
/// column plan.
pub open spec fn result_assemblable(
    names: Seq<String>,
    shapes: Seq<ColumnShape>,
    cells_per_row: Seq<Seq<Option<CellValue>>>,
) -> bool {
    forall|k: int|
        0 <= k < cells_per_row.len() ==> assemblable(names, shapes, #[trigger] cells_per_row[k])
}

/// The cell sequences of a result set, one per row.
pub open spec fn cell_views(cells_per_row: Seq<Vec<Option<CellValue>>>) -> Seq<
    Seq<Option<CellValue>>,
> {
    cells_per_row.map_values(|c: Vec<Option<CellValue>>| c@)
}

/// Projects a whole result set against one shared column plan, eagerly, in
/// row delivery order.
///
/// Succeeds if and only if every row can be assembled: one common column
/// count and shape-correct cells. Every returned row then carries the same
/// names and the same type descriptors, so the per-row length invariant
/// holds uniformly across the result set, and each row's values are exactly
/// that row's cells with nulls kept in place. The first row that cannot be
/// assembled aborts the entire projection.
#[verifier::loop_isolation(false)]
pub fn project_result(
    names: &Vec<String>,
    shapes: &Vec<ColumnShape>,
    cells_per_row: Vec<Vec<Option<CellValue>>>,
) -> (r: Result<Vec<SqlRow>, ProjectionError>)
    ensures
        r is Ok <==> result_assemblable(names@, shapes@, cell_views(cells_per_row@)),
        r matches Ok(rows) ==> {
            &&& rows@.len() == cells_per_row@.len()
            &&& forall|k: int|
                0 <= k < rows@.len() ==> {
                    &&& (#[trigger] rows@[k]).wf()
                    &&& rows@[k].names.deep_view() == names.deep_view()
                    &&& rows@[k].shapes@ == shapes@
                    &&& rows@[k].values@ == cells_per_row@[k]@
                    &&& rows@[k].names@.len() == names@.len()
                }
        },
        r matches Err(e) ==> exists|k: int|
            {
                &&& 0 <= k < cells_per_row@.len()
                &&& !assemblable(names@, shapes@, (#[trigger] cells_per_row@[k])@)
                &&& forall|j: int|
                    0 <= j < k ==> assemblable(names@, shapes@, (#[trigger] cells_per_row@[j])@)
                &&& error_explains(e, names@.len(), shapes@, cells_per_row@[k]@)
            },
{
    let mut rows: Vec<SqlRow> = Vec::new();
    let ghost all_cells = cells_per_row@;
    let mut remaining = cells_per_row;
    let total: usize = remaining.len();
    let mut k: usize = 0;
    while remaining.len() > 0
        invariant
            all_cells.len() == total,
            k + remaining@.len() == all_cells.len(),
            remaining@ == all_cells.skip(k as int),
            rows@.len() == k,
            forall|j: int|
                0 <= j < k ==> assemblable(names@, shapes@, (#[trigger] all_cells[j])@),
            forall|j: int|
                0 <= j < k ==> {
                    &&& (#[trigger] rows@[j]).wf()
                    &&& rows@[j].names.deep_view() == names.deep_view()
                    &&& rows@[j].shapes@ == shapes@
                    &&& rows@[j].values@ == all_cells[j]@
                    &&& rows@[j].names@.len() == names@.len()
                },
        decreases remaining@.len(),
    {
        let cells = remaining.remove(0);
        proof {
            assert(cells == all_cells[k as int]);
        }
        let names_k = names.clone();
        let shapes_k = shapes.clone();
        proof {
            assert(names_k.deep_view() =~= names.deep_view());
            assert(names_k@.len() == names@.len());
            assert(shapes_k@ =~= shapes@);
        }
        match assemble_row(names_k, shapes_k, cells) {
            Ok(row) => {
                rows.push(row);
            },
            Err(e) => {
                proof {
                    let ki = k as int;
                    let mapped = cell_views(all_cells);
                    assert(mapped[ki] == all_cells[ki]@);
                    assert(!assemblable(names@, shapes@, mapped[ki]));
                    assert(!result_assemblable(names@, shapes@, mapped));
                    assert forall|j: int| 0 <= j < ki implies assemblable(
                        names@,
                        shapes@,
                        (#[trigger] all_cells[j])@,
                    ) by {}
                    assert({
                        &&& 0 <= ki < all_cells.len()
                        &&& !assemblable(names@, shapes@, all_cells[ki]@)
                        &&& forall|j: int|
                            0 <= j < ki ==> assemblable(names@, shapes@, (#[trigger] all_cells[j])@)
                        &&& error_explains(e, names@.len(), shapes@, all_cells[ki]@)
                    });
                }
                return Err(e);
            },
        }
        k = k + 1;
        proof {
            assert(remaining@ =~= all_cells.skip(k as int));
        }
    }
    proof {
        let mapped = cell_views(all_cells);
        assert forall|j: int| 0 <= j < mapped.len() implies assemblable(
            names@,
            shapes@,
            #[trigger] mapped[j],
        ) by {
            assert(mapped[j] == all_cells[j]@);
        }
    }
    Ok(rows)
}

/// Projection is deterministic: assembling the same backend row twice yields
/// identical name, value and type sequences.
pub proof fn lemma_projection_idempotent(
    names: Seq<String>,
    shapes: Seq<ColumnShape>,
    cells: Seq<Option<CellValue>>,
    r1: SqlRow,
    r2: SqlRow,
)
    requires
        row_projects(names, shapes, cells, r1),
        row_projects(names, shapes, cells, r2),
    ensures
        r1.names@ == r2.names@,
        r1.shapes@ == r2.shapes@,
        r1.values@ == r2.values@,
{
}

/// A SQL NULL projects to an explicit null entry at its position, never an
/// omitted column, and the three sequences of a projected row keep one common
/// length.
pub proof fn lemma_null_kept_in_place(
    names: Seq<String>,
    shapes: Seq<ColumnShape>,
    cells: Seq<Option<CellValue>>,
    row: SqlRow,
    i: int,
)
    requires
        assemblable(names, shapes, cells),
        row_projects(names, shapes, cells, row),
        0 <= i < cells.len(),
        cells[i] is None,
    ensures
        row.values@[i] is None,
        row.values@.len() == row.names@.len(),
        row.shapes@.len() == row.names@.len(),
{
}

} // verus!
