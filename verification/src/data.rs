use vstd::prelude::*;

use crate::cells::{cell_matches_type, CellValue, ColumnType};

verus! {

/// One column of a result schema: its name and its scalar type.
#[derive(Clone, Debug)]
pub struct Field {
    pub name: String,
    pub ty: ColumnType,
}

/// One columnar group of rows returned by the engine, all sharing `schema`.
#[derive(Clone, Debug)]
pub struct Batch {
    pub schema: Vec<Field>,
    pub rows: Vec<Vec<CellValue>>,
}

/// The rows most recently retrieved from the engine, as an ordered sequence
/// of batches that all share one schema.  It is replaced wholesale on every
/// successful query and never partially mutated.
#[derive(Clone, Debug)]
pub struct ResultSet {
    pub batches: Vec<Batch>,
}

/// The diagnostic message of a failed prepare or execution step inside the
/// query engine, as a sequence of scalar values.
#[derive(Clone, Debug)]
pub struct EngineError {
    pub message: Vec<char>,
}

/// Whether two schemas agree column by column, in name and in type.
pub open spec fn schemas_match(a: Seq<Field>, b: Seq<Field>) -> bool {
    &&& a.len() == b.len()
    &&& forall|i: int|
        0 <= i < a.len() ==> (#[trigger] a[i]).name@ == b[i].name@ && a[i].ty == b[i].ty
}

/// Whether every row of a batch is aligned to its schema: same number of
/// cells, each cell matching its column's type.
pub open spec fn batch_wf(schema: Seq<Field>, rows: Seq<Vec<CellValue>>) -> bool {
    forall|r: int|
        0 <= r < rows.len() ==> {
            &&& (#[trigger] rows[r])@.len() == schema.len()
            &&& forall|c: int|
                0 <= c < rows[r]@.len() ==> cell_matches_type(#[trigger] rows[r]@[c], schema[c].ty)
        }
}

impl Batch {
    /// The rows aligned to the schema, cell by cell.
    pub open spec fn wf(self) -> bool {
        batch_wf(self.schema@, self.rows@)
    }

    /// Builds a batch after checking that every row is aligned to the
    /// schema; a misaligned input yields `None` rather than a batch that
    /// breaks the invariant.
    pub fn new(schema: Vec<Field>, rows: Vec<Vec<CellValue>>) -> (r: Option<Batch>)
        ensures
            r is Some <==> batch_wf(schema@, rows@),
            r is Some ==> r->0.schema == schema && r->0.rows == rows,
    {
        let mut i: usize = 0;
        while i < rows.len()
            invariant
                i <= rows@.len(),
                forall|r: int|
                    0 <= r < i ==> {
                        &&& (#[trigger] rows@[r])@.len() == schema@.len()
                        &&& forall|c: int|
                            0 <= c < rows@[r]@.len() ==> cell_matches_type(
                                #[trigger] rows@[r]@[c],
                                schema@[c].ty,
                            )
                    },
            decreases rows@.len() - i,
        {
            if !row_aligned(&rows[i], &schema) {
                return None;
            }
            i = i + 1;
        }
        Some(Batch { schema, rows })
    }
}

/// Checks one row against a schema: cell count and cell types.
fn row_aligned(row: &Vec<CellValue>, schema: &Vec<Field>) -> (r: bool)
    ensures
        r <==> (row@.len() == schema@.len() && forall|c: int|
            0 <= c < row@.len() ==> cell_matches_type(#[trigger] row@[c], schema@[c].ty)),
{
    if row.len() != schema.len() {
        return false;
    }
    let mut c: usize = 0;
    while c < row.len()
        invariant
            c <= row@.len(),
            row@.len() == schema@.len(),
            forall|j: int| 0 <= j < c ==> cell_matches_type(#[trigger] row@[j], schema@[j].ty),
        decreases row@.len() - c,
    {
        if !cell_has_type(&row[c], schema[c].ty) {
            return false;
        }
        c = c + 1;
    }
    true
}

/// Checks one cell against a column type.
fn cell_has_type(c: &CellValue, t: ColumnType) -> (r: bool)
    ensures
        r == cell_matches_type(*c, t),
{
    match c {
        CellValue::Null => true,
        CellValue::Integer(_) => t == ColumnType::Integer,
        CellValue::Text(_) => t == ColumnType::Text,
        CellValue::Boolean(_) => t == ColumnType::Boolean,
        CellValue::Unsupported => t == ColumnType::Unsupported,
    }
}

/// Compares two schemas column by column.
pub fn schema_eq(a: &Vec<Field>, b: &Vec<Field>) -> (r: bool)
    ensures
        r == schemas_match(a@, b@),
{
    if a.len() != b.len() {
        return false;
    }
    let mut i: usize = 0;
    while i < a.len()
        invariant
            i <= a@.len(),
            a@.len() == b@.len(),
            forall|j: int|
                0 <= j < i ==> (#[trigger] a@[j]).name@ == b@[j].name@ && a@[j].ty == b@[j].ty,
        decreases a@.len() - i,
    {
        if !(a[i].name == b[i].name) || !(a[i].ty == b[i].ty) {
            return false;
        }
        i = i + 1;
    }
    true
}

impl ResultSet {
    /// Every batch is internally aligned, and all batches share the schema
    /// of the first one.
    pub open spec fn wf(self) -> bool {
        forall|i: int|
            0 <= i < self.batches@.len() ==> (#[trigger] self.batches@[i]).wf()
                && schemas_match(self.batches@[i].schema@, self.batches@[0].schema@)
    }

    /// The result set before any query has succeeded: no batches at all.
    pub fn empty() -> (r: ResultSet)
        ensures
            r.batches@.len() == 0,
            r.wf(),
    {
        ResultSet { batches: Vec::new() }
    }

    /// Builds a result set after checking that each batch is aligned and
    /// that all batches share one schema; anything else yields `None`.
    pub fn new(batches: Vec<Batch>) -> (r: Option<ResultSet>)
        ensures
            r is Some <==> (ResultSet { batches }).wf(),
            r is Some ==> r->0.batches == batches,
    {
        let mut i: usize = 0;
        while i < batches.len()
            invariant
                i <= batches@.len(),
                forall|j: int|
                    0 <= j < i ==> (#[trigger] batches@[j]).wf()
                        && schemas_match(batches@[j].schema@, batches@[0].schema@),
            decreases batches@.len() - i,
        {
            if !batch_is_wf(&batches[i]) {
                proof {
                    let rs = ResultSet { batches };
                    assert(!rs.batches@[i as int].wf());
                    assert(!rs.wf());
                }
                return None;
            }
            if !schema_eq(&batches[i].schema, &batches[0].schema) {
                proof {
                    let rs = ResultSet { batches };
                    assert(!schemas_match(rs.batches@[i as int].schema@, rs.batches@[0].schema@));
                    assert(!rs.wf());
                }
                return None;
            }
            i = i + 1;
        }
        Some(ResultSet { batches })
    }
}

/// Checks that every row of a batch is aligned to its schema.
fn batch_is_wf(b: &Batch) -> (r: bool)
    ensures
        r == b.wf(),
{
    let mut i: usize = 0;
    while i < b.rows.len()
        invariant
            i <= b.rows@.len(),
            forall|r: int|
                0 <= r < i ==> {
                    &&& (#[trigger] b.rows@[r])@.len() == b.schema@.len()
                    &&& forall|c: int|
                        0 <= c < b.rows@[r]@.len() ==> cell_matches_type(
                            #[trigger] b.rows@[r]@[c],
                            b.schema@[c].ty,
                        )
                },
        decreases b.rows@.len() - i,
    {
        if !row_aligned(&b.rows[i], &b.schema) {
            return false;
        }
        i = i + 1;
    }
    true
}

} // verus!
