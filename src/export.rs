//! Planning the hand-off of columnar batches of one kind to an analytics
//! runtime: every batch becomes one chunk under the schema of the first.

use vstd::prelude::*;
use crate::query::names;

verus! {

/// What the hand-off produces.
#[derive(Debug, Clone, Copy, PartialEq, Eq, Structural)]
pub enum ExportPlan {
    /// There are no batches, so there is no table; this is not an error.
    NoTable,
    /// One table of `chunks` chunks, one per batch, in arrival order.
    Table { chunks: usize },
}

/// A batch whose columns do not fit the unified schema.
#[derive(Debug, Clone, Copy, PartialEq, Eq, Structural)]
pub struct SchemaMismatchError {
    /// The position of the first such batch.
    pub batch: usize,
}

/// Whether a batch's column types are those of the schema, in order.
pub open spec fn fits(schema: Seq<String>, columns: Seq<String>) -> bool {
    names(columns) == names(schema)
}

fn same_types(schema: &Vec<String>, columns: &Vec<String>) -> (r: bool)
    ensures
        r == fits(schema@, columns@),
{
    if schema.len() != columns.len() {
        assert(names(columns@).len() != names(schema@).len());
        return false;
    }
    let mut i: usize = 0;
    while i < schema.len()
        invariant
            i <= schema@.len(),
            schema@.len() == columns@.len(),
            forall|j: int| 0 <= j < i ==> (#[trigger] schema@[j])@ == columns@[j]@,
        decreases schema@.len() - i,
    {
        if schema[i] != columns[i] {
            assert(names(columns@)[i as int] != names(schema@)[i as int]);
            return false;
        }
        i = i + 1;
    }
    assert(names(columns@) =~= names(schema@));
    true
}

/// Plans the export of the batches of one kind. `schema` holds the column
/// types of the unified schema (that of the first batch) and `batches` the
/// column types of each batch. No batches give no table; a batch whose column
/// count or types differ from the schema fails the export; otherwise every
/// batch becomes one chunk, in order.
pub fn plan_export(schema: &Vec<String>, batches: &Vec<Vec<String>>) -> (r: Result<
    ExportPlan,
    SchemaMismatchError,
>)
    ensures
        batches@.len() == 0 ==> r == Ok::<ExportPlan, SchemaMismatchError>(ExportPlan::NoTable),
        r matches Err(e) ==> e.batch < batches@.len() && !fits(schema@, batches@[e.batch as int]@)
            && forall|j: int| 0 <= j < e.batch ==> fits(schema@, (#[trigger] batches@[j])@),
        r is Ok <==> forall|j: int|
            0 <= j < batches@.len() ==> fits(schema@, (#[trigger] batches@[j])@),
        batches@.len() > 0 && r is Ok ==> r == Ok::<ExportPlan, SchemaMismatchError>(
            ExportPlan::Table { chunks: batches@.len() as usize },
        ),
{
    if batches.len() == 0 {
        return Ok(ExportPlan::NoTable);
    }
    let mut i: usize = 0;
    while i < batches.len()
        invariant
            i <= batches@.len(),
            forall|j: int| 0 <= j < i ==> fits(schema@, (#[trigger] batches@[j])@),
        decreases batches@.len() - i,
    {
        if !same_types(schema, &batches[i]) {
            return Err(SchemaMismatchError { batch: i });
        }
        i = i + 1;
    }
    Ok(ExportPlan::Table { chunks: batches.len() })
}

} // verus!
