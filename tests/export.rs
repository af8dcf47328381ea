use hyperfuel::export::{plan_export, ExportPlan, SchemaMismatchError};

fn cols(v: &[&str]) -> Vec<String> {
    v.iter().map(|s| s.to_string()).collect()
}

#[test]
fn export_of_no_batches_is_no_table() {
    assert_eq!(plan_export(&vec![], &vec![]), Ok(ExportPlan::NoTable));
    assert_eq!(plan_export(&cols(&["UInt64"]), &vec![]), Ok(ExportPlan::NoTable));
}

#[test]
fn export_makes_one_chunk_per_batch() {
    let schema = cols(&["UInt64", "Binary"]);
    let batches = vec![schema.clone(), schema.clone(), schema.clone()];
    assert_eq!(plan_export(&schema, &batches), Ok(ExportPlan::Table { chunks: 3 }));
}

#[test]
fn export_rejects_batch_with_other_columns() {
    let schema = cols(&["UInt64", "Binary"]);
    let batches = vec![schema.clone(), cols(&["UInt64"]), cols(&["Utf8", "Binary"])];
    assert_eq!(plan_export(&schema, &batches), Err(SchemaMismatchError { batch: 1 }));
    let batches = vec![schema.clone(), cols(&["UInt64", "Utf8"])];
    assert_eq!(plan_export(&schema, &batches), Err(SchemaMismatchError { batch: 1 }));
}
