use std::io::Cursor;
use std::sync::Arc;

use arrow_ipc_table::error::LoadError;
use arrow_ipc_table::loader::to_mem_table;
use arrow_ipc_table::partition::Opened;
use datafusion::arrow::array::{ArrayRef, Int64Array, StringArray};
use datafusion::arrow::datatypes::{DataType, Field, Schema};
use datafusion::arrow::ipc::reader::FileReader;
use datafusion::arrow::ipc::writer::FileWriter;
use datafusion::arrow::record_batch::RecordBatch;
use datafusion::datasource::{MemTable, TableProvider};

fn cities_schema() -> Schema {
    Schema::new(vec![
        Field::new("name", DataType::Utf8, false),
        Field::new("population", DataType::Int64, false),
    ])
}

fn cities(rows: usize, first: usize) -> RecordBatch {
    let names: Vec<String> = (first..first + rows).map(|i| format!("city-{i}")).collect();
    let populations: Vec<i64> = (first..first + rows).map(|i| 1000 * i as i64).collect();
    let columns: Vec<ArrayRef> =
        vec![Arc::new(StringArray::from(names)), Arc::new(Int64Array::from(populations))];
    RecordBatch::try_new(Arc::new(cities_schema()), columns).unwrap()
}

fn ipc_file(schema: &Schema, batches: &[RecordBatch]) -> Vec<u8> {
    let mut writer = FileWriter::try_new(Vec::new(), schema).unwrap();
    for batch in batches {
        writer.write(batch).unwrap();
    }
    writer.into_inner().unwrap()
}

fn open(files: Vec<Vec<u8>>) -> Vec<Opened> {
    files.into_iter().map(|bytes| FileReader::try_new(Cursor::new(bytes), None)).collect()
}

fn cities_file(rows: usize) -> Vec<u8> {
    ipc_file(&cities_schema(), &[cities(rows, 0)])
}

fn partition_rows(table: &MemTable) -> Vec<Vec<usize>> {
    table
        .batches
        .iter()
        .map(|p| p.try_read().unwrap().iter().map(|b| b.num_rows()).collect())
        .collect()
}

fn total_rows(table: &MemTable) -> usize {
    partition_rows(table).iter().flatten().sum()
}

#[test]
fn load_partitions() {
    let sources = vec![cities_file(37), cities_file(37), cities_file(37)];
    let t = to_mem_table("uk_cities", None, open(sources)).unwrap();

    assert_eq!(t.batches.len(), 3);
    assert_eq!(partition_rows(&t), vec![vec![37], vec![37], vec![37]]);
    assert_eq!(total_rows(&t), 37 * 3);
    assert_eq!(t.schema().as_ref(), &cities_schema());
}

#[test]
fn load_file() {
    let t = to_mem_table("uk_cities", None, open(vec![cities_file(37)])).unwrap();

    assert_eq!(t.batches.len(), 1);
    assert_eq!(total_rows(&t), 37);
    assert_eq!(t.schema().as_ref(), &cities_schema());
}

#[test]
fn empty_partition_keeps_its_slot_and_contributes_no_schema() {
    // The empty partition carries a schema that would not merge with the
    // other one, were it taken into account.
    let odd = Schema::new(vec![Field::new("name", DataType::Int64, false)]);
    let sources = vec![ipc_file(&odd, &[]), cities_file(37)];
    let t = to_mem_table("uk_cities", None, open(sources)).unwrap();

    assert_eq!(t.schema().as_ref(), &cities_schema());
    assert_eq!(partition_rows(&t), vec![vec![], vec![37]]);
}

#[test]
fn inferred_schema_is_the_same_without_the_empty_partition() {
    let odd = Schema::new(vec![Field::new("name", DataType::Int64, false)]);
    let with =
        to_mem_table("t", None, open(vec![cities_file(5), ipc_file(&odd, &[]), cities_file(7)]))
            .unwrap();
    let without = to_mem_table("t", None, open(vec![cities_file(5), cities_file(7)])).unwrap();

    assert_eq!(with.schema(), without.schema());
    assert_eq!(partition_rows(&with), vec![vec![5], vec![], vec![7]]);
    assert_eq!(partition_rows(&without), vec![vec![5], vec![7]]);
}

#[test]
fn override_omitting_a_field_is_used_verbatim() {
    // Every partition embeds both fields; the override names only one.
    let narrow = Schema::new(vec![Field::new("name", DataType::Utf8, false)]);
    let sources = vec![ipc_file(&cities_schema(), &[]), ipc_file(&cities_schema(), &[])];
    let t = to_mem_table("uk_cities", Some(narrow.clone()), open(sources)).unwrap();

    assert_eq!(t.schema().as_ref(), &narrow);
    assert_eq!(partition_rows(&t), vec![Vec::<usize>::new(), Vec::new()]);
}

#[test]
fn override_that_the_engine_turns_down_is_no_merge_error() {
    let narrow = Schema::new(vec![Field::new("name", DataType::Utf8, false)]);
    let failed = to_mem_table("uk_cities", Some(narrow), open(vec![cities_file(37)])).unwrap_err();

    assert!(matches!(failed, LoadError::TableConstruction { .. }));
    assert_eq!(failed.table(), "uk_cities");
}

#[test]
fn override_wins_over_conflicting_partition_schemas() {
    let text = Schema::new(vec![Field::new("v", DataType::Utf8, false)]);
    let number = Schema::new(vec![Field::new("v", DataType::Int64, false)]);
    let wide = Schema::new(vec![
        Field::new("a", DataType::Boolean, true),
        Field::new("b", DataType::Boolean, true),
    ]);
    let sources = vec![ipc_file(&text, &[]), ipc_file(&number, &[])];
    let t = to_mem_table("t", Some(wide.clone()), open(sources)).unwrap();

    assert_eq!(t.schema().as_ref(), &wide);
    assert_eq!(t.batches.len(), 2);
}

#[test]
fn partitions_and_batches_keep_their_order() {
    let schema = cities_schema();
    let sources = vec![
        ipc_file(&schema, &[cities(1, 0), cities(2, 10)]),
        ipc_file(&schema, &[]),
        ipc_file(&schema, &[cities(3, 20)]),
        ipc_file(&schema, &[cities(4, 30), cities(5, 40), cities(6, 50)]),
    ];
    let t = to_mem_table("t", None, open(sources)).unwrap();

    assert_eq!(partition_rows(&t), vec![vec![1, 2], vec![], vec![3], vec![4, 5, 6]]);
    let second = t.batches[0].try_read().unwrap()[1].clone();
    assert_eq!(second, cities(2, 10));
    let last = t.batches[3].try_read().unwrap()[2].clone();
    assert_eq!(last, cities(6, 50));
}

#[test]
fn conflicting_field_types_fail_the_load() {
    let number = Schema::new(vec![Field::new("name", DataType::Int64, false)]);
    let ids: Vec<ArrayRef> = vec![Arc::new(Int64Array::from(vec![1, 2, 3]))];
    let numbers = RecordBatch::try_new(Arc::new(number.clone()), ids).unwrap();
    let sources = vec![cities_file(37), ipc_file(&number, &[numbers])];
    let failed = to_mem_table("uk_cities", None, open(sources)).unwrap_err();

    match failed {
        LoadError::SchemaMerge { table, source } => {
            assert_eq!(table, "uk_cities");
            assert!(source.to_string().contains("name"));
        }
        other => panic!("expected a merge conflict, got {other:?}"),
    }
}

#[test]
fn differing_partition_schemas_are_widened() {
    let left = Schema::new(vec![Field::new("c1", DataType::Int64, false)]);
    let right = Schema::new(vec![
        Field::new("c1", DataType::Int64, true),
        Field::new("c2", DataType::Utf8, true),
    ]);
    let ones: Vec<ArrayRef> = vec![Arc::new(Int64Array::from(vec![1]))];
    let sources = vec![
        ipc_file(&left, &[RecordBatch::try_new(Arc::new(left.clone()), ones).unwrap()]),
        ipc_file(&right, &[]),
    ];
    // Only the first partition holds a batch, so only its schema is inferred.
    let t = to_mem_table("t", None, open(sources)).unwrap();
    assert_eq!(t.schema().as_ref(), &left);
}

#[test]
fn garbage_fails_with_a_decode_error() {
    let failed = to_mem_table("t", None, open(vec![vec![1, 2, 3, 4, 5, 6, 7, 8, 9, 10, 11, 12]]))
        .unwrap_err();

    assert!(matches!(failed, LoadError::Decode { partition: 0, .. }));
    assert_eq!(failed.table(), "t");
}

#[test]
fn first_bad_partition_is_reported() {
    let mut truncated = cities_file(37);
    truncated.truncate(truncated.len() / 2);
    let sources = vec![cities_file(37), truncated, vec![0u8; 4], cities_file(37)];
    let failed = to_mem_table("uk_cities", None, open(sources)).unwrap_err();

    match failed {
        LoadError::Decode { table, partition, .. } => {
            assert_eq!(table, "uk_cities");
            assert_eq!(partition, 1);
        }
        other => panic!("expected a decode error, got {other:?}"),
    }
}

#[test]
fn bad_partition_fails_the_load_even_with_an_override() {
    let sources = vec![cities_file(37), Vec::new()];
    let failed = to_mem_table("t", Some(cities_schema()), open(sources)).unwrap_err();

    assert!(matches!(failed, LoadError::Decode { partition: 1, .. }));
}

#[test]
fn partitions_without_batches_give_the_schema_without_fields() {
    let sources = vec![ipc_file(&cities_schema(), &[]), ipc_file(&cities_schema(), &[])];
    let t = to_mem_table("t", None, open(sources)).unwrap();

    assert_eq!(t.schema().fields().len(), 0);
    assert_eq!(t.schema().as_ref(), &Schema::empty());
    assert_eq!(partition_rows(&t), vec![Vec::<usize>::new(), Vec::new()]);
}

#[test]
fn no_partitions_are_turned_down_by_the_engine() {
    let failed = to_mem_table("t", None, Vec::new()).unwrap_err();

    assert!(matches!(failed, LoadError::TableConstruction { .. }));
    assert_eq!(failed.table(), "t");
}
