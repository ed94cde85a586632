//! The query engine's in-memory table and the call that builds it.
//!
//! Nothing in this module is proved. Each item states, in its contract, what
//! the loader takes on trust from the engine.

use crate::columnar::Batch;
use datafusion::arrow::datatypes::Schema;
use datafusion::datasource::MemTable;
use datafusion::error::DataFusionError;
use std::sync::Arc;
use vstd::prelude::*;

verus! {

/// The engine's in-memory table: one schema and partitions of record batches.
#[verifier::external_type_specification]
#[verifier::external_body]
pub struct ExMemTable(MemTable);

/// The error type of the engine.
#[verifier::external_type_specification]
#[verifier::external_body]
pub struct ExDataFusionError(DataFusionError);

/// The schema that a table was built with.
pub uninterp spec fn table_schema(table: MemTable) -> Schema;

/// The batches that a table was built with: partition-major, batch-minor.
pub uninterp spec fn table_partitions(table: MemTable) -> Seq<Seq<Batch>>;

/// The batches of each group, as sequences.
pub open spec fn group_views(groups: Seq<Vec<Batch>>) -> Seq<Seq<Batch>> {
    groups.map_values(|group: Vec<Batch>| group@)
}

/// No group holds a batch.
pub open spec fn no_batches(groups: Seq<Seq<Batch>>) -> bool {
    forall|i: int| 0 <= i < groups.len() ==> (#[trigger] groups[i]).len() == 0
}

/// Whether `MemTable::try_new` accepts a schema together with partitions.
pub uninterp spec fn accepts(schema: Schema, partitions: Seq<Seq<Batch>>) -> bool;

/// `MemTable::try_new`: whether the pairing is accepted depends on the schema
/// and the batches alone. An accepted table holds the schema and the
/// partitions as they were given, in the given order. Without any partition
/// the call is turned down; with partitions that hold no batch at all there
/// is nothing to hold against the schema, and the call is accepted.
#[verifier::external_body]
pub(crate) fn build_table(schema: Schema, partitions: Vec<Vec<Batch>>) -> (built: Result<
    MemTable,
    DataFusionError,
>)
    ensures
        built is Ok <==> accepts(schema, group_views(partitions@)),
        built is Ok ==> table_schema(built->Ok_0) == schema,
        built is Ok ==> table_partitions(built->Ok_0) == group_views(partitions@),
        partitions@.len() == 0 ==> built is Err,
        partitions@.len() > 0 && no_batches(group_views(partitions@)) ==> built is Ok,
{
    let partitions = partitions.into_iter().map(|p| p.into_iter().map(|b| b.inner).collect());
    MemTable::try_new(Arc::new(schema), partitions.collect())
}

} // verus!
