//! What holds of every load, proved from the contracts of the stages.

use crate::assemble::holds;
use crate::engine::{table_partitions, table_schema};
use crate::error::LoadError;
use crate::loader::{assembles_as, loads_as};
use crate::partition::{contents, decoded, Opened, PartitionView};
use crate::reconcile::{
    batch_groups, contribution, inference_set, inferred_schema, resolved_schema,
};
use datafusion::arrow::datatypes::Schema;
use datafusion::datasource::MemTable;
use vstd::prelude::*;

verus! {

/// A partition without batches takes no part in the inference: the schema
/// inferred from the partitions is the schema inferred without it.
pub proof fn lemma_empty_partition_excluded(partitions: Seq<PartitionView>, at: int)
    requires
        0 <= at < partitions.len(),
        partitions[at].batches.len() == 0,
    ensures
        inference_set(partitions.remove(at)) == inference_set(partitions),
        inferred_schema(partitions.remove(at)) == inferred_schema(partitions),
    decreases partitions.len(),
{
    let without = partitions.remove(at);
    if at == partitions.len() - 1 {
        assert(without == partitions.drop_last());
    } else {
        assert(without.drop_last() == partitions.drop_last().remove(at));
        assert(without.last() == partitions.last());
        lemma_empty_partition_excluded(partitions.drop_last(), at);
    }
}

/// Partitions that all hold batches and all carry the same schema hand
/// that schema to the merge once for each of them.
pub proof fn lemma_shared_schema_inference(partitions: Seq<PartitionView>, schema: Schema)
    requires
        forall|i: int|
            0 <= i < partitions.len() ==> contribution(#[trigger] partitions[i]) == Some(schema),
    ensures
        inference_set(partitions) == Seq::new(partitions.len(), |i: int| schema),
    decreases partitions.len(),
{
    if partitions.len() > 0 {
        lemma_shared_schema_inference(partitions.drop_last(), schema);
        assert(contribution(partitions.last()) == Some(schema));
        assert(inference_set(partitions) =~= Seq::new(partitions.len(), |i: int| schema));
    }
}

/// An override decides the schema whatever the partitions hold: no merge is
/// made, so no conflict between partitions can fail the load, and a table
/// that is built has exactly the override as its schema.
pub proof fn lemma_override_precedence(
    table: Seq<char>,
    schema: Schema,
    partitions: Seq<PartitionView>,
    outcome: Result<MemTable, LoadError>,
)
    requires
        assembles_as(table, Some(schema), partitions, outcome),
    ensures
        resolved_schema(Some(schema), inference_set(partitions)) == Some(schema),
        outcome is Ok ==> table_schema(outcome->Ok_0) == schema,
        outcome is Err ==> outcome->Err_0 is TableConstruction,
{
}

/// A table that is built has one partition for each file, in the order in
/// which the files were given, and partition `i` holds the batches of file
/// `i` in file order.
pub proof fn lemma_order_preserved(
    table: Seq<char>,
    schema_override: Option<Schema>,
    sources: Seq<Opened>,
    outcome: Result<MemTable, LoadError>,
)
    requires
        loads_as(table, schema_override, sources, outcome),
        outcome is Ok,
    ensures
        table_partitions(outcome->Ok_0).len() == sources.len(),
        forall|i: int|
            0 <= i < sources.len() ==> (#[trigger] table_partitions(outcome->Ok_0)[i]) == decoded(
                sources[i],
            ).batches,
{
    let partitions = contents(sources);
    assert(holds(outcome->Ok_0, resolved_schema(schema_override, inference_set(partitions))->0,
        batch_groups(partitions)));
}

/// Where the schemas of the contributing partitions do not merge and no
/// override is given, the load fails with a merge conflict that names the
/// table, and builds no table.
pub proof fn lemma_conflict_fails_load(
    table: Seq<char>,
    partitions: Seq<PartitionView>,
    outcome: Result<MemTable, LoadError>,
)
    requires
        inferred_schema(partitions) is None,
        assembles_as(table, None, partitions, outcome),
    ensures
        outcome is Err,
        outcome->Err_0 matches LoadError::SchemaMerge { table: name, .. } && name@ == table,
{
}

} // verus!
