//! Deciding the one schema of the table.
//!
//! A schema supplied by the user is taken as it is. Without one, the schema
//! is the merge of the schemas of the partitions that hold at least one
//! batch; a partition without batches contributes nothing.

use crate::columnar::{empty_schema, field_names, merge_schemas, merged, Batch};
use crate::engine::group_views;
use crate::error::LoadError;
use crate::partition::{views, Partition, PartitionView};
use datafusion::arrow::datatypes::Schema;
use datafusion::arrow::error::ArrowError;
use vstd::prelude::*;

verus! {

/// The schema that a partition brings to the inference: its own, where it
/// holds at least one batch, and none otherwise.
pub open spec fn contribution(partition: PartitionView) -> Option<Schema> {
    if partition.batches.len() > 0 {
        partition.schema
    } else {
        None
    }
}

/// The schemas that the inference merges, in partition order.
pub open spec fn inference_set(partitions: Seq<PartitionView>) -> Seq<Schema> {
    partitions.filter_map(|p: PartitionView| contribution(p))
}

/// The batches of each partition, in partition order; a partition without
/// batches keeps its place.
pub open spec fn batch_groups(partitions: Seq<PartitionView>) -> Seq<Seq<Batch>> {
    partitions.map_values(|p: PartitionView| p.batches)
}

/// The schema inferred from the partitions, or `None` where the schemas of
/// the contributing partitions do not merge.
pub open spec fn inferred_schema(partitions: Seq<PartitionView>) -> Option<Schema> {
    merged(inference_set(partitions))
}

/// The schema of the table: the override where there is one, and the
/// inferred schema otherwise; `None` where the inference meets a conflict.
pub open spec fn resolved_schema(schema_override: Option<Schema>, contributing: Seq<Schema>) -> Option<
    Schema,
> {
    match schema_override {
        Some(schema) => Some(schema),
        None => merged(contributing),
    }
}

/// `error` reports, for the load of `table`, that the schemas of the
/// contributing partitions do not merge.
pub open spec fn reports_conflict(table: Seq<char>, error: LoadError) -> bool {
    &&& error matches LoadError::SchemaMerge { table: name, .. }
    &&& name@ == table
}

/// `outcome` is what the resolution `resolved` means for the load of `table`:
/// the schema itself, or a merge conflict that names the table.
pub open spec fn reports(table: Seq<char>, resolved: Option<Schema>, outcome: Result<Schema, LoadError>) -> bool {
    match resolved {
        Some(schema) => outcome is Ok && outcome->Ok_0 == schema,
        None => outcome is Err && reports_conflict(table, outcome->Err_0),
    }
}

/// Partitions that hold no batch contribute no schema.
pub proof fn lemma_no_batches_no_inference(partitions: Seq<PartitionView>)
    requires
        forall|i: int| 0 <= i < partitions.len() ==> (#[trigger] partitions[i]).batches.len() == 0,
    ensures
        inference_set(partitions).len() == 0,
    decreases partitions.len(),
{
    if partitions.len() > 0 {
        lemma_no_batches_no_inference(partitions.drop_last());
        assert(contribution(partitions.last()) is None);
    }
}

/// Parts the partitions into the schemas that contribute to the inference
/// and the batches of every partition, both in partition order.
pub fn split_partitions(partitions: Vec<Partition>) -> (parts: (Vec<Schema>, Vec<Vec<Batch>>))
    ensures
        parts.0@ == inference_set(views(partitions@)),
        parts.1@.len() == partitions@.len(),
        group_views(parts.1@) == batch_groups(views(partitions@)),
{
    let mut contributing: Vec<Schema> = Vec::new();
    let mut groups: Vec<Vec<Batch>> = Vec::new();
    for partition in it: partitions.into_iter()
        invariant
            it.seq() == partitions@,
            contributing@ == inference_set(views(partitions@).take(it.index() as int)),
            groups@.len() == it.index(),
            forall|i: int| 0 <= i < it.index() ==> (#[trigger] groups@[i])@ == partitions@[i].batches@,
    {
        proof {
            views(partitions@).lemma_filter_map_take_succ(
                |p: PartitionView| contribution(p),
                it.index() as int,
            );
        }
        let Partition { schema, batches } = partition;
        if batches.len() > 0 {
            match schema {
                Some(schema) => contributing.push(schema),
                None => {},
            }
        }
        groups.push(batches);
    }
    proof {
        assert(views(partitions@).take(partitions@.len() as int) == views(partitions@));
        assert(group_views(groups@) =~= batch_groups(views(partitions@)));
    }
    (contributing, groups)
}

/// Turns the outcome of a merge into the outcome of the load: a conflict
/// between two partitions becomes a failure of the whole table.
pub fn schema_from_merge(table: &str, outcome: Result<Schema, ArrowError>) -> (reported: Result<
    Schema,
    LoadError,
>)
    ensures
        outcome is Ok ==> reported is Ok && reported->Ok_0 == outcome->Ok_0,
        outcome is Err ==> reported is Err && reports_conflict(table@, reported->Err_0)
            && reported->Err_0->SchemaMerge_source == outcome->Err_0,
{
    match outcome {
        Ok(schema) => Ok(schema),
        Err(source) => Err(LoadError::SchemaMerge { table: table.to_owned(), source }),
    }
}

/// Decides the schema of the table from the override and the contributing
/// schemas. An override is returned as it is, whatever the partitions hold.
/// Without one the contributing schemas are merged; where nothing
/// contributes, the schema is the one without fields.
pub fn resolve_schema(
    table: &str,
    schema_override: Option<Schema>,
    contributing: Vec<Schema>,
) -> (resolved: Result<Schema, LoadError>)
    ensures
        reports(table@, resolved_schema(schema_override, contributing@), resolved),
        schema_override is None && contributing@.len() == 0 ==> resolved is Ok && field_names(
            resolved->Ok_0,
        ).len() == 0,
{
    match schema_override {
        Some(schema) => Ok(schema),
        None => {
            if contributing.len() == 0 {
                assert(contributing@ == Seq::<Schema>::empty());
                Ok(empty_schema())
            } else {
                schema_from_merge(table, merge_schemas(contributing))
            }
        },
    }
}

} // verus!
