//! The load of one table: read the partitions, decide the schema, build the
//! table.

use crate::assemble::{assemble_table, holds, reports_refusal};
use crate::columnar::field_names;
use crate::engine::{accepts, no_batches, table_schema};
use crate::error::LoadError;
use crate::partition::{
    all_readable, all_settle, contents, lemma_first_unreadable_excludes_all, load_partitions,
    reports_unreadable, views, Opened, Partition, PartitionView,
};
use crate::reconcile::{
    batch_groups, inference_set, lemma_no_batches_no_inference, reports_conflict, resolve_schema,
    resolved_schema, split_partitions,
};
use datafusion::arrow::datatypes::Schema;
use datafusion::datasource::MemTable;
use vstd::prelude::*;

verus! {

/// `outcome` is what the load of `table` from readable partitions gives: a
/// merge conflict where the schemas do not merge, the engine's refusal where
/// it turns the pairing down, and else the table of the resolved schema and
/// the batches of every partition in partition order.
pub open spec fn assembles_as(
    table: Seq<char>,
    schema_override: Option<Schema>,
    partitions: Seq<PartitionView>,
    outcome: Result<MemTable, LoadError>,
) -> bool {
    match resolved_schema(schema_override, inference_set(partitions)) {
        None => outcome is Err && reports_conflict(table, outcome->Err_0),
        Some(schema) => if accepts(schema, batch_groups(partitions)) {
            outcome is Ok && holds(outcome->Ok_0, schema, batch_groups(partitions))
        } else {
            outcome is Err && reports_refusal(table, outcome->Err_0)
        },
    }
}

/// `outcome` is what the load of `table` from `sources` gives. The first
/// partition that does not decode fails the load, with or without an
/// override; otherwise the outcome is that of the partitions the files hold.
pub open spec fn loads_as(
    table: Seq<char>,
    schema_override: Option<Schema>,
    sources: Seq<Opened>,
    outcome: Result<MemTable, LoadError>,
) -> bool {
    if all_readable(sources) {
        assembles_as(table, schema_override, contents(sources), outcome)
    } else {
        outcome is Err && reports_unreadable(table, sources, outcome->Err_0)
    }
}

/// Builds the table `table` from partitions that are already read, given in
/// partition order: decides the schema, then binds it to the batches of
/// every partition.
///
/// Where no partition holds a batch and no override is given, nothing is
/// merged and the schema is the one without fields; the load then succeeds
/// as soon as there is a partition at all.
pub fn table_from_partitions(
    table: &str,
    schema_override: Option<Schema>,
    partitions: Vec<Partition>,
) -> (loaded: Result<MemTable, LoadError>)
    ensures
        assembles_as(table@, schema_override, views(partitions@), loaded),
        schema_override is None && inference_set(views(partitions@)).len() == 0 ==> !(loaded is Err
            && loaded->Err_0 is SchemaMerge),
        schema_override is None && inference_set(views(partitions@)).len() == 0 && loaded is Ok
            ==> field_names(table_schema(loaded->Ok_0)).len() == 0,
        partitions@.len() > 0 && no_batches(batch_groups(views(partitions@))) ==> loaded is Ok,
        partitions@.len() == 0 ==> loaded is Err && loaded->Err_0 is TableConstruction,
{
    let ghost parts = views(partitions@);
    let (contributing, groups) = split_partitions(partitions);
    proof {
        if no_batches(batch_groups(parts)) {
            assert forall|i: int| 0 <= i < parts.len() implies (#[trigger] parts[i]).batches.len()
                == 0 by {
                assert(batch_groups(parts)[i].len() == 0);
            }
            lemma_no_batches_no_inference(parts);
        }
    }
    match resolve_schema(table, schema_override, contributing) {
        Ok(schema) => assemble_table(table, schema, groups),
        Err(error) => Err(error),
    }
}

/// Loads the table `table` from its partitions, given in partition order as
/// what opening each file gave, into one in-memory table.
///
/// The schema is `schema_override` where one is given, and else the merge of
/// the schemas of the partitions that hold batches. Partition `i` of the
/// table holds the batches of file `i`. Nothing is loaded in part: any
/// failure fails the whole load and names the table.
pub fn to_mem_table(table: &str, schema_override: Option<Schema>, sources: Vec<Opened>) -> (loaded:
    Result<MemTable, LoadError>)
    requires
        all_settle(sources@),
    ensures
        loads_as(table@, schema_override, sources@, loaded),
        schema_override is None && inference_set(contents(sources@)).len() == 0 ==> !(loaded is Err
            && loaded->Err_0 is SchemaMerge),
        schema_override is None && inference_set(contents(sources@)).len() == 0 && loaded is Ok
            ==> field_names(table_schema(loaded->Ok_0)).len() == 0,
        sources@.len() > 0 && all_readable(sources@) && no_batches(
            batch_groups(contents(sources@)),
        ) ==> loaded is Ok,
        sources@.len() == 0 ==> loaded is Err && loaded->Err_0 is TableConstruction,
{
    match load_partitions(table, sources) {
        Ok(partitions) => {
            proof {
                assert(views(partitions@).len() == contents(sources@).len());
            }
            table_from_partitions(table, schema_override, partitions)
        },
        Err(error) => {
            proof {
                let at = error->Decode_partition as int;
                lemma_first_unreadable_excludes_all(sources@, at, error->Decode_source);
            }
            Err(error)
        },
    }
}

} // verus!
