//! Binding the resolved schema and the batches of the partitions into the
//! table.
//!
//! The batches are not held against the schema here: whether the pairing is
//! accepted is the engine's decision, and its refusal fails the load.

use crate::columnar::Batch;
use crate::engine::{
    accepts, build_table, group_views, no_batches, table_partitions, table_schema,
};
use crate::error::LoadError;
use datafusion::arrow::datatypes::Schema;
use datafusion::datasource::MemTable;
use datafusion::error::DataFusionError;
use vstd::prelude::*;

verus! {

/// `table` holds exactly `schema` and `groups`: group `i` of the table is
/// partition `i`, with its batches in their order.
pub open spec fn holds(table: MemTable, schema: Schema, groups: Seq<Seq<Batch>>) -> bool {
    &&& table_schema(table) == schema
    &&& table_partitions(table) == groups
}

/// `error` reports, for the load of `table`, that the engine turned the
/// pairing down.
pub open spec fn reports_refusal(table: Seq<char>, error: LoadError) -> bool {
    &&& error matches LoadError::TableConstruction { table: name, .. }
    &&& name@ == table
}

/// Turns the outcome of the engine's constructor into the outcome of the
/// load: the table as it was built, or the refusal with the table's name.
pub fn table_from_construction(table: &str, built: Result<MemTable, DataFusionError>) -> (loaded:
    Result<MemTable, LoadError>)
    ensures
        built is Ok ==> loaded is Ok && loaded->Ok_0 == built->Ok_0,
        built is Err ==> loaded is Err && reports_refusal(table@, loaded->Err_0)
            && loaded->Err_0->TableConstruction_source == built->Err_0,
{
    match built {
        Ok(assembled) => Ok(assembled),
        Err(source) => Err(LoadError::TableConstruction { table: table.to_owned(), source }),
    }
}

/// Builds the table from the resolved schema and the batches of every
/// partition. The groups keep their order, and a partition without batches
/// keeps its place as an empty group.
pub fn assemble_table(table: &str, schema: Schema, groups: Vec<Vec<Batch>>) -> (loaded: Result<
    MemTable,
    LoadError,
>)
    ensures
        loaded is Ok <==> accepts(schema, group_views(groups@)),
        loaded is Ok ==> holds(loaded->Ok_0, schema, group_views(groups@)),
        loaded is Err ==> reports_refusal(table@, loaded->Err_0),
        groups@.len() == 0 ==> loaded is Err,
        groups@.len() > 0 && no_batches(group_views(groups@)) ==> loaded is Ok,
{
    table_from_construction(table, build_table(schema, groups))
}

} // verus!
