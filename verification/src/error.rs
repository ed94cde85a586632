//! How a load fails.

use datafusion::arrow::error::ArrowError;
use datafusion::error::DataFusionError;
use vstd::prelude::*;

verus! {

/// The failure of a table load. Every variant names the table; none is
/// retried and no partial table is handed out.
#[derive(Debug)]
#[allow(inconsistent_fields)]
pub enum LoadError {
    /// The bytes of one partition are not a well-formed IPC file.
    Decode { table: String, partition: usize, source: ArrowError },
    /// The schemas of the contributing partitions do not merge.
    SchemaMerge { table: String, source: ArrowError },
    /// The engine turned down the schema together with the batches.
    TableConstruction { table: String, source: DataFusionError },
}

impl LoadError {
    /// The name of the table whose load failed.
    pub open spec fn table_name(self) -> Seq<char> {
        match self {
            LoadError::Decode { table, .. } => table@,
            LoadError::SchemaMerge { table, .. } => table@,
            LoadError::TableConstruction { table, .. } => table@,
        }
    }

    /// The name of the table whose load failed.
    pub fn table(&self) -> (name: &str)
        ensures
            name@ == self.table_name(),
    {
        match self {
            LoadError::Decode { table, .. } => table.as_str(),
            LoadError::SchemaMerge { table, .. } => table.as_str(),
            LoadError::TableConstruction { table, .. } => table.as_str(),
        }
    }
}

} // verus!
