//! The Arrow types and calls that the loader builds on.
//!
//! Nothing in this module is proved. Each item states, in its contract, what
//! the loader takes on trust from the Arrow crates.

use datafusion::arrow::datatypes::Schema;
use datafusion::arrow::error::ArrowError;
use datafusion::arrow::ipc::reader::FileReader;
use datafusion::arrow::record_batch::RecordBatch;
use std::io::Cursor;
use vstd::prelude::*;

verus! {

/// An Arrow schema: an ordered sequence of named, typed fields.
#[verifier::external_type_specification]
#[verifier::external_body]
pub struct ExSchema(Schema);

/// The error type of the Arrow crates.
#[verifier::external_type_specification]
#[verifier::external_body]
pub struct ExArrowError(ArrowError);

/// An in-memory byte source with a read position.
#[verifier::external_type_specification]
#[verifier::external_body]
#[verifier::reject_recursive_types(T)]
pub struct ExCursor<T>(Cursor<T>);

/// A reader of the Arrow IPC file format.
#[verifier::external_type_specification]
#[verifier::external_body]
#[verifier::reject_recursive_types(R)]
pub struct ExFileReader<R>(FileReader<R>);

/// One Arrow record batch: an immutable chunk of rows.
///
/// The record batch is carried through the loader untouched; the verifier
/// sees nothing inside it.
#[verifier::external_body]
#[derive(Debug)]
pub struct Batch {
    pub inner: RecordBatch,
}

/// What one block of an IPC file decodes to.
pub type Block = Result<Batch, ArrowError>;

/// A reader over the bytes of one partition.
pub type PartitionReader = FileReader<Cursor<Vec<u8>>>;

/// The names of a schema's fields, in order.
pub uninterp spec fn field_names(schema: Schema) -> Seq<Seq<char>>;

/// The schema that `Schema::try_merge` makes of a sequence of schemas, or
/// `None` where they do not merge.
pub uninterp spec fn merged(schemas: Seq<Schema>) -> Option<Schema>;

/// The schemas merge, and `schema` is what they merge to.
pub open spec fn merges_to(schemas: Seq<Schema>, schema: Schema) -> bool {
    merged(schemas) == Some(schema)
}

/// The schema that a reader took from its file's footer.
pub uninterp spec fn reader_schema(reader: PartitionReader) -> Schema;

/// The blocks that a reader has still to hand out, in order, up to the place
/// where it reports its end.
pub uninterp spec fn reader_pending(reader: PartitionReader) -> Seq<Block>;

/// Whether the reader comes to its end: every call that takes a pending
/// block from it returns. On some malformed files the decoder unwinds
/// instead.
pub uninterp spec fn reader_settles(reader: PartitionReader) -> bool;

/// `Schema::empty`: the result has no fields, and it is the schema that a
/// merge of no schemas gives.
#[verifier::external_body]
pub(crate) fn empty_schema() -> (schema: Schema)
    ensures
        field_names(schema).len() == 0,
        merges_to(Seq::empty(), schema),
{
    Schema::empty()
}

/// `Schema::try_merge`: whether the schemas merge, and to what, depends on
/// the given schemas in their order and on nothing else. Nothing is claimed
/// about which schemas merge, nor about the error where they do not.
#[verifier::external_body]
pub(crate) fn merge_schemas(schemas: Vec<Schema>) -> (outcome: Result<Schema, ArrowError>)
    ensures
        outcome is Ok <==> merged(schemas@) is Some,
        outcome is Ok ==> merged(schemas@) == Some(outcome->Ok_0),
{
    Schema::try_merge(schemas)
}

/// `FileReader::schema`: a copy of the schema that the reader holds.
#[verifier::external_body]
pub(crate) fn schema_of(reader: &PartitionReader) -> (schema: Schema)
    ensures
        schema == reader_schema(*reader),
{
    reader.schema().as_ref().clone()
}

/// `FileReader::next`, on a reader that settles: hands out the first pending
/// block, if there is one, and leaves the rest pending. The reader's schema
/// does not change, and the reader still settles.
#[verifier::external_body]
pub(crate) fn next_block(reader: &mut PartitionReader) -> (block: Option<Block>)
    requires
        reader_settles(*old(reader)),
    ensures
        reader_settles(*final(reader)),
        reader_schema(*final(reader)) == reader_schema(*old(reader)),
        reader_pending(*old(reader)).len() == 0 ==> block is None,
        reader_pending(*old(reader)).len() > 0 ==> block == Some(reader_pending(*old(reader))[0])
            && reader_pending(*final(reader)) == reader_pending(*old(reader)).skip(1),
{
    reader.next().map(|block| block.map(|inner| Batch { inner }))
}

} // verus!
