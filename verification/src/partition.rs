//! Reading partitions: one IPC file each, in the order in which they are given.
//!
//! A partition arrives as what opening its file gave: a reader over the file,
//! or the error of its footer. On some malformed files the decoder does not
//! return an error but unwinds; the functions here ask for readers that
//! settle, and say nothing of the others.

use crate::columnar::{
    next_block, reader_pending, reader_schema, reader_settles, schema_of, Batch, Block,
    PartitionReader,
};
use crate::error::LoadError;
use datafusion::arrow::datatypes::Schema;
use datafusion::arrow::error::ArrowError;
use vstd::prelude::*;

verus! {

/// What opening one partition file gave.
pub type Opened = Result<PartitionReader, ArrowError>;

/// What one partition file held: its embedded schema, where it had one, and
/// its record batches in file order.
#[derive(Debug)]
pub struct Partition {
    pub schema: Option<Schema>,
    pub batches: Vec<Batch>,
}

/// A partition as a value: its schema and the sequence of its batches.
pub struct PartitionView {
    pub schema: Option<Schema>,
    pub batches: Seq<Batch>,
}

impl View for Partition {
    type V = PartitionView;

    open spec fn view(&self) -> PartitionView {
        PartitionView { schema: self.schema, batches: self.batches@ }
    }
}

/// The partitions as values, in their order.
pub open spec fn views(partitions: Seq<Partition>) -> Seq<PartitionView> {
    partitions.map_values(|p: Partition| p@)
}

/// Every block decoded, and `batches` are the decoded blocks in order.
pub open spec fn all_decoded(blocks: Seq<Block>, batches: Seq<Batch>) -> bool {
    &&& batches.len() == blocks.len()
    &&& forall|i: int| 0 <= i < blocks.len() ==> blocks[i] == Ok::<Batch, ArrowError>(batches[i])
}

/// Block `at` is the first that failed to decode, and it failed with `error`.
pub open spec fn first_failure(blocks: Seq<Block>, at: int, error: ArrowError) -> bool {
    &&& 0 <= at < blocks.len()
    &&& blocks[at] == Err::<Batch, ArrowError>(error)
    &&& forall|j: int| 0 <= j < at ==> (#[trigger] blocks[j]) is Ok
}

/// Some block failed to decode, and the first that did failed with `error`.
pub open spec fn fails_first_with(blocks: Seq<Block>, error: ArrowError) -> bool {
    exists|at: int| first_failure(blocks, at, error)
}

/// The decoder returns on this partition: where the file opened, its reader
/// settles.
pub open spec fn settles(opened: Opened) -> bool {
    opened is Ok ==> reader_settles(opened->Ok_0)
}

/// The partition is a well-formed IPC file: the footer was accepted and
/// every block decodes.
pub open spec fn readable(opened: Opened) -> bool {
    &&& opened is Ok
    &&& forall|i: int|
        0 <= i < reader_pending(opened->Ok_0).len() ==> (#[trigger] reader_pending(
            opened->Ok_0,
        )[i]) is Ok
}

/// What a readable partition holds: its embedded schema and the batches of
/// its blocks, in file order.
pub open spec fn decoded(opened: Opened) -> PartitionView {
    PartitionView {
        schema: Some(reader_schema(opened->Ok_0)),
        batches: reader_pending(opened->Ok_0).map_values(|block: Block| block->Ok_0),
    }
}

/// The partition is no well-formed IPC file: either the footer was turned
/// down with `error`, or `error` is that of the first block that does not
/// decode.
pub open spec fn fails_with(opened: Opened, error: ArrowError) -> bool {
    match opened {
        Err(e) => e == error,
        Ok(reader) => fails_first_with(reader_pending(reader), error),
    }
}

/// A partition that fails is not readable.
pub proof fn lemma_failing_is_unreadable(opened: Opened, error: ArrowError)
    requires
        fails_with(opened, error),
    ensures
        !readable(opened),
{
    if opened is Ok {
        let blocks = reader_pending(opened->Ok_0);
        let at = choose|at: int| first_failure(blocks, at, error);
        assert(blocks[at] is Err);
    }
}

/// Takes the blocks that a reader has pending, one after the other, and
/// stops at the first that failed to decode.
pub fn drain_reader(reader: PartitionReader) -> (drained: Result<Partition, ArrowError>)
    requires
        reader_settles(reader),
    ensures
        drained is Ok ==> drained->Ok_0.schema == Some(reader_schema(reader)) && all_decoded(
            reader_pending(reader),
            drained->Ok_0.batches@,
        ),
        drained is Err ==> fails_first_with(reader_pending(reader), drained->Err_0),
{
    let ghost blocks = reader_pending(reader);
    let mut rest = reader;
    let schema = schema_of(&rest);
    let mut batches: Vec<Batch> = Vec::new();
    loop
        invariant
            reader_settles(rest),
            blocks == reader_pending(reader),
            schema == reader_schema(reader),
            batches@.len() <= blocks.len(),
            reader_pending(rest) == blocks.skip(batches@.len() as int),
            forall|i: int| 0 <= i < batches@.len() ==> blocks[i] == Ok::<Batch, ArrowError>(batches@[i]),
        decreases blocks.len() - batches@.len(),
    {
        let ghost done = batches@.len() as int;
        match next_block(&mut rest) {
            None => {
                return Ok(Partition { schema: Some(schema), batches });
            },
            Some(Ok(batch)) => {
                batches.push(batch);
                proof {
                    assert(blocks.skip(done)[0] == blocks[done]);
                    assert(blocks.skip(done).skip(1) == blocks.skip(done + 1));
                }
            },
            Some(Err(error)) => {
                proof {
                    assert(blocks.skip(done)[0] == blocks[done]);
                    assert(first_failure(blocks, done, error));
                    assert(fails_first_with(blocks, error));
                }
                return Err(error);
            },
        }
    }
}

/// Reads one partition from what opening its file gave. A footer that was
/// turned down or a block that does not decode fails the partition; nothing
/// is recovered.
pub fn read_partition(opened: Opened) -> (read: Result<Partition, ArrowError>)
    requires
        settles(opened),
    ensures
        read is Ok ==> readable(opened) && read->Ok_0@ == decoded(opened),
        read is Err ==> fails_with(opened, read->Err_0),
{
    match opened {
        Ok(reader) => {
            let drained = drain_reader(reader);
            proof {
                if drained is Ok {
                    let blocks = reader_pending(reader);
                    let batches = drained->Ok_0.batches@;
                    assert forall|i: int| 0 <= i < blocks.len() implies (#[trigger] blocks[i]) is Ok by {
                        assert(blocks[i] == Ok::<Batch, ArrowError>(batches[i]));
                    }
                    assert(batches =~= blocks.map_values(|block: Block| block->Ok_0)) by {
                        assert forall|i: int| 0 <= i < blocks.len() implies batches[i]
                            == (#[trigger] blocks[i])->Ok_0 by {
                            assert(blocks[i] == Ok::<Batch, ArrowError>(batches[i]));
                        }
                    }
                }
            }
            drained
        },
        Err(error) => Err(error),
    }
}

/// The decoder returns on every partition.
pub open spec fn all_settle(sources: Seq<Opened>) -> bool {
    forall|i: int| 0 <= i < sources.len() ==> settles(#[trigger] sources[i])
}

/// Every partition is readable.
pub open spec fn all_readable(sources: Seq<Opened>) -> bool {
    forall|i: int| 0 <= i < sources.len() ==> readable(#[trigger] sources[i])
}

/// What readable partitions hold, in the order in which they were given.
pub open spec fn contents(sources: Seq<Opened>) -> Seq<PartitionView> {
    sources.map_values(|opened: Opened| decoded(opened))
}

/// Partition `at` is the first that is not readable, and it fails with
/// `error`.
pub open spec fn first_unreadable(sources: Seq<Opened>, at: int, error: ArrowError) -> bool {
    &&& 0 <= at < sources.len()
    &&& fails_with(sources[at], error)
    &&& forall|j: int| 0 <= j < at ==> readable(#[trigger] sources[j])
}

/// `error` reports, for the load of `table`, the first partition that does
/// not decode, by its place and with its error.
pub open spec fn reports_unreadable(table: Seq<char>, sources: Seq<Opened>, error: LoadError) -> bool {
    &&& error matches LoadError::Decode { table: name, partition, source }
    &&& name@ == table
    &&& first_unreadable(sources, partition as int, source)
}

/// Where some partition is unreadable, the partitions are not all readable.
pub proof fn lemma_first_unreadable_excludes_all(sources: Seq<Opened>, at: int, error: ArrowError)
    requires
        first_unreadable(sources, at, error),
    ensures
        !all_readable(sources),
{
    lemma_failing_is_unreadable(sources[at], error);
}

/// Reads every partition, in the given order, and gives up at the first that
/// does not decode: one bad partition fails the whole table.
pub fn load_partitions(table: &str, sources: Vec<Opened>) -> (loaded: Result<
    Vec<Partition>,
    LoadError,
>)
    requires
        all_settle(sources@),
    ensures
        loaded is Ok ==> all_readable(sources@) && views(loaded->Ok_0@) == contents(sources@),
        loaded is Err ==> reports_unreadable(table@, sources@, loaded->Err_0),
{
    let mut partitions: Vec<Partition> = Vec::new();
    for opened in it: sources.into_iter()
        invariant
            all_settle(sources@),
            it.seq() == sources@,
            partitions@.len() == it.index(),
            forall|i: int| 0 <= i < it.index() ==> readable(#[trigger] sources@[i]),
            forall|i: int| 0 <= i < it.index() ==> (#[trigger] partitions@[i])@ == decoded(sources@[i]),
    {
        let ghost at = partitions@.len() as int;
        assert(settles(sources@[at]));
        match read_partition(opened) {
            Ok(partition) => {
                partitions.push(partition);
            },
            Err(source) => {
                proof {
                    assert(first_unreadable(sources@, at, source));
                }
                return Err(
                    LoadError::Decode { table: table.to_owned(), partition: partitions.len(), source },
                );
            },
        }
    }
    proof {
        assert(views(partitions@) =~= contents(sources@));
    }
    Ok(partitions)
}

} // verus!
