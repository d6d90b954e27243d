//! What the database asks of its storage, and what the storage answers.
//!
//! The operations of the database do no I/O of their own. Each is a value that yields one
//! [`Action`] at a time: a [`Request`] to perform, or the outcome. The caller performs the
//! request and hands the [`Reply`] back.

use vstd::prelude::*;

use crate::layout::{Keyspace, KeyspaceOptions, Tape, TapeDir, TapeOptions};
use crate::pruning::PruningSeed;

verus! {

/// What the `block_infos` tape says of a block.
#[derive(Clone, Copy, Debug, PartialEq, Eq)]
pub struct BlockInfo {
    /// The hash of the block.
    pub block_hash: [u8; 32],
    /// The ID of the transaction that mined the block. The IDs of the other transactions of the
    /// block follow it.
    pub mining_tx_index: u64,
}

/// What the `tx_infos` tape says of a transaction.
#[derive(Clone, Copy, Debug, PartialEq, Eq, Structural)]
pub struct TxInfo {
    /// The height of the block that the transaction is in.
    pub height: usize,
    /// Where the pruned blob starts in the `pruned_blobs` tape.
    pub pruned_blob_idx: u64,
    /// The size of the pruned blob.
    pub pruned_size: usize,
    /// Where the prunable blob starts in its tape.
    pub prunable_blob_idx: u64,
    /// The size of the prunable blob.
    pub prunable_size: usize,
    /// Whether this is a version 1 transaction.
    pub v1: bool,
}

/// Why an operation of the database failed.
#[derive(Clone, Copy, Debug, PartialEq, Eq, Structural)]
pub enum BlockchainError {
    /// The storage failed to perform a request.
    Storage,
    /// The tapes have no entry where there should be one.
    NotFound,
    /// The node is pruned, but its `prunable_tip` keyspace is gone.
    MissingPrunableTip,
}

/// How far a write is pushed towards the disk.
#[derive(Clone, Copy, Debug, PartialEq, Eq, Structural)]
pub enum Durability {
    /// As far as the store does by itself.
    Standard,
    /// To the buffers of the operating system.
    Buffer,
}

/// What the storage is asked to do.
#[allow(inconsistent_fields)]
#[derive(Debug)]
pub enum Request {
    /// Open a keyspace, creating it with these options if it does not exist.
    OpenKeyspace { keyspace: Keyspace, options: KeyspaceOptions },
    /// Tell whether a keyspace exists.
    KeyspaceExists { keyspace: Keyspace },
    /// Delete a keyspace, and create it again under the same name and with these options. What is
    /// cached of the keyspace goes with it: the number of outputs of each amount, for
    /// `pre_rct_outputs`.
    RecreateKeyspace { keyspace: Keyspace, options: KeyspaceOptions },
    /// Start a write batch, in place of the one before, and drop the transactions that were set
    /// aside.
    BeginBatch { durability: Durability },
    /// Add an entry of `prunable_tip` to the write batch.
    InsertTip { tx_id: u64, blob: Vec<u8> },
    /// Commit the write batch, and start another of the same durability.
    CommitBatch,
    /// Push all that was committed to the keyspaces to the disk.
    PersistKeyspaces,
    /// Take a snapshot of the keyspaces and one of the tapes, in that order. Every read that
    /// follows goes to them.
    TakeSnapshots,
    /// Take a snapshot of the tapes. Every read of a tape that follows goes to it.
    TakeTapesSnapshot,
    /// Read the hash that the `chain_tip` keyspace holds.
    ReadChainTip,
    /// Open the tapes database whose metadata is in this directory.
    OpenTapes { dir: TapeDir },
    /// Start to append to the tapes.
    BeginAppend,
    /// Open a tape, creating it if it does not exist.
    OpenTape { tape: Tape, options: TapeOptions },
    /// Tell how many entries a tape of entries has, or how many bytes a tape of blobs.
    TapeLen { tape: Tape },
    /// Start to read the `tx_infos` tape from its first entry, and tell how many it has.
    IterateTxInfos,
    /// Read the entry of the `block_infos` tape at this height.
    ReadBlockInfo { height: u64 },
    /// Read the entry of the `tx_infos` tape with this ID.
    ReadTxInfo { tx_id: u64 },
    /// Read this many bytes of a tape.
    ReadBytes { tape: Tape, offset: u64, len: usize },
    /// Append this seed to the `tapes_metadata` tape.
    AppendSeed { seed: PruningSeed },
    /// Commit what was appended to the tapes, and push it to the disk.
    CommitTapes,
    /// Delete a tape.
    DeleteTape { tape: Tape, options: TapeOptions },
    /// Read the block at this height.
    GetBlock { height: u64 },
    /// Set the pruned blob of a transaction aside for the block that is added next.
    StageTransaction { blob: Vec<u8> },
    /// Add to the write batch what the keyspaces derive from a block, given by its serialization
    /// and its hash, and the transactions that were set aside. So many transactions were added
    /// before.
    AddBlock { block: Vec<u8>, hash: [u8; 32], numb_txs: u64 },
    /// Wait.
    Sleep { millis: u64 },
}

/// What the storage answers.
#[derive(Debug)]
pub enum Reply {
    /// The request was performed.
    Done,
    /// The request failed.
    Failed,
    /// Whether the keyspace exists.
    Exists(bool),
    /// The length of the tape, if there is such a tape.
    Len(Option<u64>),
    /// The bytes that were read.
    Bytes(Vec<u8>),
    /// The entry of the `block_infos` tape, if it has one there.
    BlockInfo(Option<BlockInfo>),
    /// The entry of the `tx_infos` tape, if it has one there.
    TxInfo(Option<TxInfo>),
    /// What the `chain_tip` keyspace holds.
    ChainTip(Option<Vec<u8>>),
    /// The serialization of the block.
    Block(Vec<u8>),
    /// How many transactions were added, with those of the block.
    Added(u64),
}

/// What an operation wants next.
#[derive(Debug)]
pub enum Action<T> {
    /// Perform this request, and hand the reply back.
    Perform(Request),
    /// The operation is over.
    Finished(Result<T, BlockchainError>),
}

} // verus!
