//! Deriving the content of the keyspaces from the tapes.

use vstd::prelude::*;

use crate::layout::Tape;
use crate::operation::Operation;
use crate::outside::{
    block_hash, block_tx_count, count_block_txs, hash_block, is_transaction, transaction_reads,
};
use crate::request::{Action, BlockchainError, Durability, Reply, Request};

verus! {

/// A commit follows every block whose height is a multiple of this.
pub const REPLAY_BATCH_SIZE: u64 = 1000;

/// How far the replay has got.
#[derive(Clone, Copy, Debug, PartialEq, Eq, Structural)]
pub struct Progress {
    /// The number of transactions on the tapes.
    pub tx_count: u64,
    /// The number of blocks on the tapes.
    pub block_count: u64,
    /// The height of the current block.
    pub height: u64,
    /// The ID of the next transaction to read.
    pub next_tx: u64,
    /// The number of transactions that were added.
    pub numb_txs: u64,
}

/// What is still to be read for the current block.
#[derive(Debug)]
pub struct Pending {
    /// The serialization of the block.
    pub block: Vec<u8>,
    /// Its hash.
    pub hash: [u8; 32],
    /// Whether the transaction that mined it is still to be read.
    pub miner: bool,
    /// How many of its other transactions are still to be read.
    pub left: usize,
}

/// What [`ReplayTapes`] waits for.
#[derive(Debug)]
pub enum ReplayStage {
    /// The snapshot of the tapes.
    Snapshot,
    /// The number of transactions.
    TxCount,
    /// The write batch.
    Batch { tx_count: u64 },
    /// The number of blocks.
    BlockCount { tx_count: u64 },
    /// A block.
    Block { progress: Progress },
    /// The info of a transaction.
    TxInfo { progress: Progress, pending: Pending },
    /// The pruned blob of a transaction, which has this size.
    Blob { progress: Progress, pending: Pending, len: usize },
    /// That blob to be set aside.
    Staged { progress: Progress, pending: Pending },
    /// The block to be added.
    Added { progress: Progress },
    /// The commit after a full batch.
    Commit { progress: Progress },
    /// The last commit.
    LastCommit,
    /// There is nothing left to do.
    Over,
}

/// Replays the tapes into empty keyspaces.
///
/// Every block is added once, in the order of the heights, with the transactions that the tapes
/// list after the one that mined it. That one is read too, and dropped: the block has its own
/// copy of it.
#[derive(Debug)]
pub struct ReplayTapes {
    /// What is waited for.
    pub stage: ReplayStage,
}

impl Progress {
    /// What holds wherever the replay waits.
    pub open spec fn ready(self) -> bool {
        &&& self.height < self.block_count
        &&& self.next_tx <= self.tx_count
    }

    /// How much there is left to do.
    pub open spec fn rank(self) -> int {
        8 * (self.block_count - self.height) + 4 * (self.tx_count - self.next_tx)
    }
}

impl ReplayTapes {
    /// Where the replay starts.
    pub open spec fn started() -> (Self, Action<()>) {
        (
            ReplayTapes { stage: ReplayStage::Snapshot },
            Action::Perform(Request::TakeTapesSnapshot),
        )
    }

    /// How the replay ends.
    pub open spec fn ended(result: Result<(), BlockchainError>) -> (Self, Action<()>) {
        (ReplayTapes { stage: ReplayStage::Over }, Action::Finished(result))
    }

    /// How the replay goes on at the height that it has got to: with the block there, and with
    /// the last commit past the top of the chain.
    pub open spec fn at_height(progress: Progress) -> (Self, Action<()>) {
        if progress.height < progress.block_count {
            (
                ReplayTapes { stage: ReplayStage::Block { progress } },
                Action::Perform(Request::GetBlock { height: progress.height }),
            )
        } else {
            (
                ReplayTapes { stage: ReplayStage::LastCommit },
                Action::Perform(Request::CommitBatch),
            )
        }
    }

    /// How the replay goes on with the current block: with the next of its transactions, and with
    /// the block itself once it has them all or the tapes have no more.
    pub open spec fn reading(progress: Progress, pending: Pending) -> (Self, Action<()>) {
        if (pending.miner || pending.left > 0) && progress.next_tx < progress.tx_count {
            (
                ReplayTapes { stage: ReplayStage::TxInfo { progress, pending } },
                Action::Perform(Request::ReadTxInfo { tx_id: progress.next_tx }),
            )
        } else {
            (
                ReplayTapes { stage: ReplayStage::Added { progress } },
                Action::Perform(
                    Request::AddBlock {
                        block: pending.block,
                        hash: pending.hash,
                        numb_txs: progress.numb_txs,
                    },
                ),
            )
        }
    }

    /// How the replay goes on with a block that has this hash and lists so many transactions. It
    /// does not if the bytes are no block.
    pub open spec fn block_taken(
        progress: Progress,
        block: Vec<u8>,
        hash: Option<[u8; 32]>,
        count: Option<usize>,
    ) -> Option<(Self, Action<()>)> {
        match (hash, count) {
            (Some(hash), Some(left)) => Some(
                Self::reading(progress, Pending { block, hash, miner: true, left }),
            ),
            _ => None,
        }
    }

    /// How the replay goes on with the pruned blob of a transaction: it drops that of the
    /// transaction that mined the block, and has the others set aside. It does not go on if the
    /// blob cannot be read.
    pub open spec fn blob_taken(
        progress: Progress,
        pending: Pending,
        blob: Vec<u8>,
        readable: bool,
    ) -> Option<(Self, Action<()>)> {
        if !readable {
            None
        } else if pending.miner {
            Some(Self::reading(Self::past_tx(progress), Pending { miner: false, ..pending }))
        } else {
            Some(
                (
                    ReplayTapes { stage: ReplayStage::Staged { progress, pending } },
                    Action::Perform(Request::StageTransaction { blob }),
                ),
            )
        }
    }

    /// The progress once a transaction was read.
    pub open spec fn past_tx(progress: Progress) -> Progress {
        Progress { next_tx: (progress.next_tx + 1) as u64, ..progress }
    }

    /// The progress once a block was added.
    pub open spec fn past_block(progress: Progress) -> Progress {
        Progress { height: (progress.height + 1) as u64, ..progress }
    }

    /// Starts the replay.
    pub fn replay_tapes_into_fjall() -> (start: (Self, Action<()>))
        ensures
            start == Self::started(),
            start.0.ready(),
    {
        (
            ReplayTapes { stage: ReplayStage::Snapshot },
            Action::Perform(Request::TakeTapesSnapshot),
        )
    }

    /// Goes on with a block that has this hash and lists so many transactions.
    pub fn take_block(
        progress: Progress,
        block: Vec<u8>,
        hash: Option<[u8; 32]>,
        count: Option<usize>,
    ) -> (next: Option<(Self, Action<()>)>)
        requires
            progress.ready(),
        ensures
            next == Self::block_taken(progress, block, hash, count),
            next matches Some((replay, _)) ==> replay.ready(),
    {
        match (hash, count) {
            (Some(hash), Some(left)) => Some(
                Self::read(progress, Pending { block, hash, miner: true, left }),
            ),
            _ => None,
        }
    }

    /// Goes on with the pruned blob of a transaction, which can be read or not.
    pub fn take_blob(
        progress: Progress,
        pending: Pending,
        blob: Vec<u8>,
        readable: bool,
    ) -> (next: Option<(Self, Action<()>)>)
        requires
            progress.ready(),
            progress.next_tx < progress.tx_count,
            pending.miner || pending.left > 0,
        ensures
            next == Self::blob_taken(progress, pending, blob, readable),
            next matches Some((replay, _)) ==> replay.ready(),
    {
        if !readable {
            return None;
        }
        if pending.miner {
            let read = Progress { next_tx: progress.next_tx + 1, ..progress };
            Some(Self::read(read, Pending { miner: false, ..pending }))
        } else {
            Some(
                (
                    ReplayTapes { stage: ReplayStage::Staged { progress, pending } },
                    Action::Perform(Request::StageTransaction { blob }),
                ),
            )
        }
    }

    fn go_on(progress: Progress) -> (next: (Self, Action<()>))
        requires
            progress.next_tx <= progress.tx_count,
        ensures
            next == Self::at_height(progress),
            next.0.ready(),
    {
        if progress.height < progress.block_count {
            let height: u64 = progress.height;
            (
                ReplayTapes { stage: ReplayStage::Block { progress } },
                Action::Perform(Request::GetBlock { height }),
            )
        } else {
            (
                ReplayTapes { stage: ReplayStage::LastCommit },
                Action::Perform(Request::CommitBatch),
            )
        }
    }

    fn read(progress: Progress, pending: Pending) -> (next: (Self, Action<()>))
        requires
            progress.ready(),
        ensures
            next == Self::reading(progress, pending),
            next.0.ready(),
    {
        if (pending.miner || pending.left > 0) && progress.next_tx < progress.tx_count {
            let tx_id: u64 = progress.next_tx;
            (
                ReplayTapes { stage: ReplayStage::TxInfo { progress, pending } },
                Action::Perform(Request::ReadTxInfo { tx_id }),
            )
        } else {
            (
                ReplayTapes { stage: ReplayStage::Added { progress } },
                Action::Perform(
                    Request::AddBlock {
                        block: pending.block,
                        hash: pending.hash,
                        numb_txs: progress.numb_txs,
                    },
                ),
            )
        }
    }
}

impl Operation<()> for ReplayTapes {
    open spec fn ready(&self) -> bool {
        match self.stage {
            ReplayStage::Block { progress } => progress.ready(),
            ReplayStage::TxInfo { progress, pending } => {
                &&& progress.ready()
                &&& progress.next_tx < progress.tx_count
                &&& pending.miner || pending.left > 0
            },
            ReplayStage::Blob { progress, pending, .. } => {
                &&& progress.ready()
                &&& progress.next_tx < progress.tx_count
                &&& pending.miner || pending.left > 0
            },
            ReplayStage::Staged { progress, pending } => {
                &&& progress.ready()
                &&& progress.next_tx < progress.tx_count
                &&& !pending.miner
                &&& pending.left > 0
            },
            ReplayStage::Added { progress } => progress.ready(),
            ReplayStage::Commit { progress } => progress.ready(),
            _ => true,
        }
    }

    open spec fn next(self, reply: Reply) -> Option<(Self, Action<()>)> {
        match (self.stage, reply) {
            (ReplayStage::Snapshot, Reply::Done) => Some(
                (
                    ReplayTapes { stage: ReplayStage::TxCount },
                    Action::Perform(Request::IterateTxInfos),
                ),
            ),
            (ReplayStage::TxCount, Reply::Len(Some(tx_count))) => Some(
                (
                    ReplayTapes { stage: ReplayStage::Batch { tx_count } },
                    Action::Perform(Request::BeginBatch { durability: Durability::Buffer }),
                ),
            ),
            (ReplayStage::Batch { tx_count }, Reply::Done) => Some(
                (
                    ReplayTapes { stage: ReplayStage::BlockCount { tx_count } },
                    Action::Perform(Request::TapeLen { tape: Tape::BlockInfos }),
                ),
            ),
            (ReplayStage::BlockCount { tx_count }, Reply::Len(Some(block_count))) => Some(
                Self::at_height(
                    Progress { tx_count, block_count, height: 0, next_tx: 0, numb_txs: 0 },
                ),
            ),
            (ReplayStage::Block { progress }, Reply::Block(block)) => Self::block_taken(
                progress,
                block,
                block_hash(block@),
                block_tx_count(block@),
            ),
            (ReplayStage::TxInfo { progress, pending }, Reply::TxInfo(Some(info))) => Some(
                (
                    ReplayTapes {
                        stage: ReplayStage::Blob { progress, pending, len: info.pruned_size },
                    },
                    Action::Perform(
                        Request::ReadBytes {
                            tape: Tape::PrunedBlobs,
                            offset: info.pruned_blob_idx,
                            len: info.pruned_size,
                        },
                    ),
                ),
            ),
            (ReplayStage::Blob { progress, pending, len }, Reply::Bytes(blob)) => Self::blob_taken(
                progress,
                pending,
                blob,
                blob@.len() == len && is_transaction(blob@),
            ),
            (ReplayStage::Staged { progress, pending }, Reply::Done) => Some(
                Self::reading(
                    Self::past_tx(progress),
                    Pending { left: (pending.left - 1) as usize, ..pending },
                ),
            ),
            (ReplayStage::Added { progress }, Reply::Added(numb_txs)) => {
                let progress = Progress { numb_txs, ..progress };
                if progress.height % REPLAY_BATCH_SIZE == 0 {
                    Some(
                        (
                            ReplayTapes { stage: ReplayStage::Commit { progress } },
                            Action::Perform(Request::CommitBatch),
                        ),
                    )
                } else {
                    Some(Self::at_height(Self::past_block(progress)))
                }
            },
            (ReplayStage::Commit { progress }, Reply::Done) => Some(
                Self::at_height(Self::past_block(progress)),
            ),
            (ReplayStage::LastCommit, Reply::Done) => Some(Self::ended(Ok(()))),
            (ReplayStage::Over, _) => None,
            (ReplayStage::TxInfo { .. }, _) => None,
            (ReplayStage::Blob { .. }, _) => None,
            (ReplayStage::Staged { .. }, _) => None,
            (_, Reply::Failed) => Some(Self::ended(Err(BlockchainError::Storage))),
            _ => None,
        }
    }

    open spec fn rank(&self) -> nat {
        let most = 12 * (u64::MAX as nat);
        match self.stage {
            ReplayStage::Snapshot => most + 6,
            ReplayStage::TxCount => most + 5,
            ReplayStage::Batch { .. } => most + 4,
            ReplayStage::BlockCount { .. } => most + 3,
            ReplayStage::Block { progress } => (progress.rank() + 2) as nat,
            ReplayStage::TxInfo { progress, .. } => (progress.rank() + 1) as nat,
            ReplayStage::Blob { progress, .. } => progress.rank() as nat,
            ReplayStage::Staged { progress, .. } => (progress.rank() - 1) as nat,
            ReplayStage::Added { progress } => (progress.rank() - 4) as nat,
            ReplayStage::Commit { progress } => (progress.rank() - 5) as nat,
            ReplayStage::LastCommit => 1,
            ReplayStage::Over => 0,
        }
    }

    proof fn lemma_goes_on(self, reply: Reply) {
    }

    fn step(self, reply: Reply) -> (outcome: Option<(Self, Action<()>)>) {
        proof {
            self.lemma_goes_on(reply);
        }
        match (self.stage, reply) {
            (ReplayStage::Snapshot, Reply::Done) => Some(
                (
                    ReplayTapes { stage: ReplayStage::TxCount },
                    Action::Perform(Request::IterateTxInfos),
                ),
            ),
            (ReplayStage::TxCount, Reply::Len(Some(tx_count))) => Some(
                (
                    ReplayTapes { stage: ReplayStage::Batch { tx_count } },
                    Action::Perform(Request::BeginBatch { durability: Durability::Buffer }),
                ),
            ),
            (ReplayStage::Batch { tx_count }, Reply::Done) => Some(
                (
                    ReplayTapes { stage: ReplayStage::BlockCount { tx_count } },
                    Action::Perform(Request::TapeLen { tape: Tape::BlockInfos }),
                ),
            ),
            (ReplayStage::BlockCount { tx_count }, Reply::Len(Some(block_count))) => Some(
                Self::go_on(
                    Progress { tx_count, block_count, height: 0, next_tx: 0, numb_txs: 0 },
                ),
            ),
            (ReplayStage::Block { progress }, Reply::Block(block)) => {
                let hash = hash_block(block.as_slice());
                let count = count_block_txs(block.as_slice());
                Self::take_block(progress, block, hash, count)
            },
            (ReplayStage::TxInfo { progress, pending }, Reply::TxInfo(Some(info))) => Some(
                (
                    ReplayTapes {
                        stage: ReplayStage::Blob { progress, pending, len: info.pruned_size },
                    },
                    Action::Perform(
                        Request::ReadBytes {
                            tape: Tape::PrunedBlobs,
                            offset: info.pruned_blob_idx,
                            len: info.pruned_size,
                        },
                    ),
                ),
            ),
            (ReplayStage::Blob { progress, pending, len }, Reply::Bytes(blob)) => {
                let readable = blob.len() == len && transaction_reads(blob.as_slice());
                Self::take_blob(progress, pending, blob, readable)
            },
            (ReplayStage::Staged { progress, pending }, Reply::Done) => {
                let read = Progress { next_tx: progress.next_tx + 1, ..progress };
                let left: usize = pending.left - 1;
                Some(Self::read(read, Pending { left, ..pending }))
            },
            (ReplayStage::Added { progress }, Reply::Added(numb_txs)) => {
                let added = Progress { numb_txs, ..progress };
                if progress.height % REPLAY_BATCH_SIZE == 0 {
                    Some(
                        (
                            ReplayTapes { stage: ReplayStage::Commit { progress: added } },
                            Action::Perform(Request::CommitBatch),
                        ),
                    )
                } else {
                    Some(Self::go_on(Progress { height: added.height + 1, ..added }))
                }
            },
            (ReplayStage::Commit { progress }, Reply::Done) => Some(
                Self::go_on(Progress { height: progress.height + 1, ..progress }),
            ),
            (ReplayStage::LastCommit, Reply::Done) => Some(
                (ReplayTapes { stage: ReplayStage::Over }, Action::Finished(Ok(()))),
            ),
            (ReplayStage::Over, _) => None,
            (ReplayStage::TxInfo { .. }, _) => None,
            (ReplayStage::Blob { .. }, _) => None,
            (ReplayStage::Staged { .. }, _) => None,
            (_, Reply::Failed) => Some(
                (
                    ReplayTapes { stage: ReplayStage::Over },
                    Action::Finished(Err(BlockchainError::Storage)),
                ),
            ),
            _ => None,
        }
    }
}

} // verus!
