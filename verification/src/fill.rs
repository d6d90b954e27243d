//! Copying the prunable blobs of the top of the chain into `prunable_tip`.

use vstd::prelude::*;

use crate::layout::{options_of_prunable_tip, prunable_tip_options, Keyspace, Tape};
use crate::operation::Operation;
use crate::pruning::{
    block_pruning_stripe, get_block_pruning_stripe, PruningSeed, CRYPTONOTE_PRUNING_LOG_STRIPES,
    CRYPTONOTE_PRUNING_TIP_BLOCKS,
};
use crate::request::{Action, BlockchainError, Durability, Reply, Request, TxInfo};
use crate::state::BlockchainDatabase;

verus! {

/// How many transactions [`FillPrunableTip`] looks at between two commits.
pub const TIP_BATCH_SIZE: u64 = 1000;

/// What [`FillPrunableTip`] waits for.
#[derive(Debug)]
pub enum FillStage {
    /// The `prunable_tip` keyspace.
    Keyspace,
    /// The snapshot of the tapes.
    Snapshot,
    /// The write batch.
    Batch,
    /// The number of blocks.
    BlockCount,
    /// The info of the first block whose blobs are copied.
    StartBlock,
    /// The number of transactions. The first one to copy has this ID.
    TxCount { start: u64 },
    /// The info of a transaction.
    TxInfo { start: u64, end: u64, tx_id: u64 },
    /// The prunable blob of a transaction, which has this size.
    Blob { start: u64, end: u64, tx_id: u64, len: usize },
    /// The insertion of that blob.
    Insert { start: u64, end: u64, tx_id: u64 },
    /// The commit after a full batch.
    Commit { start: u64, end: u64, tx_id: u64 },
    /// The last commit.
    LastCommit,
    /// There is nothing left to do.
    Over,
}

/// Fills `prunable_tip` with the prunable blobs of the last [`CRYPTONOTE_PRUNING_TIP_BLOCKS`]
/// blocks. It writes nothing else and deletes nothing.
///
/// It works backwards from the top, so a run that is stopped part way leaves entries of the top
/// of the chain. An entry that is already there is written again.
#[derive(Debug)]
pub struct FillPrunableTip {
    /// What is waited for.
    pub stage: FillStage,
}

/// The height of the first of the last [`CRYPTONOTE_PRUNING_TIP_BLOCKS`] blocks of a chain.
pub open spec fn start_of_tip(block_count: nat) -> nat {
    if block_count > CRYPTONOTE_PRUNING_TIP_BLOCKS {
        (block_count - CRYPTONOTE_PRUNING_TIP_BLOCKS) as nat
    } else {
        0
    }
}

/// The stripe of a transaction that is past the top of the chain, counted from one, and none for
/// a height that no chain reaches.
pub open spec fn stripe_of_tx(info: TxInfo) -> Option<nat> {
    block_pruning_stripe(info.height as nat, usize::MAX as nat, CRYPTONOTE_PRUNING_LOG_STRIPES)
}

/// The stripe that the prunable blob of a transaction is stored under.
fn tx_stripe(info: &TxInfo) -> (stripe: Option<u32>)
    ensures
        match stripe {
            Some(s) => stripe_of_tx(*info) == Some(s as nat) && 1 <= s <= 8,
            None => stripe_of_tx(*info) is None,
        },
{
    if info.height >= usize::MAX - CRYPTONOTE_PRUNING_TIP_BLOCKS {
        return None;
    }
    get_block_pruning_stripe(info.height, usize::MAX, CRYPTONOTE_PRUNING_LOG_STRIPES)
}

impl FillPrunableTip {
    /// Where the filling starts.
    pub open spec fn started() -> (Self, Action<()>) {
        (
            FillPrunableTip { stage: FillStage::Keyspace },
            Action::Perform(
                Request::OpenKeyspace {
                    keyspace: Keyspace::PrunableTip,
                    options: options_of_prunable_tip(),
                },
            ),
        )
    }

    /// How the filling ends.
    pub open spec fn ended(result: Result<(), BlockchainError>) -> (Self, Action<()>) {
        (FillPrunableTip { stage: FillStage::Over }, Action::Finished(result))
    }

    /// How the filling goes on once the transactions from `done` to `end` are dealt with: with
    /// the one below `done`, and with the last commit once `start` is reached.
    pub open spec fn below(start: u64, end: u64, done: u64) -> (Self, Action<()>) {
        if done > start {
            let tx_id = (done - 1) as u64;
            (
                FillPrunableTip { stage: FillStage::TxInfo { start, end, tx_id } },
                Action::Perform(Request::ReadTxInfo { tx_id }),
            )
        } else {
            (
                FillPrunableTip { stage: FillStage::LastCommit },
                Action::Perform(Request::CommitBatch),
            )
        }
    }

    /// Starts the filling. The node must not be pruned, only then every prunable tape is open.
    #[allow(unused_variables)]
    pub fn fill_prunable_tip(db: &BlockchainDatabase) -> (start: (Self, Action<()>))
        requires
            db.wf(),
            db.pruning_seed == PruningSeed::NotPruned,
        ensures
            start == Self::started(),
            start.0.ready(),
    {
        (
            FillPrunableTip { stage: FillStage::Keyspace },
            Action::Perform(
                Request::OpenKeyspace {
                    keyspace: Keyspace::PrunableTip,
                    options: prunable_tip_options(),
                },
            ),
        )
    }

    fn proceed(start: u64, end: u64, done: u64) -> (next: (Self, Action<()>))
        requires
            done <= end,
        ensures
            next == Self::below(start, end, done),
            next.0.ready(),
    {
        if done > start {
            let tx_id: u64 = done - 1;
            (
                FillPrunableTip { stage: FillStage::TxInfo { start, end, tx_id } },
                Action::Perform(Request::ReadTxInfo { tx_id }),
            )
        } else {
            (
                FillPrunableTip { stage: FillStage::LastCommit },
                Action::Perform(Request::CommitBatch),
            )
        }
    }
}

impl Operation<()> for FillPrunableTip {
    open spec fn ready(&self) -> bool {
        match self.stage {
            FillStage::TxInfo { start, end, tx_id } => start <= tx_id < end,
            FillStage::Blob { start, end, tx_id, .. } => start <= tx_id < end,
            FillStage::Insert { start, end, tx_id } => start <= tx_id < end,
            FillStage::Commit { start, end, tx_id } => start <= tx_id < end,
            _ => true,
        }
    }

    open spec fn next(self, reply: Reply) -> Option<(Self, Action<()>)> {
        match (self.stage, reply) {
            (FillStage::Over, _) => None,
            (_, Reply::Failed) => Some(Self::ended(Err(BlockchainError::Storage))),
            (FillStage::Keyspace, Reply::Done) => Some(
                (
                    FillPrunableTip { stage: FillStage::Snapshot },
                    Action::Perform(Request::TakeTapesSnapshot),
                ),
            ),
            (FillStage::Snapshot, Reply::Done) => Some(
                (
                    FillPrunableTip { stage: FillStage::Batch },
                    Action::Perform(Request::BeginBatch { durability: Durability::Standard }),
                ),
            ),
            (FillStage::Batch, Reply::Done) => Some(
                (
                    FillPrunableTip { stage: FillStage::BlockCount },
                    Action::Perform(Request::TapeLen { tape: Tape::BlockInfos }),
                ),
            ),
            (FillStage::BlockCount, Reply::Len(len)) => {
                let block_count = match len {
                    Some(len) => len as nat,
                    None => 0,
                };
                Some(
                    (
                        FillPrunableTip { stage: FillStage::StartBlock },
                        Action::Perform(
                            Request::ReadBlockInfo { height: start_of_tip(block_count) as u64 },
                        ),
                    ),
                )
            },
            (FillStage::StartBlock, Reply::BlockInfo(info)) => {
                let start = match info {
                    Some(info) => info.mining_tx_index,
                    None => 0,
                };
                Some(
                    (
                        FillPrunableTip { stage: FillStage::TxCount { start } },
                        Action::Perform(Request::TapeLen { tape: Tape::TxInfos }),
                    ),
                )
            },
            (FillStage::TxCount { start }, Reply::Len(len)) => {
                let end = match len {
                    Some(len) => len,
                    None => 0,
                };
                Some(Self::below(start, end, end))
            },
            (FillStage::TxInfo { start, end, tx_id }, Reply::TxInfo(Some(info))) => if info.v1 {
                Some(Self::below(start, end, tx_id))
            } else {
                match stripe_of_tx(info) {
                    Some(stripe) => Some(
                        (
                            FillPrunableTip {
                                stage: FillStage::Blob {
                                    start,
                                    end,
                                    tx_id,
                                    len: info.prunable_size,
                                },
                            },
                            Action::Perform(
                                Request::ReadBytes {
                                    tape: Tape::Prunable((stripe - 1) as usize),
                                    offset: info.prunable_blob_idx,
                                    len: info.prunable_size,
                                },
                            ),
                        ),
                    ),
                    None => None,
                }
            },
            (FillStage::Blob { start, end, tx_id, len }, Reply::Bytes(blob)) => if blob@.len()
                == len {
                Some(
                    (
                        FillPrunableTip { stage: FillStage::Insert { start, end, tx_id } },
                        Action::Perform(Request::InsertTip { tx_id, blob }),
                    ),
                )
            } else {
                None
            },
            (FillStage::Insert { start, end, tx_id }, Reply::Done) => if (end - tx_id)
                % TIP_BATCH_SIZE as int == 0 {
                Some(
                    (
                        FillPrunableTip { stage: FillStage::Commit { start, end, tx_id } },
                        Action::Perform(Request::CommitBatch),
                    ),
                )
            } else {
                Some(Self::below(start, end, tx_id))
            },
            (FillStage::Commit { start, end, tx_id }, Reply::Done) => Some(
                Self::below(start, end, tx_id),
            ),
            (FillStage::LastCommit, Reply::Done) => Some(Self::ended(Ok(()))),
            _ => None,
        }
    }

    open spec fn rank(&self) -> nat {
        let most = 4 * (u64::MAX as nat);
        match self.stage {
            FillStage::Keyspace => most + 11,
            FillStage::Snapshot => most + 10,
            FillStage::Batch => most + 9,
            FillStage::BlockCount => most + 8,
            FillStage::StartBlock => most + 7,
            FillStage::TxCount { .. } => most + 6,
            FillStage::TxInfo { start, tx_id, .. } => (4 * (tx_id - start) + 5) as nat,
            FillStage::Blob { start, tx_id, .. } => (4 * (tx_id - start) + 4) as nat,
            FillStage::Insert { start, tx_id, .. } => (4 * (tx_id - start) + 3) as nat,
            FillStage::Commit { start, tx_id, .. } => (4 * (tx_id - start) + 2) as nat,
            FillStage::LastCommit => 1,
            FillStage::Over => 0,
        }
    }

    proof fn lemma_goes_on(self, reply: Reply) {
    }

    fn step(self, reply: Reply) -> (outcome: Option<(Self, Action<()>)>) {
        proof {
            self.lemma_goes_on(reply);
        }
        match (self.stage, reply) {
            (FillStage::Over, _) => None,
            (_, Reply::Failed) => Some(
                (
                    FillPrunableTip { stage: FillStage::Over },
                    Action::Finished(Err(BlockchainError::Storage)),
                ),
            ),
            (FillStage::Keyspace, Reply::Done) => Some(
                (
                    FillPrunableTip { stage: FillStage::Snapshot },
                    Action::Perform(Request::TakeTapesSnapshot),
                ),
            ),
            (FillStage::Snapshot, Reply::Done) => Some(
                (
                    FillPrunableTip { stage: FillStage::Batch },
                    Action::Perform(Request::BeginBatch { durability: Durability::Standard }),
                ),
            ),
            (FillStage::Batch, Reply::Done) => Some(
                (
                    FillPrunableTip { stage: FillStage::BlockCount },
                    Action::Perform(Request::TapeLen { tape: Tape::BlockInfos }),
                ),
            ),
            (FillStage::BlockCount, Reply::Len(len)) => {
                let block_count: u64 = len.unwrap_or(0);
                let height: u64 = block_count.saturating_sub(CRYPTONOTE_PRUNING_TIP_BLOCKS as u64);
                Some(
                    (
                        FillPrunableTip { stage: FillStage::StartBlock },
                        Action::Perform(Request::ReadBlockInfo { height }),
                    ),
                )
            },
            (FillStage::StartBlock, Reply::BlockInfo(info)) => {
                let start: u64 = match info {
                    Some(info) => info.mining_tx_index,
                    None => 0,
                };
                Some(
                    (
                        FillPrunableTip { stage: FillStage::TxCount { start } },
                        Action::Perform(Request::TapeLen { tape: Tape::TxInfos }),
                    ),
                )
            },
            (FillStage::TxCount { start }, Reply::Len(len)) => {
                let end: u64 = len.unwrap_or(0);
                Some(Self::proceed(start, end, end))
            },
            (FillStage::TxInfo { start, end, tx_id }, Reply::TxInfo(Some(info))) => {
                if info.v1 {
                    return Some(Self::proceed(start, end, tx_id));
                }
                match tx_stripe(&info) {
                    Some(stripe) => Some(
                        (
                            FillPrunableTip {
                                stage: FillStage::Blob {
                                    start,
                                    end,
                                    tx_id,
                                    len: info.prunable_size,
                                },
                            },
                            Action::Perform(
                                Request::ReadBytes {
                                    tape: Tape::Prunable(stripe as usize - 1),
                                    offset: info.prunable_blob_idx,
                                    len: info.prunable_size,
                                },
                            ),
                        ),
                    ),
                    None => None,
                }
            },
            (FillStage::Blob { start, end, tx_id, len }, Reply::Bytes(blob)) => {
                if blob.len() != len {
                    return None;
                }
                Some(
                    (
                        FillPrunableTip { stage: FillStage::Insert { start, end, tx_id } },
                        Action::Perform(Request::InsertTip { tx_id, blob }),
                    ),
                )
            },
            (FillStage::Insert { start, end, tx_id }, Reply::Done) => {
                if (end - tx_id) % TIP_BATCH_SIZE == 0 {
                    Some(
                        (
                            FillPrunableTip { stage: FillStage::Commit { start, end, tx_id } },
                            Action::Perform(Request::CommitBatch),
                        ),
                    )
                } else {
                    Some(Self::proceed(start, end, tx_id))
                }
            },
            (FillStage::Commit { start, end, tx_id }, Reply::Done) => Some(
                Self::proceed(start, end, tx_id),
            ),
            (FillStage::LastCommit, Reply::Done) => Some(
                (FillPrunableTip { stage: FillStage::Over }, Action::Finished(Ok(()))),
            ),
            _ => None,
        }
    }
}

} // verus!
