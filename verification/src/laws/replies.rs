//! Which replies the operations go on after.
//!
//! An operation takes what answers the request that it made, and does not go on after anything
//! else, nor after what only a corrupt database can answer.

use vstd::arithmetic::power2::pow2;
use vstd::prelude::*;

use crate::activation::{DeleteUnnecessaryTapes, EnablePruning, PruneStage};
use crate::closing::CloseDatabase;
use crate::consistency::{ConsistencyStage, MakeConsistent};
use crate::fill::{FillPrunableTip, FillStage};
use crate::laws::stripes::{lemma_seed_of_stored_bytes, lemma_stripe_of_tx};
use crate::opening::{OpenDatabase, OpenStage};
use crate::operation::Operation;
use crate::outside::{block_hash, block_tx_count, is_transaction};
use crate::reading::{ReadStage, ReadTransactions};
use crate::rebuild::{RebuildDatabase, RebuildStage};
use crate::replay::{ReplayStage, ReplayTapes};
use crate::request::{Action, Reply, Request};
use crate::tips::TipsMatch;

verus! {

/// Four bytes that hold a seed: none of the stripes that there are not.
pub open spec fn is_stored_seed(bytes: Seq<u8>) -> bool {
    let number = bytes[0] + 256 * bytes[1] + 65536 * bytes[2] + 16777216 * bytes[3];
    &&& bytes.len() == 4
    &&& number == 0 || number % 128 < pow2(((number / 128) % 8) as nat)
}

/// Opening a database goes on after a failure, and after what answers its request. It does not go
/// on with bytes that are no seed.
pub proof fn lemma_open_takes(open: OpenDatabase, reply: Reply)
    ensures
        open.next(reply) is Some <==> match open.stage {
            OpenStage::Over => false,
            OpenStage::TipExists => reply is Failed || reply is Exists,
            OpenStage::SeedLen => reply is Failed || reply is Len,
            OpenStage::Seed => {
                ||| reply is Failed
                ||| reply matches Reply::Bytes(bytes) && is_stored_seed(bytes@)
            },
            _ => reply is Failed || reply is Done,
        },
{
    match reply {
        Reply::Bytes(bytes) => {
            lemma_seed_of_stored_bytes(bytes@);
        },
        _ => {},
    }
}

/// The seed that opening a database finds is that of the bytes that it read, and that of a node
/// that is not pruned if there are none. It knows of a `prunable_tip` if it opened one.
pub proof fn lemma_open_learns(open: OpenDatabase, reply: Reply)
    ensures
        open.next(reply) matches Some((then, _)) ==> {
            &&& open.stage is Seed && reply is Bytes ==> {
                let bytes = reply->Bytes_0@;
                let number = bytes[0] + 256 * bytes[1] + 65536 * bytes[2] + 16777216 * bytes[3];
                &&& number == 0 ==> then.seed.stripe() is None
                &&& number != 0 ==> then.seed.stripe() == Some((number % 128 + 1) as u32)
            }
            &&& open.stage is SeedLen && reply is Len && (reply->Len_0 is None || reply->Len_0
                == Some(0u64)) ==> then.seed == open.seed && !(then.stage is Seed)
            &&& open.stage is SeedLen && reply is Len && reply->Len_0 is Some && reply->Len_0
                != Some(0u64) ==> then.stage is Seed
            &&& open.stage is TipExists && reply == Reply::Exists(true) ==> then.stage is Tip
            &&& open.stage is TipExists && reply == Reply::Exists(false) ==> then.stage is Tapes
            &&& then.prunable_tip <==> open.prunable_tip || open.stage is Tip && reply is Done
        },
{
    match reply {
        Reply::Bytes(bytes) => {
            lemma_seed_of_stored_bytes(bytes@);
        },
        _ => {},
    }
}

/// Filling `prunable_tip` goes on after a failure, and after what answers its request. It does not
/// go on without a transaction that there should be, at a height that no chain reaches, or with
/// fewer or more bytes than it asked for.
pub proof fn lemma_fill_takes(fill: FillPrunableTip, reply: Reply)
    ensures
        fill.next(reply) is Some <==> match fill.stage {
            FillStage::Over => false,
            FillStage::BlockCount => reply is Failed || reply is Len,
            FillStage::StartBlock => reply is Failed || reply is BlockInfo,
            FillStage::TxCount { .. } => reply is Failed || reply is Len,
            FillStage::TxInfo { .. } => {
                ||| reply is Failed
                ||| reply matches Reply::TxInfo(Some(info)) && (info.v1 || info.height + 5500
                    < usize::MAX)
            },
            FillStage::Blob { len, .. } => {
                ||| reply is Failed
                ||| reply matches Reply::Bytes(bytes) && bytes@.len() == len
            },
            _ => reply is Failed || reply is Done,
        },
{
    match reply {
        Reply::TxInfo(Some(info)) => {
            lemma_stripe_of_tx(info);
        },
        _ => {},
    }
}

/// Which transactions the filling deals with: from the ID that the info of the first block tells,
/// or from the first of all without one, up to the last of all, from the top down and one after
/// the other. It skips those of version 1.
pub proof fn lemma_fill_goes_down(fill: FillPrunableTip, reply: Reply)
    ensures
        fill.next(reply) matches Some((then, _)) ==> {
            &&& fill.stage is StartBlock && !(reply is Failed) ==> {
                &&& then.stage matches FillStage::TxCount { start }
                &&& start == match reply->BlockInfo_0 {
                    Some(info) => info.mining_tx_index,
                    None => 0,
                }
            }
            &&& fill.stage matches FillStage::TxCount { start } ==> !(reply is Failed) ==> {
                let count = match reply->Len_0 {
                    Some(count) => count,
                    None => 0,
                };
                if count > start {
                    then.stage == (FillStage::TxInfo {
                        start,
                        end: count,
                        tx_id: (count - 1) as u64,
                    })
                } else {
                    then.stage is LastCommit
                }
            }
            &&& fill.stage matches FillStage::TxInfo { start, end, tx_id } ==> !(reply is Failed)
                ==> {
                let info = reply->TxInfo_0->0;
                if !info.v1 {
                    then.stage == (FillStage::Blob { start, end, tx_id, len: info.prunable_size })
                } else if tx_id > start {
                    then.stage == (FillStage::TxInfo { start, end, tx_id: (tx_id - 1) as u64 })
                } else {
                    then.stage is LastCommit
                }
            }
            &&& fill.stage matches FillStage::Insert { start, end, tx_id } ==> !(reply is Failed)
                ==> {
                if (end - tx_id) % 1000 == 0 {
                    then.stage == (FillStage::Commit { start, end, tx_id })
                } else if tx_id > start {
                    then.stage == (FillStage::TxInfo { start, end, tx_id: (tx_id - 1) as u64 })
                } else {
                    then.stage is LastCommit
                }
            }
            &&& fill.stage matches FillStage::Commit { start, end, tx_id } ==> !(reply is Failed)
                ==> if tx_id > start {
                then.stage == (FillStage::TxInfo { start, end, tx_id: (tx_id - 1) as u64 })
            } else {
                then.stage is LastCommit
            }
        },
{
}

/// Deleting tapes goes on after a failure and after a deletion.
pub proof fn lemma_delete_takes(delete: DeleteUnnecessaryTapes, reply: Reply)
    ensures
        delete.next(reply) is Some <==> delete.deleting is Some && (reply is Failed || reply
            is Done),
{
}

/// Turning a node into a pruned one goes on after what its filling, its deletion, or its own
/// requests are answered with.
pub proof fn lemma_prune_takes(prune: EnablePruning, reply: Reply)
    ensures
        prune.next(reply) is Some <==> match prune.stage {
            PruneStage::Over => false,
            PruneStage::Fill(fill) => fill.next(reply) is Some,
            PruneStage::Delete(delete) => delete.next(reply) is Some,
            _ => reply is Failed || reply is Done,
        },
{
}

/// Replaying the tapes goes on after what answers its request, and after a failure, but for one to
/// read or set aside a transaction. It does not go on with bytes that are no block or no
/// transaction, without a number of blocks and transactions, or without a transaction that there
/// should be.
pub proof fn lemma_replay_takes(replay: ReplayTapes, reply: Reply)
    ensures
        replay.next(reply) is Some <==> match replay.stage {
            ReplayStage::Over => false,
            ReplayStage::TxCount => {
                ||| reply is Failed
                ||| reply is Len && reply->Len_0 is Some
            },
            ReplayStage::BlockCount { .. } => {
                ||| reply is Failed
                ||| reply is Len && reply->Len_0 is Some
            },
            ReplayStage::Block { .. } => {
                ||| reply is Failed
                ||| reply matches Reply::Block(block) && block_hash(block@) is Some
                    && block_tx_count(block@) is Some
            },
            ReplayStage::TxInfo { .. } => reply is TxInfo && reply->TxInfo_0 is Some,
            ReplayStage::Blob { len, .. } => reply matches Reply::Bytes(bytes) && bytes@.len()
                == len && is_transaction(bytes@),
            ReplayStage::Staged { .. } => reply is Done,
            ReplayStage::Added { .. } => reply is Failed || reply is Added,
            _ => reply is Failed || reply is Done,
        },
{
}

/// How the replay goes through the tapes, even if they do not agree with each other. It reads the
/// transactions one after the other, and goes on with the block when it has read the one that mined
/// it and as many as the block lists, or when there are none left. It goes through the blocks one
/// after the other, from the first to the last.
pub proof fn lemma_replay_goes_up(replay: ReplayTapes, reply: Reply)
    requires
        replay.ready(),
    ensures
        replay.next(reply) matches Some((then, action)) ==> {
            &&& replay.stage matches ReplayStage::BlockCount { tx_count } ==> !(reply is Failed)
                ==> {
                if reply->Len_0 == Some(0u64) {
                    then.stage is LastCommit
                } else {
                    &&& then.stage matches ReplayStage::Block { progress }
                    &&& progress.height == 0
                    &&& progress.next_tx == 0
                    &&& progress.numb_txs == 0
                    &&& progress.tx_count == tx_count
                    &&& Some(progress.block_count) == reply->Len_0
                }
            }
            &&& replay.stage matches ReplayStage::Block { progress } ==> !(reply is Failed) ==> {
                if progress.next_tx < progress.tx_count {
                    &&& then.stage matches ReplayStage::TxInfo { progress: same, pending }
                    &&& same == progress
                    &&& pending.miner
                    &&& reply == Reply::Block(pending.block)
                    &&& block_hash(pending.block@) == Some(pending.hash)
                    &&& block_tx_count(pending.block@) == Some(pending.left)
                    &&& action == Action::<()>::Perform(
                        Request::ReadTxInfo { tx_id: progress.next_tx },
                    )
                } else {
                    &&& then.stage == (ReplayStage::Added { progress })
                    &&& action matches Action::Perform(Request::AddBlock { block, hash, numb_txs })
                    &&& reply == Reply::Block(block)
                    &&& block_hash(block@) == Some(hash)
                    &&& numb_txs == progress.numb_txs
                }
            }
            &&& replay.stage matches ReplayStage::Blob { progress, pending, .. } ==> {
                if pending.miner {
                    &&& action matches Action::Perform(request)
                    &&& if progress.next_tx + 1 < progress.tx_count && pending.left > 0 {
                        request == (Request::ReadTxInfo { tx_id: (progress.next_tx + 1) as u64 })
                    } else {
                        request == (Request::AddBlock {
                            block: pending.block,
                            hash: pending.hash,
                            numb_txs: progress.numb_txs,
                        })
                    }
                } else {
                    &&& action matches Action::Perform(Request::StageTransaction { blob })
                    &&& reply == Reply::Bytes(blob)
                }
            }
            &&& replay.stage matches ReplayStage::Staged { progress, pending } ==> {
                &&& action matches Action::Perform(request)
                &&& if progress.next_tx + 1 < progress.tx_count && pending.left > 1 {
                    request == (Request::ReadTxInfo { tx_id: (progress.next_tx + 1) as u64 })
                } else {
                    request == (Request::AddBlock {
                        block: pending.block,
                        hash: pending.hash,
                        numb_txs: progress.numb_txs,
                    })
                }
            }
            &&& replay.stage matches ReplayStage::Added { progress } ==> !(reply is Failed) ==> {
                if progress.height % 1000 == 0 {
                    &&& then.stage matches ReplayStage::Commit { progress: added }
                    &&& added.height == progress.height
                    &&& added.next_tx == progress.next_tx
                    &&& added.block_count == progress.block_count
                    &&& added.tx_count == progress.tx_count
                    &&& reply == Reply::Added(added.numb_txs)
                } else if progress.height + 1 < progress.block_count {
                    &&& then.stage matches ReplayStage::Block { progress: added }
                    &&& added.height == progress.height + 1
                    &&& added.next_tx == progress.next_tx
                    &&& added.block_count == progress.block_count
                    &&& added.tx_count == progress.tx_count
                    &&& reply == Reply::Added(added.numb_txs)
                } else {
                    then.stage is LastCommit
                }
            }
            &&& replay.stage matches ReplayStage::Commit { progress } ==> !(reply is Failed) ==> {
                if progress.height + 1 < progress.block_count {
                    &&& then.stage matches ReplayStage::Block { progress: committed }
                    &&& committed.height == progress.height + 1
                    &&& committed.next_tx == progress.next_tx
                    &&& committed.block_count == progress.block_count
                    &&& committed.tx_count == progress.tx_count
                    &&& committed.numb_txs == progress.numb_txs
                } else {
                    then.stage is LastCommit
                }
            }
        },
{
}

/// Building the keyspaces anew goes on after what its replay, or its own requests, are answered
/// with.
pub proof fn lemma_rebuild_takes(rebuild: RebuildDatabase, reply: Reply)
    ensures
        rebuild.next(reply) is Some <==> match rebuild.stage {
            RebuildStage::Over => false,
            RebuildStage::Replay(replay) => replay.next(reply) is Some,
            RebuildStage::Recreate(_) => reply is Failed || reply is Done,
        },
{
}

/// Comparing the tips goes on after a failure, and after what answers its request. It does not go
/// on without a number of blocks.
pub proof fn lemma_compare_takes(tips: TipsMatch, reply: Reply)
    ensures
        tips.next(reply) is Some <==> match tips {
            TipsMatch::Over => false,
            TipsMatch::Height => reply is Failed || reply is Len && reply->Len_0 is Some,
            TipsMatch::TopBlock => reply is Failed || reply is BlockInfo,
            TipsMatch::ChainTip { .. } => reply is Failed || reply is ChainTip,
        },
        tips.next(reply) matches Some((then, _)) ==> {
            &&& tips is Height && reply == Reply::Len(Some(0)) ==> then == (TipsMatch::ChainTip {
                tapes_tip: None,
            })
            &&& tips is TopBlock && reply is BlockInfo ==> match reply->BlockInfo_0 {
                Some(info) => then == (TipsMatch::ChainTip { tapes_tip: Some(info.block_hash) }),
                None => then is Over,
            }
        },
{
}

/// A reader goes on after what its comparison, or its own requests, are answered with.
pub proof fn lemma_read_takes(read: ReadTransactions, reply: Reply)
    ensures
        read.next(reply) is Some <==> match read.stage {
            ReadStage::Over => false,
            ReadStage::Tips(tips) => tips.next(reply) is Some,
            _ => reply is Failed || reply is Done,
        },
{
}

/// Bringing a database into the state that it should be in goes on after what its parts, or its
/// own request, are answered with.
pub proof fn lemma_make_consistent_takes(operation: MakeConsistent, reply: Reply)
    ensures
        operation.next(reply) is Some <==> match operation.stage {
            ConsistencyStage::Over => false,
            ConsistencyStage::Tips(tips) => tips.next(reply) is Some,
            ConsistencyStage::Rebuild(rebuild) => rebuild.next(reply) is Some,
            ConsistencyStage::Prune(prune) => prune.next(reply) is Some,
            ConsistencyStage::Snapshots => reply is Failed || reply is Done,
        },
{
}

/// Closing a database goes on after a failure, and after what it asked for.
pub proof fn lemma_close_takes(close: CloseDatabase, reply: Reply)
    ensures
        close.next(reply) is Some <==> !(close is Over) && (reply is Failed || reply is Done),
{
}

} // verus!
