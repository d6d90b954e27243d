//! Whether the key-value store and the tapes are at the same main-chain tip.

use vstd::prelude::*;

use crate::layout::Tape;
use crate::operation::Operation;
use crate::request::{Action, BlockchainError, Reply, Request};

verus! {

/// How often [`ReadTransactions`] takes a pair of snapshots before it gives up.
pub const TIPS_MATCH_RETRIES: u64 = 6_000;

/// How many milliseconds [`ReadTransactions`] waits before it takes the next pair.
pub const TIPS_MATCH_RETRY_DELAY: u64 = 10;

/// Both ends are empty, or both are at the block with the same hash.
pub open spec fn tips_agree(tapes_tip: Option<[u8; 32]>, store_tip: Option<Seq<u8>>) -> bool {
    match (tapes_tip, store_tip) {
        (None, None) => true,
        (Some(hash), Some(bytes)) => hash@ == bytes,
        _ => false,
    }
}

/// The bytes that a reply carries.
pub open spec fn optional_bytes(bytes: Option<Vec<u8>>) -> Option<Seq<u8>> {
    match bytes {
        Some(bytes) => Some(bytes@),
        None => None,
    }
}

/// Whether the block hash at the top of the tapes, if there is one, is what the key-value store
/// holds as the chain tip, if it holds one.
pub fn same_tip(tapes_tip: &Option<[u8; 32]>, store_tip: &Option<Vec<u8>>) -> (same: bool)
    ensures
        same == tips_agree(*tapes_tip, optional_bytes(*store_tip)),
{
    match (tapes_tip, store_tip) {
        (None, None) => true,
        (Some(hash), Some(bytes)) => {
            if bytes.len() != 32 {
                return false;
            }
            let mut i: usize = 0;
            while i < 32
                invariant
                    i <= 32,
                    *tapes_tip == Some(*hash),
                    *store_tip == Some(*bytes),
                    bytes@.len() == 32,
                    forall|j: int| 0 <= j < i ==> hash@[j] == bytes@[j],
                decreases 32 - i,
            {
                if hash[i] != bytes[i] {
                    return false;
                }
                i = i + 1;
            }
            assert(hash@ =~= bytes@);
            true
        },
        _ => false,
    }
}

/// Compares the main-chain tip of the tapes with that of the key-value store, in the snapshots
/// that were taken last.
#[derive(Debug)]
pub enum TipsMatch {
    /// Waits for the number of blocks.
    Height,
    /// Waits for the info of the top block.
    TopBlock,
    /// Waits for the tip of the key-value store.
    ChainTip { tapes_tip: Option<[u8; 32]> },
    /// There is nothing left to do.
    Over,
}

impl TipsMatch {
    /// Where the comparison starts.
    pub open spec fn started() -> (Self, Action<bool>) {
        (TipsMatch::Height, Action::Perform(Request::TapeLen { tape: Tape::BlockInfos }))
    }

    /// Starts the comparison.
    pub fn tips_match() -> (start: (Self, Action<bool>))
        ensures
            start == Self::started(),
            start.0.ready(),
    {
        (TipsMatch::Height, Action::Perform(Request::TapeLen { tape: Tape::BlockInfos }))
    }
}

impl Operation<bool> for TipsMatch {
    open spec fn ready(&self) -> bool {
        true
    }

    open spec fn next(self, reply: Reply) -> Option<(Self, Action<bool>)> {
        match (self, reply) {
            (TipsMatch::Over, _) => None,
            (_, Reply::Failed) => Some(
                (TipsMatch::Over, Action::Finished(Err(BlockchainError::Storage))),
            ),
            (TipsMatch::Height, Reply::Len(Some(height))) => if height == 0 {
                Some(
                    (
                        TipsMatch::ChainTip { tapes_tip: None },
                        Action::Perform(Request::ReadChainTip),
                    ),
                )
            } else {
                Some(
                    (
                        TipsMatch::TopBlock,
                        Action::Perform(Request::ReadBlockInfo { height: (height - 1) as u64 }),
                    ),
                )
            },
            (TipsMatch::TopBlock, Reply::BlockInfo(Some(info))) => Some(
                (
                    TipsMatch::ChainTip { tapes_tip: Some(info.block_hash) },
                    Action::Perform(Request::ReadChainTip),
                ),
            ),
            (TipsMatch::TopBlock, Reply::BlockInfo(None)) => Some(
                (TipsMatch::Over, Action::Finished(Err(BlockchainError::NotFound))),
            ),
            (TipsMatch::ChainTip { tapes_tip }, Reply::ChainTip(store_tip)) => Some(
                (
                    TipsMatch::Over,
                    Action::Finished(Ok(tips_agree(tapes_tip, optional_bytes(store_tip)))),
                ),
            ),
            _ => None,
        }
    }

    open spec fn rank(&self) -> nat {
        match self {
            TipsMatch::Height => 3,
            TipsMatch::TopBlock => 2,
            TipsMatch::ChainTip { .. } => 1,
            TipsMatch::Over => 0,
        }
    }

    proof fn lemma_goes_on(self, reply: Reply) {
    }

    fn step(self, reply: Reply) -> (outcome: Option<(Self, Action<bool>)>) {
        proof {
            self.lemma_goes_on(reply);
        }
        match (self, reply) {
            (TipsMatch::Over, _) => None,
            (_, Reply::Failed) => Some(
                (TipsMatch::Over, Action::Finished(Err(BlockchainError::Storage))),
            ),
            (TipsMatch::Height, Reply::Len(Some(height))) => match height.checked_sub(1) {
                Some(top_height) => Some(
                    (
                        TipsMatch::TopBlock,
                        Action::Perform(Request::ReadBlockInfo { height: top_height }),
                    ),
                ),
                None => Some(
                    (
                        TipsMatch::ChainTip { tapes_tip: None },
                        Action::Perform(Request::ReadChainTip),
                    ),
                ),
            },
            (TipsMatch::TopBlock, Reply::BlockInfo(Some(info))) => Some(
                (
                    TipsMatch::ChainTip { tapes_tip: Some(info.block_hash) },
                    Action::Perform(Request::ReadChainTip),
                ),
            ),
            (TipsMatch::TopBlock, Reply::BlockInfo(None)) => Some(
                (TipsMatch::Over, Action::Finished(Err(BlockchainError::NotFound))),
            ),
            (TipsMatch::ChainTip { tapes_tip }, Reply::ChainTip(store_tip)) => Some(
                (TipsMatch::Over, Action::Finished(Ok(same_tip(&tapes_tip, &store_tip)))),
            ),
            _ => None,
        }
    }
}

} // verus!
