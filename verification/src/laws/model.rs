//! A model of the storage of a node, which the laws of the database speak of.

use vstd::prelude::*;

use crate::layout::{
    alt_chain_keyspaces, main_chain_keyspaces, seed_bytes, Keyspace, Tape, TapeDir,
};
use crate::operation::{Operation, StorageModel};
use crate::request::{Action, BlockInfo, Reply, Request, TxInfo};
use crate::tips::{optional_bytes, tips_agree};

verus! {

/// A block that was added to the main-chain keyspaces.
pub struct Addition {
    /// The serialization of the block.
    pub block: Seq<u8>,
    /// The hash that it was added under.
    pub hash: [u8; 32],
    /// The pruned blobs of the transactions that were set aside for it.
    pub txs: Seq<Seq<u8>>,
    /// The blocks that the number of outputs of each amount counted, from which the outputs of
    /// this one were numbered on.
    pub counted: Seq<Seq<u8>>,
}

/// What a node stores.
#[verifier::ext_equal]
pub struct Storage {
    /// The serializations of the blocks that the `pruned_blobs` tape holds, by height.
    pub blocks: Seq<Seq<u8>>,
    /// The `block_infos` tape.
    pub block_infos: Seq<BlockInfo>,
    /// The `tx_infos` tape.
    pub tx_infos: Seq<TxInfo>,
    /// The `pruned_blobs` tape.
    pub pruned_blobs: Seq<u8>,
    /// The prunable tapes that there are below the blob directory, by index. A request for one
    /// below another directory has no bearing on these.
    pub prunable: Map<int, Seq<u8>>,
    /// The `tapes_metadata` tape, as far as it is committed.
    pub metadata: Seq<u8>,
    /// What the append transaction adds to it.
    pub appended: Seq<u8>,
    /// Whether there is a `prunable_tip` keyspace.
    pub tip_exists: bool,
    /// The `prunable_tip` keyspace, as far as it is committed.
    pub tip: Map<u64, Seq<u8>>,
    /// What the write batch adds to it.
    pub tip_batch: Map<u64, Seq<u8>>,
    /// Whether a crash leaves a `prunable_tip` keyspace.
    pub synced_tip_exists: bool,
    /// What a crash leaves of it.
    pub synced_tip: Map<u64, Seq<u8>>,
    /// The blocks that each main-chain keyspace was derived from.
    pub derived: Map<Keyspace, Seq<Addition>>,
    /// The blocks that the write batch adds to all of them.
    pub batch: Seq<Addition>,
    /// The transactions that were set aside for the next block.
    pub staged: Seq<Seq<u8>>,
    /// The blocks that the number of outputs of each amount counts, for outputs from before
    /// RingCT. The numbers are cached, and a block counts as soon as it is in the write batch.
    pub counted: Seq<Seq<u8>>,
    /// The alt-chain keyspaces that are not empty.
    pub alt: Set<Keyspace>,
}

impl Storage {
    /// The hash of the block that the tapes end in.
    pub open spec fn tapes_tip(self) -> Option<[u8; 32]> {
        if self.block_infos.len() == 0 {
            None
        } else {
            Some(self.block_infos.last().block_hash)
        }
    }

    /// The hash that the `chain_tip` keyspace holds.
    pub open spec fn store_tip(self) -> Option<Seq<u8>> {
        let chain = self.derived[Keyspace::ChainTip];
        if chain.len() == 0 {
            None
        } else {
            Some(chain.last().hash@)
        }
    }

    /// The keyspaces are at the same main-chain tip as the tapes.
    pub open spec fn in_sync(self) -> bool {
        tips_agree(self.tapes_tip(), self.store_tip())
    }

    /// The bytes of a tape of blobs, if there is such a tape.
    pub open spec fn tape_bytes(self, tape: Tape) -> Option<Seq<u8>> {
        match tape {
            Tape::TapesMetadata => Some(self.metadata),
            Tape::PrunedBlobs => Some(self.pruned_blobs),
            Tape::Prunable(index) => if self.prunable.contains_key(index as int) {
                Some(self.prunable[index as int])
            } else {
                None
            },
            _ => None,
        }
    }

    /// The number of entries or bytes of a tape.
    pub open spec fn tape_len(self, tape: Tape) -> nat {
        match tape {
            Tape::BlockInfos => self.block_infos.len(),
            Tape::TxInfos => self.tx_infos.len(),
            _ => match self.tape_bytes(tape) {
                Some(bytes) => bytes.len(),
                None => 0,
            },
        }
    }

    /// The storage has what the request asks for.
    pub open spec fn can_answer(self, request: Request) -> bool {
        match request {
            Request::TapeLen { tape } => self.tape_len(tape) <= u64::MAX,
            Request::IterateTxInfos => self.tx_infos.len() <= u64::MAX,
            Request::ReadBytes { tape, offset, len } => match self.tape_bytes(tape) {
                Some(bytes) => offset + len <= bytes.len(),
                None => false,
            },
            Request::GetBlock { height } => height < self.blocks.len(),
            _ => true,
        }
    }

    /// The storage with the write batch committed.
    pub open spec fn batch_committed(self) -> Self {
        Storage {
            tip: self.tip.union_prefer_right(self.tip_batch),
            tip_batch: Map::empty(),
            derived: self.derived.map_values(|chain: Seq<Addition>| chain + self.batch),
            batch: Seq::empty(),
            ..self
        }
    }

    /// The storage with a keyspace emptied, and nothing cached of it.
    pub open spec fn keyspace_emptied(self, keyspace: Keyspace) -> Self {
        if keyspace == Keyspace::PreRctOutputs {
            Storage {
                derived: self.derived.insert(keyspace, Seq::empty()),
                counted: Seq::empty(),
                ..self
            }
        } else if main_chain_keyspaces().contains(keyspace) {
            Storage { derived: self.derived.insert(keyspace, Seq::empty()), ..self }
        } else if alt_chain_keyspaces().contains(keyspace) {
            Storage { alt: self.alt.remove(keyspace), ..self }
        } else {
            Storage { tip: Map::empty(), ..self }
        }
    }
}

/// The operation is over, or waits for something that the storage has, and goes on whatever the
/// storage answers, if the request does not fail.
pub open spec fn proceeds<T, M: Operation<T>>(
    storage: Storage,
    operation: M,
    action: Action<T>,
) -> bool {
    match action {
        Action::Perform(request) => {
            &&& storage.can_answer(request)
            &&& forall|reply: Reply|
                storage.answers(request, reply) && !(reply is Failed) ==> (
                #[trigger] operation.next(reply)) is Some
        },
        Action::Finished(_) => true,
    }
}

impl StorageModel for Storage {
    /// Any request may fail. One that does not is answered from what is stored.
    open spec fn answers(self, request: Request, reply: Reply) -> bool {
        reply is Failed || match request {
            Request::KeyspaceExists { keyspace } => reply == Reply::Exists(
                keyspace != Keyspace::PrunableTip || self.tip_exists,
            ),
            Request::ReadChainTip => match reply {
                Reply::ChainTip(tip) => optional_bytes(tip) == self.store_tip(),
                _ => false,
            },
            Request::TapeLen { tape } => match reply {
                Reply::Len(Some(len)) => len == self.tape_len(tape),
                _ => false,
            },
            Request::IterateTxInfos => match reply {
                Reply::Len(Some(len)) => len == self.tx_infos.len(),
                _ => false,
            },
            Request::ReadBlockInfo { height } => reply == Reply::BlockInfo(
                if height < self.block_infos.len() {
                    Some(self.block_infos[height as int])
                } else {
                    None
                },
            ),
            Request::ReadTxInfo { tx_id } => reply == Reply::TxInfo(
                if tx_id < self.tx_infos.len() {
                    Some(self.tx_infos[tx_id as int])
                } else {
                    None
                },
            ),
            Request::ReadBytes { tape, offset, len } => match (self.tape_bytes(tape), reply) {
                (Some(bytes), Reply::Bytes(read)) => {
                    &&& offset + len <= bytes.len()
                    &&& read@ == bytes.subrange(offset as int, offset + len)
                },
                _ => false,
            },
            Request::GetBlock { height } => match reply {
                Reply::Block(block) => {
                    &&& height < self.blocks.len()
                    &&& block@ == self.blocks[height as int]
                },
                _ => false,
            },
            Request::AddBlock { .. } => reply is Added,
            _ => reply is Done,
        }
    }

    open spec fn performed(self, request: Request) -> Self {
        match request {
            Request::OpenKeyspace { keyspace, .. } => if keyspace == Keyspace::PrunableTip {
                Storage { tip_exists: true, ..self }
            } else {
                self
            },
            Request::RecreateKeyspace { keyspace, .. } => self.keyspace_emptied(keyspace),
            Request::BeginBatch { .. } => Storage {
                tip_batch: Map::empty(),
                batch: Seq::empty(),
                staged: Seq::empty(),
                ..self
            },
            Request::InsertTip { tx_id, blob } => Storage {
                tip_batch: self.tip_batch.insert(tx_id, blob@),
                ..self
            },
            Request::CommitBatch => self.batch_committed(),
            Request::PersistKeyspaces => Storage {
                synced_tip_exists: self.tip_exists,
                synced_tip: self.tip,
                ..self
            },
            Request::BeginAppend => Storage { appended: Seq::empty(), ..self },
            Request::OpenTape { tape, options } => match tape {
                Tape::Prunable(index) => if self.prunable.contains_key(index as int)
                    || options.dir != TapeDir::Blob {
                    self
                } else {
                    Storage {
                        prunable: self.prunable.insert(index as int, Seq::empty()),
                        ..self
                    }
                },
                _ => self,
            },
            Request::AppendSeed { seed } => Storage {
                appended: self.appended + seed_bytes(seed),
                ..self
            },
            Request::CommitTapes => Storage {
                metadata: self.metadata + self.appended,
                appended: Seq::empty(),
                ..self
            },
            Request::DeleteTape { tape, options } => match tape {
                Tape::Prunable(index) => if options.dir != TapeDir::Blob {
                    self
                } else {
                    Storage { prunable: self.prunable.remove(index as int), ..self }
                },
                _ => self,
            },
            Request::StageTransaction { blob } => Storage {
                staged: self.staged.push(blob@),
                ..self
            },
            Request::AddBlock { block, hash, .. } => Storage {
                batch: self.batch.push(
                    Addition {
                        block: block@,
                        hash,
                        txs: self.staged,
                        counted: self.counted,
                    },
                ),
                staged: Seq::empty(),
                counted: self.counted.push(block@),
                ..self
            },
            _ => self,
        }
    }
}

} // verus!
