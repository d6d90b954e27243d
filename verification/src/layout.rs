//! Where the database keeps what: its keyspaces, its tapes, and the options they are opened with.

use vstd::prelude::*;

use crate::encoding::{byte_range, le_bytes, lemma_le_injective, to_le_bytes};
use crate::pruning::PruningSeed;

verus! {

/// The number of tapes that the prunable blobs are spread over, one per stripe.
pub const PRUNABLE_TAPES: usize = 8;

/// The number of keyspaces that every node opens.
pub const CHAIN_KEYSPACES: usize = 12;

/// The number of tapes that every node opens.
pub const COMMON_TAPES: usize = 6;

/// The bytes of the top of the `tapes_metadata` tape that are kept in memory.
pub const METADATA_CACHE_SIZE: u64 = 8;

/// The size from which the values of `prunable_tip` are stored apart from their keys.
pub const PRUNABLE_TIP_SEPARATION_THRESHOLD: u32 = 3000;

/// A keyspace of the key-value store.
#[derive(Clone, Copy, Debug, PartialEq, Eq, Hash, Structural)]
pub enum Keyspace {
    /// Block hash to block height.
    BlockHeights,
    /// The hash of the block that the main chain ends in.
    ChainTip,
    /// The key images that were spent.
    KeyImages,
    /// Output ID to output, for outputs from before RingCT.
    PreRctOutputs,
    /// Transaction hash to transaction ID.
    TxIds,
    /// Transaction ID to amount indices, for version 1 transactions.
    V1TxOutputs,
    /// Chain ID to alt chain info.
    AltChainInfos,
    /// Block hash to alt block height.
    AltBlockHeights,
    /// Alt block height to alt block info.
    AltBlockInfos,
    /// Alt block height to block blob.
    AltBlockBlobs,
    /// Transaction hash to transaction blob.
    AltTransactionBlobs,
    /// Transaction hash to alt transaction info.
    AltTransactionInfos,
    /// Transaction ID to prunable blob, for the top of the chain of a pruned node.
    PrunableTip,
}

/// A tape.
#[derive(Clone, Copy, Debug, PartialEq, Eq, Hash, Structural)]
pub enum Tape {
    /// RingCT outputs, by output index.
    RctOutputs,
    /// Transaction infos, by transaction ID.
    TxInfos,
    /// Block infos, by height.
    BlockInfos,
    /// The compressed pruning seed of a pruned node, empty for a node that is not pruned.
    TapesMetadata,
    /// The blocks, and the part of each transaction that is never pruned.
    PrunedBlobs,
    /// The prunable part of version 1 transactions, which is never pruned either.
    V1PrunableBlobs,
    /// The prunable part of later transactions, for the stripe at this index, counted from zero.
    Prunable(usize),
}

/// A directory that tapes are kept in.
#[derive(Clone, Copy, Debug, PartialEq, Eq, Structural)]
pub enum TapeDir {
    /// The tapes directory below the index directory.
    Index,
    /// The tapes directory below the blob directory.
    Blob,
}

/// What a tape is opened with.
#[derive(Clone, Copy, Debug, PartialEq, Eq, Structural)]
pub struct TapeOptions {
    /// How many bytes of the top of the tape to keep in memory.
    pub top_cache_size: u64,
    /// The directory that the tape is kept in.
    pub dir: TapeDir,
}

/// How values that are stored apart from their keys are compressed.
#[derive(Clone, Copy, Debug, PartialEq, Eq, Structural)]
pub enum Compression {
    /// Not at all.
    Uncompressed,
}

/// How values are stored apart from their keys.
#[derive(Clone, Copy, Debug, PartialEq, Eq, Structural)]
pub struct KvSeparation {
    /// The size from which a value is stored apart from its key.
    pub separation_threshold: u32,
    /// How such values are compressed.
    pub compression: Compression,
}

/// What a keyspace is created with.
#[derive(Clone, Copy, Debug, PartialEq, Eq, Structural)]
pub struct KeyspaceOptions {
    /// Whether large values are stored apart from their keys, and how.
    pub kv_separation: Option<KvSeparation>,
}

/// How many bytes of the top of each tape to keep in memory.
#[derive(Clone, Copy, Debug, PartialEq, Eq, Structural)]
pub struct CacheSizes {
    pub rct_outputs: u64,
    pub tx_infos: u64,
    pub block_infos: u64,
    pub pruned_blobs: u64,
    pub v1_prunable_blobs: u64,
    pub prunable_blobs: u64,
}

/// The part of the configuration that the database decides by.
#[derive(Clone, Copy, Debug, PartialEq, Eq, Structural)]
pub struct Config {
    /// How much of each tape to keep in memory.
    pub cache_sizes: CacheSizes,
    /// Whether the node should be pruned.
    pub prune: bool,
}

/// The keyspaces that hold main-chain data, in the order in which they are opened.
pub open spec fn main_chain_keyspaces() -> Seq<Keyspace> {
    seq![
        Keyspace::BlockHeights,
        Keyspace::ChainTip,
        Keyspace::KeyImages,
        Keyspace::PreRctOutputs,
        Keyspace::TxIds,
        Keyspace::V1TxOutputs,
    ]
}

/// The keyspaces that hold alt-chain data, in the order in which they are opened.
pub open spec fn alt_chain_keyspaces() -> Seq<Keyspace> {
    seq![
        Keyspace::AltChainInfos,
        Keyspace::AltBlockHeights,
        Keyspace::AltBlockInfos,
        Keyspace::AltBlockBlobs,
        Keyspace::AltTransactionBlobs,
        Keyspace::AltTransactionInfos,
    ]
}

/// The keyspaces that every node opens, in the order in which they are opened.
pub open spec fn chain_keyspaces() -> Seq<Keyspace> {
    main_chain_keyspaces() + alt_chain_keyspaces()
}

/// The tapes that every node opens, in the order in which they are opened.
pub open spec fn common_tapes() -> Seq<Tape> {
    seq![
        Tape::RctOutputs,
        Tape::TxInfos,
        Tape::BlockInfos,
        Tape::TapesMetadata,
        Tape::PrunedBlobs,
        Tape::V1PrunableBlobs,
    ]
}

/// The name that a keyspace is stored under.
pub open spec fn keyspace_name(keyspace: Keyspace) -> Seq<char> {
    match keyspace {
        Keyspace::BlockHeights => "block_heights"@,
        Keyspace::ChainTip => "chain_tip"@,
        Keyspace::KeyImages => "key_images"@,
        Keyspace::PreRctOutputs => "pre_rct_outputs"@,
        Keyspace::TxIds => "tx_ids"@,
        Keyspace::V1TxOutputs => "tx_outputs"@,
        Keyspace::AltChainInfos => "alt_chain_infos"@,
        Keyspace::AltBlockHeights => "alt_block_heights"@,
        Keyspace::AltBlockInfos => "alt_block_infos"@,
        Keyspace::AltBlockBlobs => "alt_block_blobs"@,
        Keyspace::AltTransactionBlobs => "alt_transaction_blobs"@,
        Keyspace::AltTransactionInfos => "alt_transaction_infos"@,
        Keyspace::PrunableTip => "prunable_tip"@,
    }
}

/// The name that a tape is stored under.
pub open spec fn tape_name(tape: Tape) -> Seq<char> {
    match tape {
        Tape::RctOutputs => "rct_outputs"@,
        Tape::TxInfos => "tx_infos"@,
        Tape::BlockInfos => "block_infos"@,
        Tape::TapesMetadata => "tapes_metadata"@,
        Tape::PrunedBlobs => "pruned_blobs"@,
        Tape::V1PrunableBlobs => "v1_prunable_blobs"@,
        Tape::Prunable(index) => if index == 0 {
            "prunable1"@
        } else if index == 1 {
            "prunable2"@
        } else if index == 2 {
            "prunable3"@
        } else if index == 3 {
            "prunable4"@
        } else if index == 4 {
            "prunable5"@
        } else if index == 5 {
            "prunable6"@
        } else if index == 6 {
            "prunable7"@
        } else {
            "prunable8"@
        },
    }
}

/// The key that the `chain_tip` keyspace holds the main-chain tip under: `tip`, in ASCII.
pub open spec fn chain_tip_key_bytes() -> Seq<u8> {
    seq![116u8, 105u8, 112u8]
}

/// No two keyspaces are stored under the same name.
pub proof fn lemma_keyspace_names_differ(a: Keyspace, b: Keyspace)
    requires
        a != b,
    ensures
        keyspace_name(a) != keyspace_name(b),
{
    reveal_strlit("block_heights");
    assert("block_heights"@.len() == 13);
    reveal_strlit("chain_tip");
    assert("chain_tip"@.len() == 9);
    reveal_strlit("key_images");
    assert("key_images"@.len() == 10);
    reveal_strlit("pre_rct_outputs");
    assert("pre_rct_outputs"@.len() == 15);
    reveal_strlit("tx_ids");
    assert("tx_ids"@.len() == 6);
    reveal_strlit("tx_outputs");
    assert("tx_outputs"@.len() == 10);
    reveal_strlit("alt_chain_infos");
    assert("alt_chain_infos"@.len() == 15);
    reveal_strlit("alt_block_heights");
    assert("alt_block_heights"@.len() == 17);
    reveal_strlit("alt_block_infos");
    assert("alt_block_infos"@.len() == 15);
    reveal_strlit("alt_block_blobs");
    assert("alt_block_blobs"@.len() == 15);
    reveal_strlit("alt_transaction_blobs");
    assert("alt_transaction_blobs"@.len() == 21);
    reveal_strlit("alt_transaction_infos");
    assert("alt_transaction_infos"@.len() == 21);
    reveal_strlit("prunable_tip");
    assert("prunable_tip"@.len() == 12);
    assert("key_images"@[0] != "tx_outputs"@[0]);
    assert("pre_rct_outputs"@[0] != "alt_chain_infos"@[0]);
    assert("pre_rct_outputs"@[0] != "alt_block_infos"@[0]);
    assert("pre_rct_outputs"@[0] != "alt_block_blobs"@[0]);
    assert("alt_chain_infos"@[4] != "alt_block_infos"@[4]);
    assert("alt_chain_infos"@[4] != "alt_block_blobs"@[4]);
    assert("alt_block_infos"@[10] != "alt_block_blobs"@[10]);
    assert("alt_transaction_blobs"@[16] != "alt_transaction_infos"@[16]);
}

/// No two tapes are stored under the same name.
pub proof fn lemma_tape_names_differ(a: Tape, b: Tape)
    requires
        a != b,
        a matches Tape::Prunable(index) ==> index < PRUNABLE_TAPES,
        b matches Tape::Prunable(index) ==> index < PRUNABLE_TAPES,
    ensures
        tape_name(a) != tape_name(b),
{
    reveal_strlit("rct_outputs");
    assert("rct_outputs"@.len() == 11);
    reveal_strlit("tx_infos");
    assert("tx_infos"@.len() == 8);
    reveal_strlit("block_infos");
    assert("block_infos"@.len() == 11);
    reveal_strlit("tapes_metadata");
    assert("tapes_metadata"@.len() == 14);
    reveal_strlit("pruned_blobs");
    assert("pruned_blobs"@.len() == 12);
    reveal_strlit("v1_prunable_blobs");
    assert("v1_prunable_blobs"@.len() == 17);
    reveal_strlit("prunable1");
    assert("prunable1"@.len() == 9);
    reveal_strlit("prunable2");
    assert("prunable2"@.len() == 9);
    reveal_strlit("prunable3");
    assert("prunable3"@.len() == 9);
    reveal_strlit("prunable4");
    assert("prunable4"@.len() == 9);
    reveal_strlit("prunable5");
    assert("prunable5"@.len() == 9);
    reveal_strlit("prunable6");
    assert("prunable6"@.len() == 9);
    reveal_strlit("prunable7");
    assert("prunable7"@.len() == 9);
    reveal_strlit("prunable8");
    assert("prunable8"@.len() == 9);
    assert("rct_outputs"@[0] != "block_infos"@[0]);
    match (a, b) {
        (Tape::Prunable(i), Tape::Prunable(j)) => {
            assert(tape_name(a)[8] as int == '1' as int + i);
            assert(tape_name(b)[8] as int == '1' as int + j);
        },
        _ => {},
    }
}

/// The options that a tape is opened with under the given cache sizes.
pub open spec fn options_of_tape(tape: Tape, cache_sizes: CacheSizes) -> TapeOptions {
    match tape {
        Tape::RctOutputs => TapeOptions {
            top_cache_size: cache_sizes.rct_outputs,
            dir: TapeDir::Index,
        },
        Tape::TxInfos => TapeOptions { top_cache_size: cache_sizes.tx_infos, dir: TapeDir::Index },
        Tape::BlockInfos => TapeOptions {
            top_cache_size: cache_sizes.block_infos,
            dir: TapeDir::Index,
        },
        Tape::TapesMetadata => TapeOptions {
            top_cache_size: METADATA_CACHE_SIZE,
            dir: TapeDir::Index,
        },
        Tape::PrunedBlobs => TapeOptions {
            top_cache_size: cache_sizes.pruned_blobs,
            dir: TapeDir::Blob,
        },
        Tape::V1PrunableBlobs => TapeOptions {
            top_cache_size: cache_sizes.v1_prunable_blobs,
            dir: TapeDir::Blob,
        },
        Tape::Prunable(_) => TapeOptions {
            top_cache_size: cache_sizes.prunable_blobs,
            dir: TapeDir::Blob,
        },
    }
}

/// The options of every keyspace but `prunable_tip`.
pub open spec fn default_keyspace_options() -> KeyspaceOptions {
    KeyspaceOptions { kv_separation: None }
}

/// The options of `prunable_tip`: large values apart from their keys, and never compressed.
pub open spec fn options_of_prunable_tip() -> KeyspaceOptions {
    KeyspaceOptions {
        kv_separation: Some(
            KvSeparation {
                separation_threshold: PRUNABLE_TIP_SEPARATION_THRESHOLD,
                compression: Compression::Uncompressed,
            },
        ),
    }
}

/// Whether a node with this seed keeps the prunable tape at `index`: all of them while it is not
/// pruned, and then only the tape of its stripe.
pub open spec fn keeps_tape(seed: PruningSeed, index: int) -> bool {
    match seed.stripe() {
        Some(stripe) => stripe - 1 == index,
        None => true,
    }
}

/// The least index of a prunable tape at or above `from` that the node keeps, or does not keep,
/// as `kept` says, and the number of tapes if there is none.
pub open spec fn first_tape(seed: PruningSeed, kept: bool, from: int) -> int
    decreases PRUNABLE_TAPES - from,
{
    if from >= PRUNABLE_TAPES {
        PRUNABLE_TAPES as int
    } else if keeps_tape(seed, from) == kept {
        from
    } else {
        first_tape(seed, kept, from + 1)
    }
}

/// What the first tape that is kept, or not kept, is: none before it is, and it is if it is one of
/// the tapes.
pub(crate) proof fn lemma_first_tape(seed: PruningSeed, kept: bool, from: int)
    requires
        from <= PRUNABLE_TAPES,
    ensures
        from <= first_tape(seed, kept, from) <= PRUNABLE_TAPES,
        first_tape(seed, kept, from) < PRUNABLE_TAPES ==> keeps_tape(
            seed,
            first_tape(seed, kept, from),
        ) == kept,
        forall|index: int|
            from <= index < first_tape(seed, kept, from) ==> #[trigger] keeps_tape(seed, index)
                != kept,
    decreases PRUNABLE_TAPES - from,
{
    if from < PRUNABLE_TAPES && keeps_tape(seed, from) != kept {
        lemma_first_tape(seed, kept, from + 1);
    }
}

/// The bytes that a seed is stored as in the `tapes_metadata` tape.
pub open spec fn seed_bytes(seed: PruningSeed) -> Seq<u8> {
    le_bytes(seed.compressed(), 4)
}

/// The bytes that a transaction ID is a key of `prunable_tip` as.
pub open spec fn tip_key_bytes(tx_id: u64) -> Seq<u8> {
    le_bytes(tx_id as nat, 8)
}

/// No two transactions have the same key in `prunable_tip`.
pub proof fn lemma_tip_keys_differ(a: u64, b: u64)
    requires
        a != b,
    ensures
        tip_key_bytes(a) != tip_key_bytes(b),
{
    reveal_with_fuel(byte_range, 9);
    if tip_key_bytes(a) == tip_key_bytes(b) {
        lemma_le_injective(a as nat, b as nat, 8);
    }
}

impl Keyspace {
    /// The name that the keyspace is stored under.
    pub fn name(&self) -> (name: &'static str)
        ensures
            name@ == keyspace_name(*self),
    {
        match self {
            Keyspace::BlockHeights => "block_heights",
            Keyspace::ChainTip => "chain_tip",
            Keyspace::KeyImages => "key_images",
            Keyspace::PreRctOutputs => "pre_rct_outputs",
            Keyspace::TxIds => "tx_ids",
            Keyspace::V1TxOutputs => "tx_outputs",
            Keyspace::AltChainInfos => "alt_chain_infos",
            Keyspace::AltBlockHeights => "alt_block_heights",
            Keyspace::AltBlockInfos => "alt_block_infos",
            Keyspace::AltBlockBlobs => "alt_block_blobs",
            Keyspace::AltTransactionBlobs => "alt_transaction_blobs",
            Keyspace::AltTransactionInfos => "alt_transaction_infos",
            Keyspace::PrunableTip => "prunable_tip",
        }
    }
}

/// The key that the `chain_tip` keyspace holds the main-chain tip under.
pub fn chain_tip_key() -> (key: Vec<u8>)
    ensures
        key@ == chain_tip_key_bytes(),
{
    vec![116, 105, 112]
}

/// The name of the directory that tapes are kept in, below the index directory and below the blob
/// directory.
pub fn tapes_dir_name() -> (name: &'static str)
    ensures
        name@ == "tapes"@,
{
    "tapes"
}

impl Tape {
    /// The name that the tape is stored under.
    pub fn name(&self) -> (name: &'static str)
        requires
            self matches Tape::Prunable(index) ==> index < PRUNABLE_TAPES,
        ensures
            name@ == tape_name(*self),
    {
        match self {
            Tape::RctOutputs => "rct_outputs",
            Tape::TxInfos => "tx_infos",
            Tape::BlockInfos => "block_infos",
            Tape::TapesMetadata => "tapes_metadata",
            Tape::PrunedBlobs => "pruned_blobs",
            Tape::V1PrunableBlobs => "v1_prunable_blobs",
            Tape::Prunable(index) => {
                let index: usize = *index;
                if index == 0 {
                    "prunable1"
                } else if index == 1 {
                    "prunable2"
                } else if index == 2 {
                    "prunable3"
                } else if index == 3 {
                    "prunable4"
                } else if index == 4 {
                    "prunable5"
                } else if index == 5 {
                    "prunable6"
                } else if index == 6 {
                    "prunable7"
                } else {
                    "prunable8"
                }
            },
        }
    }
}

/// The keyspace at `index` of those that every node opens: main-chain data first, then alt-chain
/// data.
pub fn chain_keyspace(index: usize) -> (keyspace: Keyspace)
    requires
        index < CHAIN_KEYSPACES,
    ensures
        keyspace == chain_keyspaces()[index as int],
{
    if index < 6 {
        open_main_chain_keyspaces()[index]
    } else {
        open_alt_chain_keyspaces()[index - 6]
    }
}

/// The tape at `index` of those that every node opens.
pub fn common_tape(index: usize) -> (tape: Tape)
    requires
        index < COMMON_TAPES,
    ensures
        tape == common_tapes()[index as int],
{
    if index == 0 {
        Tape::RctOutputs
    } else if index == 1 {
        Tape::TxInfos
    } else if index == 2 {
        Tape::BlockInfos
    } else if index == 3 {
        Tape::TapesMetadata
    } else if index == 4 {
        Tape::PrunedBlobs
    } else {
        Tape::V1PrunableBlobs
    }
}

/// The keyspaces that hold main-chain data, in the order in which they are opened.
///
/// Every one of these is derived from the tapes, so losing any of them is recoverable.
pub fn open_main_chain_keyspaces() -> (keyspaces: Vec<Keyspace>)
    ensures
        keyspaces@ == main_chain_keyspaces(),
{
    vec![
        Keyspace::BlockHeights,
        Keyspace::ChainTip,
        Keyspace::KeyImages,
        Keyspace::PreRctOutputs,
        Keyspace::TxIds,
        Keyspace::V1TxOutputs,
    ]
}

/// The keyspaces that hold alt-chain data, in the order in which they are opened.
///
/// Alt blocks never reach the tapes, so these hold the only copy of their data.
pub fn open_alt_chain_keyspaces() -> (keyspaces: Vec<Keyspace>)
    ensures
        keyspaces@ == alt_chain_keyspaces(),
{
    vec![
        Keyspace::AltChainInfos,
        Keyspace::AltBlockHeights,
        Keyspace::AltBlockInfos,
        Keyspace::AltBlockBlobs,
        Keyspace::AltTransactionBlobs,
        Keyspace::AltTransactionInfos,
    ]
}

/// The options of `prunable_tip`, which is created in two places that must agree.
pub fn prunable_tip_options() -> (options: KeyspaceOptions)
    ensures
        options == options_of_prunable_tip(),
{
    KeyspaceOptions {
        kv_separation: Some(
            KvSeparation {
                separation_threshold: PRUNABLE_TIP_SEPARATION_THRESHOLD,
                compression: Compression::Uncompressed,
            },
        ),
    }
}

/// The options for a tape, keeping as much of its top in memory as the cache sizes ask for.
pub fn tape_options(tape: Tape, cache_sizes: &CacheSizes) -> (options: TapeOptions)
    ensures
        options == options_of_tape(tape, *cache_sizes),
{
    match tape {
        Tape::RctOutputs => TapeOptions {
            top_cache_size: cache_sizes.rct_outputs,
            dir: TapeDir::Index,
        },
        Tape::TxInfos => TapeOptions { top_cache_size: cache_sizes.tx_infos, dir: TapeDir::Index },
        Tape::BlockInfos => TapeOptions {
            top_cache_size: cache_sizes.block_infos,
            dir: TapeDir::Index,
        },
        Tape::TapesMetadata => TapeOptions {
            top_cache_size: METADATA_CACHE_SIZE,
            dir: TapeDir::Index,
        },
        Tape::PrunedBlobs => TapeOptions {
            top_cache_size: cache_sizes.pruned_blobs,
            dir: TapeDir::Blob,
        },
        Tape::V1PrunableBlobs => TapeOptions {
            top_cache_size: cache_sizes.v1_prunable_blobs,
            dir: TapeDir::Blob,
        },
        Tape::Prunable(_) => TapeOptions {
            top_cache_size: cache_sizes.prunable_blobs,
            dir: TapeDir::Blob,
        },
    }
}

/// Whether a node with this seed keeps the prunable tape at `index`.
pub fn keeps(seed: &PruningSeed, index: usize) -> (kept: bool)
    requires
        seed.valid(),
    ensures
        kept == keeps_tape(*seed, index as int),
{
    match seed.get_stripe() {
        Some(stripe) => (stripe - 1) as usize == index,
        None => true,
    }
}

/// The least index of a prunable tape at or above `from` that the node keeps, or does not keep,
/// as `kept` says, and the number of tapes if there is none.
pub fn next_tape(seed: &PruningSeed, kept: bool, from: usize) -> (index: usize)
    requires
        seed.valid(),
        from <= PRUNABLE_TAPES,
    ensures
        index == first_tape(*seed, kept, from as int),
        from <= index <= PRUNABLE_TAPES,
{
    let mut index: usize = from;
    while index < PRUNABLE_TAPES && keeps(seed, index) != kept
        invariant
            seed.valid(),
            from <= index <= PRUNABLE_TAPES,
            first_tape(*seed, kept, index as int) == first_tape(*seed, kept, from as int),
        decreases PRUNABLE_TAPES - index,
    {
        index = index + 1;
    }
    index
}

/// The bytes that a seed is stored as in the `tapes_metadata` tape.
pub fn encode_seed(seed: &PruningSeed) -> (bytes: Vec<u8>)
    requires
        seed.valid(),
    ensures
        bytes@ == seed_bytes(*seed),
{
    to_le_bytes(seed.compress() as u64, 4)
}

/// The bytes that a transaction ID is a key of `prunable_tip` as.
pub fn tip_key(tx_id: u64) -> (key: Vec<u8>)
    ensures
        key@ == tip_key_bytes(tx_id),
{
    to_le_bytes(tx_id, 8)
}

} // verus!
