//! What the operations ask for, wherever they are, and which errors they end in.

use vstd::prelude::*;

use crate::activation::{DeleteUnnecessaryTapes, EnablePruning, PruneStage, Stripe};
use crate::closing::CloseDatabase;
use crate::consistency::{ConsistencyStage, MakeConsistent};
use crate::fill::{FillPrunableTip, FillStage};
use crate::layout::{
    alt_chain_keyspaces, chain_keyspaces, common_tapes, lemma_first_tape, main_chain_keyspaces,
    options_of_tape, tape_name, CacheSizes, Compression, Config, Keyspace, KeyspaceOptions, Tape,
    TapeDir, TapeOptions, CHAIN_KEYSPACES, COMMON_TAPES,
};
use crate::opening::{seed_of_bytes, OpenDatabase, OpenStage};
use crate::operation::Operation;
use crate::pruning::{DecompressedPruningSeed, PruningSeed};
use crate::reading::{ReadStage, ReadTransactions};
use crate::rebuild::{RebuildDatabase, RebuildStage};
use crate::replay::ReplayTapes;
use crate::request::{Action, BlockchainError, Durability, Reply, Request};
use crate::state::BlockchainDatabase;
use crate::tips::TipsMatch;

verus! {

/// A tape is asked for where it is stored, and with as much of its top in memory as the
/// configuration says. All the prunable tapes are stored in one place, and share one size.
pub open spec fn stored_there(tape: Tape, options: TapeOptions, cache_sizes: CacheSizes) -> bool {
    match tape {
        Tape::RctOutputs => {
            &&& options.dir == TapeDir::Index
            &&& options.top_cache_size == cache_sizes.rct_outputs
        },
        Tape::TxInfos => {
            &&& options.dir == TapeDir::Index
            &&& options.top_cache_size == cache_sizes.tx_infos
        },
        Tape::BlockInfos => {
            &&& options.dir == TapeDir::Index
            &&& options.top_cache_size == cache_sizes.block_infos
        },
        Tape::TapesMetadata => {
            &&& options.dir == TapeDir::Index
            &&& options.top_cache_size == 8
        },
        Tape::PrunedBlobs => {
            &&& options.dir == TapeDir::Blob
            &&& options.top_cache_size == cache_sizes.pruned_blobs
        },
        Tape::V1PrunableBlobs => {
            &&& options.dir == TapeDir::Blob
            &&& options.top_cache_size == cache_sizes.v1_prunable_blobs
        },
        Tape::Prunable(index) => {
            &&& index < 8
            &&& options.dir == TapeDir::Blob
            &&& options.top_cache_size == cache_sizes.prunable_blobs
        },
    }
}

/// Every prunable tape is stored in the same directory and opened with the same options, and its
/// name is that of the stripe that it holds.
pub proof fn lemma_prunable_tapes_are_alike(a: usize, b: usize, cache_sizes: CacheSizes)
    requires
        a < 8,
        b < 8,
    ensures
        options_of_tape(Tape::Prunable(a), cache_sizes) == options_of_tape(
            Tape::Prunable(b),
            cache_sizes,
        ),
        stored_there(
            Tape::Prunable(a),
            options_of_tape(Tape::Prunable(a), cache_sizes),
            cache_sizes,
        ),
        tape_name(Tape::Prunable(a)) == "prunable"@.push(('1' as u32 + a) as char),
{
    reveal_strlit("prunable");
    reveal_strlit("prunable1");
    reveal_strlit("prunable2");
    reveal_strlit("prunable3");
    reveal_strlit("prunable4");
    reveal_strlit("prunable5");
    reveal_strlit("prunable6");
    reveal_strlit("prunable7");
    reveal_strlit("prunable8");
    assert(tape_name(Tape::Prunable(a)) =~= "prunable"@.push(('1' as u32 + a) as char));
}

/// Every tape that a node opens is asked for where it is stored.
pub proof fn lemma_tapes_are_stored_there(tape: Tape, cache_sizes: CacheSizes)
    requires
        tape matches Tape::Prunable(index) ==> index < 8,
    ensures
        stored_there(tape, options_of_tape(tape, cache_sizes), cache_sizes),
{
}

/// A keyspace is asked for with the defaults of the store, but for `prunable_tip`, whose values
/// from 3000 bytes on are stored apart from their keys and not compressed.
pub open spec fn made_so(keyspace: Keyspace, options: KeyspaceOptions) -> bool {
    if keyspace == Keyspace::PrunableTip {
        &&& options.kv_separation matches Some(separation)
        &&& separation.separation_threshold == 3000
        &&& separation.compression == Compression::Uncompressed
    } else {
        options.kv_separation is None
    }
}

/// The keyspace is derived from the tapes.
pub open spec fn is_main_chain(keyspace: Keyspace) -> bool {
    ||| keyspace == Keyspace::BlockHeights
    ||| keyspace == Keyspace::ChainTip
    ||| keyspace == Keyspace::KeyImages
    ||| keyspace == Keyspace::PreRctOutputs
    ||| keyspace == Keyspace::TxIds
    ||| keyspace == Keyspace::V1TxOutputs
}

/// Every keyspace but `prunable_tip` is opened, each of them once. The first six are those that
/// are derived from the tapes, and the other six hold what never reaches them.
pub proof fn lemma_each_keyspace_is_opened_once(keyspace: Keyspace)
    ensures
        CHAIN_KEYSPACES == 12,
        chain_keyspaces().len() == 12,
        main_chain_keyspaces().len() == 6,
        alt_chain_keyspaces().len() == 6,
        chain_keyspaces().no_duplicates(),
        chain_keyspaces().contains(keyspace) <==> keyspace != Keyspace::PrunableTip,
        main_chain_keyspaces().contains(keyspace) <==> is_main_chain(keyspace),
        alt_chain_keyspaces().contains(keyspace) <==> !is_main_chain(keyspace) && keyspace
            != Keyspace::PrunableTip,
        forall|index: int|
            0 <= index < 12 ==> (is_main_chain(#[trigger] chain_keyspaces()[index]) <==> index < 6),
{
    let all = chain_keyspaces();
    let main = main_chain_keyspaces();
    let alt = alt_chain_keyspaces();
    match keyspace {
        Keyspace::BlockHeights => {
            assert(main[0] == keyspace && all[0] == keyspace);
        },
        Keyspace::ChainTip => {
            assert(main[1] == keyspace && all[1] == keyspace);
        },
        Keyspace::KeyImages => {
            assert(main[2] == keyspace && all[2] == keyspace);
        },
        Keyspace::PreRctOutputs => {
            assert(main[3] == keyspace && all[3] == keyspace);
        },
        Keyspace::TxIds => {
            assert(main[4] == keyspace && all[4] == keyspace);
        },
        Keyspace::V1TxOutputs => {
            assert(main[5] == keyspace && all[5] == keyspace);
        },
        Keyspace::AltChainInfos => {
            assert(alt[0] == keyspace && all[6] == keyspace);
        },
        Keyspace::AltBlockHeights => {
            assert(alt[1] == keyspace && all[7] == keyspace);
        },
        Keyspace::AltBlockInfos => {
            assert(alt[2] == keyspace && all[8] == keyspace);
        },
        Keyspace::AltBlockBlobs => {
            assert(alt[3] == keyspace && all[9] == keyspace);
        },
        Keyspace::AltTransactionBlobs => {
            assert(alt[4] == keyspace && all[10] == keyspace);
        },
        Keyspace::AltTransactionInfos => {
            assert(alt[5] == keyspace && all[11] == keyspace);
        },
        Keyspace::PrunableTip => {},
    }
}

/// Every tape but the prunable ones is opened by every node, each of them once.
pub proof fn lemma_each_common_tape_is_opened_once(tape: Tape)
    ensures
        COMMON_TAPES == 6,
        common_tapes().len() == 6,
        common_tapes().no_duplicates(),
        common_tapes().contains(tape) <==> !(tape is Prunable),
{
    let all = common_tapes();
    match tape {
        Tape::RctOutputs => {
            assert(all[0] == tape);
        },
        Tape::TxInfos => {
            assert(all[1] == tape);
        },
        Tape::BlockInfos => {
            assert(all[2] == tape);
        },
        Tape::TapesMetadata => {
            assert(all[3] == tape);
        },
        Tape::PrunedBlobs => {
            assert(all[4] == tape);
        },
        Tape::V1PrunableBlobs => {
            assert(all[5] == tape);
        },
        Tape::Prunable(_) => {},
    }
}

/// A node with this seed keeps the prunable tape at this index, counted from zero.
pub open spec fn stripe_is_kept(seed: PruningSeed, index: usize) -> bool {
    match seed {
        PruningSeed::NotPruned => true,
        PruningSeed::Pruned(pruned) => pruned.stripe == index + 1,
    }
}

/// What is asked for to open a database with this seed.
pub open spec fn asked_to_open(
    cache_sizes: CacheSizes,
    seed: PruningSeed,
    request: Request,
) -> bool {
    match request {
        Request::OpenKeyspace { keyspace, options } => made_so(keyspace, options),
        Request::KeyspaceExists { keyspace } => keyspace == Keyspace::PrunableTip,
        Request::OpenTapes { dir } => dir == TapeDir::Index,
        Request::BeginAppend => true,
        Request::OpenTape { tape, options } => {
            &&& stored_there(tape, options, cache_sizes)
            &&& tape matches Tape::Prunable(index) ==> stripe_is_kept(seed, index)
        },
        Request::TapeLen { tape } => tape == Tape::TapesMetadata,
        Request::ReadBytes { tape, offset, len } => {
            &&& tape == Tape::TapesMetadata
            &&& offset == 0
            &&& len == 4
        },
        Request::CommitTapes => true,
        Request::DeleteTape { tape, options } => {
            &&& stored_there(tape, options, cache_sizes)
            &&& tape matches Tape::Prunable(index)
            &&& !stripe_is_kept(seed, index)
        },
        _ => false,
    }
}

/// Opening a database asks for every tape where it is stored, opens the prunable tapes that the
/// seed keeps, and deletes only those that it does not. It fails if and only if a request does, and
/// then at once.
pub proof fn lemma_open_asks(open: OpenDatabase, reply: Reply)
    requires
        open.ready(),
    ensures
        open.next(reply) matches Some((then, action)) ==> {
            &&& then.config == open.config
            &&& then.seed == open.seed || open.stage is Seed
            &&& action matches Action::Perform(request) ==> asked_to_open(
                open.config.cache_sizes,
                then.seed,
                request,
            )
            &&& reply is Failed <==> action is Finished && action->Finished_0 is Err
            &&& action matches Action::Finished(Err(error)) ==> error == BlockchainError::Storage
            &&& action matches Action::Finished(Ok(db)) ==> {
                &&& db.config == open.config
                &&& db.pruning_seed == open.seed
                &&& db.prunable_tip == open.prunable_tip
                &&& db.closed_below == 8
            }
        },
        reply is Failed && !(open.stage is Over) ==> open.next(reply) is Some,
{
    lemma_first_tape(open.seed, true, 0);
    lemma_first_tape(open.seed, false, 0);
    match open.stage {
        OpenStage::Seed => match reply {
            Reply::Bytes(bytes) => match seed_of_bytes(bytes@) {
                Some(seed) => {
                    lemma_first_tape(seed, true, 0);
                },
                None => {},
            },
            _ => {},
        },
        OpenStage::Prunable(index) => {
            lemma_first_tape(open.seed, true, index + 1);
        },
        OpenStage::Delete(index) => {
            lemma_first_tape(open.seed, false, index + 1);
        },
        OpenStage::Keyspace(index) => {
            if index + 1 < CHAIN_KEYSPACES {
                lemma_each_keyspace_is_opened_once(chain_keyspaces()[index + 1]);
                assert(chain_keyspaces().contains(chain_keyspaces()[index + 1]));
            }
        },
        OpenStage::Tape(index) => {
            if index + 1 < COMMON_TAPES {
                lemma_each_common_tape_is_opened_once(common_tapes()[index + 1]);
                assert(common_tapes().contains(common_tapes()[index + 1]));
            }
        },
        _ => {},
    }
}

/// Opening a database starts with a keyspace, and takes nothing for known.
pub proof fn lemma_open_asks_first(config: Config)
    ensures
        OpenDatabase::started(config).0.config == config,
        OpenDatabase::started(config).0.seed == PruningSeed::NotPruned,
        !OpenDatabase::started(config).0.prunable_tip,
        OpenDatabase::started(config).1 matches Action::Perform(
            Request::OpenKeyspace { keyspace, options },
        ) && keyspace == Keyspace::BlockHeights && made_so(keyspace, options),
{
}

/// Deleting the tapes that the seed does not keep deletes nothing else, and asks for each where it
/// is stored. It fails if and only if a request does, and then at once.
pub proof fn lemma_delete_asks(delete: DeleteUnnecessaryTapes, reply: Reply)
    requires
        delete.ready(),
    ensures
        delete.next(reply) matches Some((then, action)) ==> {
            &&& then.db == BlockchainDatabase { closed_below: then.db.closed_below, ..delete.db }
            &&& action matches Action::Perform(request) ==> {
                &&& request matches Request::DeleteTape { tape, options }
                &&& stored_there(tape, options, delete.db.config.cache_sizes)
                &&& tape matches Tape::Prunable(index)
                &&& !stripe_is_kept(delete.db.pruning_seed, index)
                &&& delete.deleting matches Some(before) && before < index
            }
            &&& reply is Failed <==> action is Finished && action->Finished_0 is Err
            &&& action matches Action::Finished(Err(error)) ==> error == BlockchainError::Storage
        },
        reply is Failed && delete.deleting is Some ==> delete.next(reply) is Some,
{
    match delete.deleting {
        Some(index) => {
            lemma_first_tape(delete.db.pruning_seed, false, index + 1);
        },
        None => {},
    }
}

/// The first tape that is deleted is one that the seed does not keep.
pub proof fn lemma_delete_asks_first(db: BlockchainDatabase)
    requires
        db.wf(),
    ensures
        DeleteUnnecessaryTapes::deleting_from(db, 0).1 matches Action::Perform(request) ==> {
            &&& request matches Request::DeleteTape { tape, options }
            &&& stored_there(tape, options, db.config.cache_sizes)
            &&& tape matches Tape::Prunable(index)
            &&& !stripe_is_kept(db.pruning_seed, index)
        },
{
    lemma_first_tape(db.pruning_seed, false, 0);
}

/// What is asked for to fill `prunable_tip`.
pub open spec fn asked_to_fill(request: Request) -> bool {
    match request {
        Request::OpenKeyspace { keyspace, options } => {
            &&& keyspace == Keyspace::PrunableTip
            &&& made_so(keyspace, options)
        },
        Request::TakeTapesSnapshot => true,
        Request::BeginBatch { durability } => durability == Durability::Standard,
        Request::TapeLen { tape } => tape == Tape::BlockInfos || tape == Tape::TxInfos,
        Request::ReadBlockInfo { .. } => true,
        Request::ReadTxInfo { .. } => true,
        Request::ReadBytes { tape, .. } => tape matches Tape::Prunable(index) && index < 8,
        Request::InsertTip { .. } => true,
        Request::CommitBatch => true,
        _ => false,
    }
}

/// Filling `prunable_tip` opens it as opening a database does, deletes nothing, and reads nothing
/// but the tapes. It fails if and only if a request does, and then at once. What is inserted under
/// an ID is what was read for it.
pub proof fn lemma_fill_asks(fill: FillPrunableTip, reply: Reply)
    requires
        fill.ready(),
    ensures
        fill.next(reply) matches Some((then, action)) ==> {
            &&& action matches Action::Perform(request) ==> asked_to_fill(request)
            &&& action matches Action::Perform(Request::InsertTip { tx_id, blob }) ==> {
                &&& fill.stage matches FillStage::Blob { tx_id: read, len, .. }
                &&& tx_id == read
                &&& reply == Reply::Bytes(blob)
                &&& blob@.len() == len
            }
            &&& reply is Failed <==> action is Finished && action->Finished_0 is Err
            &&& action matches Action::Finished(Err(error)) ==> error == BlockchainError::Storage
        },
        reply is Failed && !(fill.stage is Over) ==> fill.next(reply) is Some,
        FillPrunableTip::started().1 matches Action::Perform(request) && asked_to_fill(request),
{
}

/// What is asked for to prune a node on a stripe.
pub open spec fn asked_to_prune(cache_sizes: CacheSizes, stripe: u32, request: Request) -> bool {
    match request {
        Request::PersistKeyspaces => true,
        Request::BeginAppend => true,
        Request::AppendSeed { seed } => seed == PruningSeed::Pruned(
            DecompressedPruningSeed { log_stripes: 3, stripe },
        ),
        Request::CommitTapes => true,
        Request::DeleteTape { tape, options } => {
            &&& stored_there(tape, options, cache_sizes)
            &&& tape matches Tape::Prunable(index)
            &&& index + 1 != stripe
        },
        _ => asked_to_fill(request),
    }
}

/// The activation is on course for a stripe out of eight.
pub open spec fn pruning_on(prune: EnablePruning, stripe: u32) -> bool {
    let seed = PruningSeed::Pruned(DecompressedPruningSeed { log_stripes: 3, stripe });
    &&& prune.seed == seed
    &&& prune.stage matches PruneStage::Delete(delete) ==> delete.db.pruning_seed == seed
}

/// Turning a node into a pruned one commits the seed of the stripe that it was started with, out
/// of eight, and deletes every other tape and not that of the stripe, each where it is stored. It
/// fails if and only if a request does, and then at once.
pub proof fn lemma_prune_asks(prune: EnablePruning, stripe: u32, reply: Reply)
    requires
        prune.ready(),
        pruning_on(prune, stripe),
    ensures
        prune.next(reply) matches Some((then, action)) ==> {
            &&& pruning_on(then, stripe)
            &&& then.stripe == prune.stripe
            &&& then.db.config == prune.db.config
            &&& action matches Action::Perform(request) ==> asked_to_prune(
                prune.db.config.cache_sizes,
                stripe,
                request,
            )
            &&& reply is Failed <==> action is Finished && action->Finished_0 is Err
            &&& action matches Action::Finished(Err(error)) ==> error == BlockchainError::Storage
        },
        reply is Failed && !(prune.stage is Over) && !(prune.stage matches PruneStage::Fill(fill)
            && fill.stage is Over) && !(prune.stage matches PruneStage::Delete(delete)
            && delete.deleting is None) ==> prune.next(reply) is Some,
{
    match prune.stage {
        PruneStage::Fill(fill) => {
            lemma_fill_asks(fill, reply);
        },
        PruneStage::Commit => {
            let pruned = EnablePruning::pruned(prune.db, prune.seed);
            lemma_delete_asks_first(pruned);
        },
        PruneStage::Delete(delete) => {
            lemma_delete_asks(delete, reply);
        },
        _ => {},
    }
}

/// The activation starts on course for its stripe, and with filling `prunable_tip`.
pub proof fn lemma_prune_asks_first(db: BlockchainDatabase, stripe: Stripe)
    ensures
        pruning_on(EnablePruning::started(db, stripe).0, stripe.number()),
        EnablePruning::started(db, stripe).0.stripe == stripe,
        EnablePruning::started(db, stripe).0.db == db,
        EnablePruning::started(db, stripe).1 matches Action::Perform(request) && asked_to_fill(
            request,
        ),
{
}

/// What is asked for to replay the tapes.
pub open spec fn asked_to_replay(request: Request) -> bool {
    match request {
        Request::TakeTapesSnapshot => true,
        Request::IterateTxInfos => true,
        Request::BeginBatch { durability } => durability == Durability::Buffer,
        Request::TapeLen { tape } => tape == Tape::BlockInfos,
        Request::GetBlock { .. } => true,
        Request::ReadTxInfo { .. } => true,
        Request::ReadBytes { tape, .. } => tape == Tape::PrunedBlobs,
        Request::StageTransaction { .. } => true,
        Request::AddBlock { .. } => true,
        Request::CommitBatch => true,
        _ => false,
    }
}

/// The replay waits for something of a transaction, which it cannot do without.
pub open spec fn reads_tx(replay: ReplayTapes) -> bool {
    ||| replay.stage is TxInfo
    ||| replay.stage is Blob
    ||| replay.stage is Staged
}

/// Replaying the tapes writes nothing but the blocks, and to the buffers of the operating system
/// only. It fails if and only if a request does that is not for a transaction.
pub proof fn lemma_replay_asks(replay: ReplayTapes, reply: Reply)
    ensures
        replay.next(reply) matches Some((then, action)) ==> {
            &&& action matches Action::Perform(request) ==> asked_to_replay(request)
            &&& reply is Failed <==> action is Finished && action->Finished_0 is Err
            &&& action matches Action::Finished(Err(error)) ==> error == BlockchainError::Storage
        },
        reply is Failed && !(replay.stage is Over) ==> (replay.next(reply) is Some <==> !reads_tx(
            replay,
        )),
        ReplayTapes::started().1 matches Action::Perform(request) && asked_to_replay(request),
{
}

/// Building the keyspaces anew recreates every keyspace but `prunable_tip` as it was, and then
/// replays the tapes. It fails if and only if a request does.
pub proof fn lemma_rebuild_asks(rebuild: RebuildDatabase, reply: Reply)
    requires
        rebuild.ready(),
    ensures
        rebuild.next(reply) matches Some((then, action)) ==> {
            &&& action matches Action::Perform(request) ==> {
                ||| asked_to_replay(request)
                ||| {
                    &&& request matches Request::RecreateKeyspace { keyspace, options }
                    &&& keyspace != Keyspace::PrunableTip
                    &&& made_so(keyspace, options)
                }
            }
            &&& reply is Failed <==> action is Finished && action->Finished_0 is Err
            &&& action matches Action::Finished(Err(error)) ==> error == BlockchainError::Storage
            &&& then.db == BlockchainDatabase { prunable_tip: then.db.prunable_tip, ..rebuild.db }
        },
{
    match rebuild.stage {
        RebuildStage::Replay(replay) => {
            lemma_replay_asks(replay, reply);
        },
        RebuildStage::Recreate(index) => {
            if index + 1 < CHAIN_KEYSPACES {
                lemma_each_keyspace_is_opened_once(chain_keyspaces()[index + 1]);
                assert(chain_keyspaces().contains(chain_keyspaces()[index + 1]));
            }
        },
        RebuildStage::Over => {},
    }
}

/// What is asked for to compare the tips.
pub open spec fn asked_to_compare(request: Request) -> bool {
    match request {
        Request::TapeLen { tape } => tape == Tape::BlockInfos,
        Request::ReadBlockInfo { .. } => true,
        Request::ReadChainTip => true,
        _ => false,
    }
}

/// Comparing the tips reads the last block of the tapes, and the tip of the key-value store. It
/// tells that they agree if and only if there is neither, or the tip is the hash of the block.
pub proof fn lemma_compare_asks(tips: TipsMatch, reply: Reply)
    ensures
        tips.next(reply) matches Some((then, action)) ==> {
            &&& action matches Action::Perform(request) ==> asked_to_compare(request)
            &&& action matches Action::Perform(Request::ReadBlockInfo { height }) ==> {
                &&& reply matches Reply::Len(Some(count))
                &&& height + 1 == count
            }
            &&& reply is Failed <==> action == Action::<bool>::Finished(
                Err(BlockchainError::Storage),
            )
            &&& action matches Action::Finished(Ok(same)) ==> {
                &&& tips matches TipsMatch::ChainTip { tapes_tip }
                &&& reply matches Reply::ChainTip(store_tip)
                &&& same <==> match tapes_tip {
                    Some(hash) => store_tip matches Some(bytes) && bytes@ == hash@,
                    None => store_tip is None,
                }
            }
        },
        reply is Failed && !(tips is Over) ==> tips.next(reply) is Some,
        TipsMatch::started().1 matches Action::Perform(request) && asked_to_compare(request),
{
}

/// A reader takes pairs of snapshots and compares them, and waits ten milliseconds between two
/// pairs. It takes at most six thousand, and has the same number left after everything but a pause.
pub proof fn lemma_read_asks(read: ReadTransactions, reply: Reply)
    ensures
        read.next(reply) matches Some((then, action)) ==> {
            &&& action matches Action::Perform(request) ==> {
                ||| asked_to_compare(request)
                ||| request is TakeSnapshots
                ||| request == Request::Sleep { millis: 10 }
            }
            &&& then.tries == read.tries || read.stage is Pause && then.tries + 1 == read.tries
                || read.tries == 0
            &&& reply is Failed <==> action == Action::<bool>::Finished(
                Err(BlockchainError::Storage),
            )
        },
        ReadTransactions::started().0.tries == 6000,
        ReadTransactions::started().1 is Perform,
        (ReadTransactions::started().1)->Perform_0 is TakeSnapshots,
{
    match read.stage {
        ReadStage::Tips(tips) => {
            lemma_compare_asks(tips, reply);
        },
        _ => {},
    }
}

/// The activation that bringing a database into the state that it should be in has come to is on
/// course for the stripe that this was started with.
pub open spec fn pruning_as_started(operation: MakeConsistent) -> bool {
    operation.stage matches ConsistencyStage::Prune(prune) ==> {
        &&& prune.stripe == operation.stripe
        &&& pruning_on(prune, operation.stripe.number())
    }
}

/// Bringing a database into the state that it should be in asks for nothing but to compare the
/// tips, to build the keyspaces anew, and to prune the node on the stripe that it was started with.
/// It starts to prune only a node that the configuration wants pruned and that is not. It fails if
/// and only if a request does, or the node is pruned and has no `prunable_tip`.
pub proof fn lemma_make_consistent_asks(operation: MakeConsistent, reply: Reply)
    requires
        operation.ready(),
        pruning_as_started(operation),
    ensures
        operation.next(reply) matches Some((then, action)) ==> {
            &&& pruning_as_started(then)
            &&& then.stripe == operation.stripe
            &&& then.db.config == operation.db.config
            &&& action matches Action::Perform(request) ==> match then.stage {
                ConsistencyStage::Snapshots => false,
                ConsistencyStage::Tips(_) => asked_to_compare(request),
                ConsistencyStage::Rebuild(_) => {
                    ||| asked_to_replay(request)
                    ||| request matches Request::RecreateKeyspace { keyspace, options }
                        && keyspace != Keyspace::PrunableTip && made_so(keyspace, options)
                },
                ConsistencyStage::Prune(_) => asked_to_prune(
                    operation.db.config.cache_sizes,
                    operation.stripe.number(),
                    request,
                ),
                ConsistencyStage::Over => false,
            }
            &&& then.stage is Prune && !(operation.stage is Prune) ==> {
                &&& then.db.config.prune
                &&& then.db.pruning_seed == PruningSeed::NotPruned
            }
            &&& action matches Action::Finished(Err(error)) ==> {
                ||| reply is Failed && error == BlockchainError::Storage
                ||| error == BlockchainError::MissingPrunableTip && then.db.pruning_seed
                    != PruningSeed::NotPruned && !then.db.prunable_tip
                ||| operation.stage is Tips && error == BlockchainError::NotFound
            }
            &&& action matches Action::Finished(Ok(_)) ==> {
                &&& !(reply is Failed)
                &&& !(operation.stage is Prune) ==> {
                    &&& then.db.pruning_seed == PruningSeed::NotPruned || then.db.prunable_tip
                    &&& !(then.db.config.prune && then.db.pruning_seed == PruningSeed::NotPruned)
                }
            }
        },
{
    lemma_prune_asks_first(operation.db, operation.stripe);
    match operation.stage {
        ConsistencyStage::Tips(tips) => {
            lemma_compare_asks(tips, reply);
            lemma_each_keyspace_is_opened_once(chain_keyspaces()[0]);
            assert(chain_keyspaces().contains(chain_keyspaces()[0]));
        },
        ConsistencyStage::Rebuild(rebuild) => {
            lemma_rebuild_asks(rebuild, reply);
            match rebuild.next(reply) {
                Some((rebuilt, _)) => {
                    lemma_prune_asks_first(rebuilt.db, operation.stripe);
                },
                None => {},
            }
        },
        ConsistencyStage::Prune(prune) => {
            lemma_prune_asks(prune, operation.stripe.number(), reply);
        },
        _ => {},
    }
}

/// Bringing a database into the state that it should be in starts with a pair of snapshots.
pub proof fn lemma_make_consistent_asks_first(db: BlockchainDatabase, stripe: Stripe)
    ensures
        pruning_as_started(MakeConsistent::started(db, stripe).0),
        MakeConsistent::started(db, stripe).0.stripe == stripe,
        MakeConsistent::started(db, stripe).0.db == db,
        MakeConsistent::started(db, stripe).1 == Action::<()>::Perform(Request::TakeSnapshots),
{
}

/// Closing a database pushes the keyspaces to the disk, and then the tapes, whether or not the
/// first succeeds. It ends in no error.
pub proof fn lemma_close_asks(persisted: Reply, begun: Reply, committed: Reply)
    requires
        persisted is Done || persisted is Failed,
        begun is Done,
        committed is Done || committed is Failed,
    ensures
        CloseDatabase::started().1 == Action::<()>::Perform(Request::PersistKeyspaces),
        ({
            let second = CloseDatabase::started().0.next(persisted);
            let third = (second->0).0.next(begun);
            let last = (third->0).0.next(committed);
            &&& second is Some
            &&& (second->0).1 == Action::<()>::Perform(Request::BeginAppend)
            &&& third is Some
            &&& (third->0).1 == Action::<()>::Perform(Request::CommitTapes)
            &&& last is Some
            &&& (last->0).1 == Action::<()>::Finished(Ok(()))
        }),
{
}

} // verus!
