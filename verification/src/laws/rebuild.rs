//! What building the keyspaces anew does to the storage.

use vstd::prelude::*;

use crate::laws::model::{proceeds, Addition, Storage};
use crate::laws::replay::{
    additions, chain_readable, cut_short_at, derived_with, lemma_additions_of_tapes,
    lemma_replay_kept_is_prefix, lemma_replay_proceeds, lemma_replay_step, pruned_blob_readable,
    replay_kept, replayed, tapes_sound,
};
use crate::layout::{
    alt_chain_keyspaces, chain_keyspaces, default_keyspace_options, main_chain_keyspaces,
    Keyspace, CHAIN_KEYSPACES,
};
use crate::operation::{
    after, lemma_reliable_run_keeps, lemma_run_keeps, none_failed, run, Operation, StorageModel,
};
use crate::rebuild::{RebuildDatabase, RebuildStage};
use crate::replay::{ReplayStage, ReplayTapes};
use crate::request::{Action, Durability, Reply, Request};
use crate::state::BlockchainDatabase;

verus! {

/// The storage has the main-chain keyspaces, no alt-chain data outside the alt-chain keyspaces,
/// and tapes that agree with each other.
pub open spec fn sound(storage: Storage) -> bool {
    &&& tapes_sound(storage)
    &&& forall|keyspace: Keyspace| #[trigger]
        storage.derived.contains_key(keyspace) <==> main_chain_keyspaces().contains(keyspace)
    &&& forall|keyspace: Keyspace| #[trigger]
        storage.alt.contains(keyspace) ==> alt_chain_keyspaces().contains(keyspace)
}

/// The main-chain keyspaces when each of them holds what these blocks give.
pub open spec fn all_derived(chain: Seq<Addition>) -> Map<Keyspace, Seq<Addition>> {
    Map::new(
        |keyspace: Keyspace| main_chain_keyspaces().contains(keyspace),
        |keyspace: Keyspace| chain,
    )
}

/// The storage with the first keyspaces of those that every node opens emptied.
pub open spec fn emptied(storage: Storage, count: int) -> Storage
    decreases count,
{
    if count <= 0 {
        storage
    } else {
        emptied(storage, count - 1).keyspace_emptied(chain_keyspaces()[count - 1])
    }
}

/// What the keyspaces are to be given for the whole chain, with no output counted at the start.
pub open spec fn chain_of(storage: Storage) -> Seq<Addition> {
    additions(Storage { counted: Seq::empty(), ..storage })
}

/// The storage with every main-chain keyspace derived from the tapes, and no alt-chain data.
pub open spec fn rebuilt(storage: Storage) -> Storage {
    Storage {
        tip_batch: Map::empty(),
        derived: all_derived(chain_of(storage)),
        batch: Seq::empty(),
        staged: Seq::empty(),
        counted: storage.blocks,
        alt: Set::empty(),
        ..storage
    }
}

/// The storage is as it was but for the keyspaces that are built anew with what is counted of
/// them, and for the write batch and what was set aside. `prunable_tip` and the tapes are as they
/// were.
pub open spec fn only_rebuilding(before: Storage, now: Storage) -> bool {
    now == Storage {
        tip_batch: now.tip_batch,
        derived: now.derived,
        batch: now.batch,
        staged: now.staged,
        counted: now.counted,
        alt: now.alt,
        ..before
    }
}

/// Some of the keyspaces are emptied, or all of them are and the blocks of some batches added.
pub open spec fn partly_rebuilt(before: Storage, now: Storage) -> bool {
    ||| exists|count: int| 0 <= count <= CHAIN_KEYSPACES && now == #[trigger] emptied(before, count)
    ||| exists|height: int|
        cut_short_at(emptied(before, CHAIN_KEYSPACES as int), now, height)
}

/// What holds of a storage, and of the rebuild of its keyspaces, wherever the rebuild waits and
/// where it ends.
pub open spec fn rebuild_kept(
    db: BlockchainDatabase,
    before: Storage,
    now: Storage,
    rebuild: RebuildDatabase,
    action: Action<()>,
) -> bool {
    &&& rebuild.prunable_tip == db.prunable_tip
    &&& match rebuild.stage {
        RebuildStage::Recreate(index) => {
            &&& rebuild.db == db
            &&& index < CHAIN_KEYSPACES
            &&& now == emptied(before, index as int)
            &&& action == Action::<()>::Perform(
                Request::RecreateKeyspace {
                    keyspace: chain_keyspaces()[index as int],
                    options: default_keyspace_options(),
                },
            )
        },
        RebuildStage::Replay(replay) => {
            &&& rebuild.db == BlockchainDatabase { prunable_tip: false, ..db }
            &&& action is Perform
            &&& replay_kept(emptied(before, CHAIN_KEYSPACES as int), now, replay, action)
        },
        RebuildStage::Over => {
            &&& rebuild.db == db
            &&& match action {
                Action::Finished(Ok(())) => now == rebuilt(before),
                Action::Finished(Err(_)) => partly_rebuilt(before, now),
                Action::Perform(_) => false,
            }
        },
    }
}

/// Emptying keyspaces changes nothing but those.
proof fn lemma_emptied_frame(storage: Storage, count: int)
    requires
        0 <= count <= CHAIN_KEYSPACES,
    ensures
        emptied(storage, count) == (Storage {
            derived: emptied(storage, count).derived,
            counted: emptied(storage, count).counted,
            alt: emptied(storage, count).alt,
            ..storage
        }),
        forall|keyspace: Keyspace| #[trigger]
            emptied(storage, count).derived.contains_key(keyspace)
                && !storage.derived.contains_key(keyspace)
                ==> main_chain_keyspaces().contains(keyspace),
        forall|keyspace: Keyspace| #[trigger]
            storage.derived.contains_key(keyspace) ==> emptied(
                storage,
                count,
            ).derived.contains_key(keyspace),
    decreases count,
{
    if count > 0 {
        lemma_emptied_frame(storage, count - 1);
        let keyspace = chain_keyspaces()[count - 1];
        if count <= main_chain_keyspaces().len() {
            assert(keyspace == main_chain_keyspaces()[count - 1]);
        } else {
            assert(keyspace == alt_chain_keyspaces()[count - 1 - main_chain_keyspaces().len()]);
        }
    }
}

/// What is emptied stays so.
proof fn lemma_emptied_stays(storage: Storage, index: int, count: int)
    requires
        0 <= index < count <= CHAIN_KEYSPACES,
    ensures
        index < main_chain_keyspaces().len() ==> {
            &&& emptied(storage, count).derived.contains_key(main_chain_keyspaces()[index])
            &&& emptied(storage, count).derived[main_chain_keyspaces()[index]]
                == Seq::<Addition>::empty()
        },
        index >= main_chain_keyspaces().len() ==> !emptied(storage, count).alt.contains(
            chain_keyspaces()[index],
        ),
    decreases count,
{
    if index < count - 1 {
        lemma_emptied_stays(storage, index, count - 1);
    } else if index < main_chain_keyspaces().len() {
        assert(chain_keyspaces()[index] == main_chain_keyspaces()[index]);
    } else {
        let keyspace = chain_keyspaces()[index];
        assert(keyspace == alt_chain_keyspaces()[index - main_chain_keyspaces().len()]);
        assert(!main_chain_keyspaces().contains(keyspace));
    }
}

/// What is counted of `pre_rct_outputs` goes with it.
proof fn lemma_counts_emptied(storage: Storage, count: int)
    requires
        4 <= count <= CHAIN_KEYSPACES,
    ensures
        emptied(storage, count).counted == Seq::<Seq<u8>>::empty(),
    decreases count,
{
    assert(chain_keyspaces()[3] == Keyspace::PreRctOutputs);
    if count > 4 {
        lemma_counts_emptied(storage, count - 1);
    }
}

/// Emptying every keyspace leaves the tapes and `prunable_tip`.
pub(crate) proof fn lemma_all_emptied(storage: Storage)
    requires
        sound(storage),
    ensures
        emptied(storage, CHAIN_KEYSPACES as int) == (Storage {
            derived: all_derived(Seq::empty()),
            counted: Seq::empty(),
            alt: Set::empty(),
            ..storage
        }),
{
    let all = emptied(storage, CHAIN_KEYSPACES as int);
    lemma_counts_emptied(storage, CHAIN_KEYSPACES as int);
    lemma_emptied_frame(storage, CHAIN_KEYSPACES as int);
    assert forall|keyspace: Keyspace| #[trigger]
        main_chain_keyspaces().contains(keyspace) implies all.derived.contains_key(keyspace)
        && all.derived[keyspace] == Seq::<Addition>::empty() by {
        let index = choose|index: int|
            0 <= index < main_chain_keyspaces().len() && main_chain_keyspaces()[index] == keyspace;
        lemma_emptied_stays(storage, index, CHAIN_KEYSPACES as int);
    }
    assert(all.derived =~= all_derived(Seq::empty()));
    assert forall|keyspace: Keyspace| !all.alt.contains(keyspace) by {
        if alt_chain_keyspaces().contains(keyspace) {
            let index = choose|index: int|
                0 <= index < alt_chain_keyspaces().len() && alt_chain_keyspaces()[index]
                    == keyspace;
            let at = index + main_chain_keyspaces().len();
            lemma_emptied_stays(storage, at, CHAIN_KEYSPACES as int);
            assert(chain_keyspaces()[at] == keyspace);
        } else {
            lemma_emptied_alt(storage, CHAIN_KEYSPACES as int);
        }
    }
    assert(all.alt =~= Set::empty());
}

/// Emptying keyspaces adds no alt-chain data.
proof fn lemma_emptied_alt(storage: Storage, count: int)
    requires
        0 <= count <= CHAIN_KEYSPACES,
    ensures
        emptied(storage, count).alt.subset_of(storage.alt),
    decreases count,
{
    if count > 0 {
        lemma_emptied_alt(storage, count - 1);
    }
}

/// Going on with the keyspaces keeps what holds of the rebuild.
pub(crate) proof fn lemma_recreating(
    db: BlockchainDatabase,
    before: Storage,
    now: Storage,
    index: int,
)
    requires
        0 <= index <= CHAIN_KEYSPACES,
        now == emptied(before, index),
    ensures
        ({
            let (rebuild, action) = RebuildDatabase::recreating(db, index);
            rebuild_kept(db, before, now, rebuild, action)
        }),
{
}

/// Wherever the rebuild waits, the keyspaces are rebuilt in part, and where it succeeds, in full.
pub(crate) proof fn lemma_rebuild_kept_is_partial(
    db: BlockchainDatabase,
    before: Storage,
    now: Storage,
    rebuild: RebuildDatabase,
    action: Action<()>,
)
    requires
        sound(before),
        rebuild_kept(db, before, now, rebuild, action),
    ensures
        action matches Action::Finished(Ok(_)) ==> now == rebuilt(before),
        !(action matches Action::Finished(Ok(_))) ==> partly_rebuilt(before, now),
        only_rebuilding(before, now),
{
    let all = emptied(before, CHAIN_KEYSPACES as int);
    lemma_all_emptied(before);
    match rebuild.stage {
        RebuildStage::Recreate(_) => {},
        RebuildStage::Replay(replay) => {
            lemma_replay_kept_is_prefix(all, now, replay, action);
        },
        RebuildStage::Over => {
        },
    }
    if exists|count: int|
        0 <= count <= CHAIN_KEYSPACES && now == #[trigger] emptied(before, count) {
        let count = choose|count: int|
            0 <= count <= CHAIN_KEYSPACES && now == #[trigger] emptied(before, count);
        lemma_emptied_frame(before, count);
    }
}

/// Blocks added to empty keyspaces are all that these hold.
proof fn lemma_derived_from_nothing(storage: Storage, chain: Seq<Addition>)
    requires
        storage.derived == all_derived(Seq::empty()),
    ensures
        derived_with(storage, chain) == all_derived(chain),
{
    assert(Seq::<Addition>::empty() + chain =~= chain);
    assert(derived_with(storage, chain) =~= all_derived(chain));
}

/// Every reply keeps what holds of the rebuild.
pub(crate) proof fn lemma_rebuild_step(
    db: BlockchainDatabase,
    before: Storage,
    now: Storage,
    rebuild: RebuildDatabase,
    request: Request,
    reply: Reply,
)
    requires
        sound(before),
        rebuild_kept(db, before, now, rebuild, Action::Perform(request)),
        now.answers(request, reply),
        rebuild.next(reply) is Some,
    ensures
        rebuild_kept(
            db,
            before,
            after(now, request, reply),
            (rebuild.next(reply)->0).0,
            (rebuild.next(reply)->0).1,
        ),
{
    let then = after(now, request, reply);
    match rebuild.stage {
        RebuildStage::Recreate(index) => {
            if reply is Failed {
            } else {
                lemma_recreating(db, before, then, index + 1);
            }
        },
        RebuildStage::Replay(replay) => {
            let all = emptied(before, CHAIN_KEYSPACES as int);
            lemma_all_emptied(before);
            lemma_replay_step(all, now, replay, request, reply);
            let chain = additions(all);
            lemma_additions_of_tapes(all, Storage { counted: Seq::empty(), ..before });
            lemma_derived_from_nothing(all, chain);
            assert(replayed(all) =~= rebuilt(before));
        },
        RebuildStage::Over => {},
    }
}

/// The replay waits for something that has no bearing on the tapes and `prunable_tip`: the write
/// batch that it commits has no entry of `prunable_tip`.
spec fn replay_framed(now: Storage, replay: ReplayTapes, action: Action<()>) -> bool {
    match replay.stage {
        ReplayStage::Snapshot => action == Action::<()>::Perform(Request::TakeTapesSnapshot),
        ReplayStage::TxCount => action == Action::<()>::Perform(Request::IterateTxInfos),
        ReplayStage::Batch { .. } => action == Action::<()>::Perform(
            Request::BeginBatch { durability: Durability::Buffer },
        ),
        ReplayStage::Over => action is Finished,
        _ => {
            &&& now.tip_batch == Map::<u64, Seq<u8>>::empty()
            &&& action matches Action::Perform(request)
            &&& match request {
                Request::TapeLen { .. } => true,
                Request::GetBlock { .. } => true,
                Request::ReadTxInfo { .. } => true,
                Request::ReadBytes { .. } => true,
                Request::StageTransaction { .. } => true,
                Request::AddBlock { .. } => true,
                Request::CommitBatch => true,
                _ => false,
            }
        },
    }
}

/// What holds of any storage, and of the rebuild of its keyspaces, wherever the rebuild waits and
/// where it ends.
pub(crate) closed spec fn rebuild_framed(
    db: BlockchainDatabase,
    before: Storage,
    now: Storage,
    rebuild: RebuildDatabase,
    action: Action<()>,
) -> bool {
    &&& only_rebuilding(before, now)
    &&& rebuild.prunable_tip == db.prunable_tip
    &&& match rebuild.stage {
        RebuildStage::Recreate(index) => {
            &&& rebuild.db == db
            &&& index < CHAIN_KEYSPACES
            &&& action == Action::<()>::Perform(
                Request::RecreateKeyspace {
                    keyspace: chain_keyspaces()[index as int],
                    options: default_keyspace_options(),
                },
            )
        },
        RebuildStage::Replay(replay) => {
            &&& rebuild.db == BlockchainDatabase { prunable_tip: false, ..db }
            &&& action is Perform
            &&& replay_framed(now, replay, action)
        },
        RebuildStage::Over => rebuild.db == db && action is Finished,
    }
}

/// What `rebuild_framed` says to those who rebuild.
pub(crate) proof fn lemma_rebuild_framed(
    db: BlockchainDatabase,
    before: Storage,
    now: Storage,
    rebuild: RebuildDatabase,
    action: Action<()>,
)
    requires
        rebuild_framed(db, before, now, rebuild, action),
    ensures
        only_rebuilding(before, now),
        !(rebuild.stage is Replay) ==> rebuild.db == db,
        rebuild.stage is Replay ==> rebuild.db == (BlockchainDatabase {
            prunable_tip: false,
            ..db
        }),
        action is Finished ==> rebuild.db == db,
{
}

/// The rebuild starts as `rebuild_framed` says.
pub(crate) proof fn lemma_rebuild_framed_at_start(
    db: BlockchainDatabase,
    before: Storage,
    now: Storage,
)
    requires
        only_rebuilding(before, now),
    ensures
        rebuild_framed(
            db,
            before,
            now,
            RebuildDatabase::started(db).0,
            RebuildDatabase::started(db).1,
        ),
{
}

/// Every reply keeps what holds of the rebuild of any storage.
pub(crate) proof fn lemma_rebuild_framed_step(
    db: BlockchainDatabase,
    before: Storage,
    now: Storage,
    rebuild: RebuildDatabase,
    request: Request,
    reply: Reply,
)
    requires
        rebuild_framed(db, before, now, rebuild, Action::Perform(request)),
        now.answers(request, reply),
        rebuild.next(reply) is Some,
    ensures
        rebuild_framed(
            db,
            before,
            after(now, request, reply),
            (rebuild.next(reply)->0).0,
            (rebuild.next(reply)->0).1,
        ),
{
    match rebuild.stage {
        RebuildStage::Recreate(index) => {
            let keyspace = chain_keyspaces()[index as int];
            let main = main_chain_keyspaces();
            if index < main.len() {
                assert(keyspace == main[index as int]);
            } else {
                assert(keyspace == alt_chain_keyspaces()[index - main.len()]);
            }
        },
        RebuildStage::Replay(_) => {
            assert(now.tip.union_prefer_right(Map::empty()) =~= now.tip);
        },
        RebuildStage::Over => {},
    }
}

/// Whatever is stored, even on tapes that do not agree with each other: a rebuild leaves the tapes
/// and `prunable_tip` as they are at every moment, and so it does with what the database knows of
/// itself, which is as it was wherever the rebuild ends: even one that fails puts `prunable_tip`
/// back. While the tapes are replayed the database has no `prunable_tip`.
pub proof fn lemma_rebuild_leaves_the_rest(
    db: BlockchainDatabase,
    before: Storage,
    replies: Seq<Reply>,
)
    ensures
        run(
            before,
            RebuildDatabase::started(db).0,
            RebuildDatabase::started(db).1,
            replies,
        ) matches Some((now, rebuild, action)) ==> {
            &&& only_rebuilding(before, now)
            &&& rebuild.stage is Replay ==> rebuild.db == (BlockchainDatabase {
                prunable_tip: false,
                ..db
            })
            &&& !(rebuild.stage is Replay) ==> rebuild.db == db
            &&& action is Finished ==> rebuild.db == db
        },
{
    let kept = |now: Storage, rebuild: RebuildDatabase, action: Action<()>|
        rebuild_framed(db, before, now, rebuild, action);
    let (rebuild, action) = RebuildDatabase::started(db);
    lemma_rebuild_framed_at_start(db, before, before);
    assert forall|s: Storage, m: RebuildDatabase, request: Request, reply: Reply|
        kept(s, m, Action::Perform(request)) && #[trigger] s.answers(request, reply) && (
        #[trigger] m.next(reply)) is Some implies kept(
        after(s, request, reply),
        (m.next(reply)->0).0,
        (m.next(reply)->0).1,
    ) by {
        lemma_rebuild_framed_step(db, before, s, m, request, reply);
    }
    lemma_run_keeps(kept, before, rebuild, action, replies);
}

/// If a rebuild succeeds, every main-chain keyspace holds what the tapes give and nothing else,
/// the alt-chain keyspaces are empty, and the keyspaces are at the same main-chain tip as the
/// tapes. One that fails or is cut short leaves some keyspaces emptied, or all of them emptied and
/// the blocks of some batches added.
pub proof fn lemma_rebuild_database(
    db: BlockchainDatabase,
    before: Storage,
    replies: Seq<Reply>,
)
    requires
        sound(before),
    ensures
        run(
            before,
            RebuildDatabase::started(db).0,
            RebuildDatabase::started(db).1,
            replies,
        ) matches Some((now, _, action)) ==> match action {
            Action::Finished(Ok(_)) => now == rebuilt(before) && now.in_sync(),
            _ => partly_rebuilt(before, now),
        },
{
    let kept = |now: Storage, rebuild: RebuildDatabase, action: Action<()>|
        rebuild_kept(db, before, now, rebuild, action);
    let (rebuild, action) = RebuildDatabase::started(db);
    lemma_recreating(db, before, before, 0);
    assert forall|s: Storage, m: RebuildDatabase, request: Request, reply: Reply|
        kept(s, m, Action::Perform(request)) && #[trigger] s.answers(request, reply) && (
        #[trigger] m.next(reply)) is Some implies kept(
        after(s, request, reply),
        (m.next(reply)->0).0,
        (m.next(reply)->0).1,
    ) by {
        lemma_rebuild_step(db, before, s, m, request, reply);
    }
    lemma_run_keeps(kept, before, rebuild, action, replies);
    match run(before, rebuild, action, replies) {
        Some((now, m, a)) => {
            lemma_rebuild_kept_is_partial(db, before, now, m, a);
            lemma_rebuilt_is_in_sync(before);
        },
        None => {},
    }
}

/// Keyspaces that were built anew are at the same main-chain tip as the tapes.
pub proof fn lemma_rebuilt_is_in_sync(storage: Storage)
    requires
        tapes_sound(storage),
    ensures
        rebuilt(storage).in_sync(),
{
    assert(main_chain_keyspaces()[1] == Keyspace::ChainTip);
    assert(main_chain_keyspaces().contains(Keyspace::ChainTip));
}

/// The outputs from before RingCT are numbered anew by a rebuild: those of the first block from
/// nothing on, and those of every other block from what the blocks below it have.
pub proof fn lemma_rebuild_numbers_anew(storage: Storage, height: int)
    requires
        0 <= height < storage.blocks.len(),
    ensures
        rebuilt(storage).derived[Keyspace::PreRctOutputs][height].counted == storage.blocks.take(
            height,
        ),
{
    assert(main_chain_keyspaces()[3] == Keyspace::PreRctOutputs);
    assert(main_chain_keyspaces().contains(Keyspace::PreRctOutputs));
    assert(Seq::<Seq<u8>>::empty() + storage.blocks.take(height) =~= storage.blocks.take(height));
}

/// Two rebuilds from the same tapes give every main-chain keyspace the same content, whatever the
/// keyspaces held and whatever was counted of them before each.
pub proof fn lemma_rebuild_is_repeatable(
    db: BlockchainDatabase,
    before: Storage,
    replies: Seq<Reply>,
    other_db: BlockchainDatabase,
    other: Storage,
    other_replies: Seq<Reply>,
)
    requires
        sound(before),
        sound(other),
        before.blocks == other.blocks,
        before.tx_infos == other.tx_infos,
        before.pruned_blobs == other.pruned_blobs,
    ensures
        (
            run(
                before,
                RebuildDatabase::started(db).0,
                RebuildDatabase::started(db).1,
                replies,
            ),
            run(
                other,
                RebuildDatabase::started(other_db).0,
                RebuildDatabase::started(other_db).1,
                other_replies,
            ),
        ) matches (
            Some((first, _, Action::Finished(Ok(_)))),
            Some((second, _, Action::Finished(Ok(_)))),
        ) ==> first.derived == second.derived && first.counted == second.counted,
{
    lemma_rebuild_database(db, before, replies);
    lemma_rebuild_database(other_db, other, other_replies);
    lemma_additions_of_tapes(
        Storage { counted: Seq::empty(), ..before },
        Storage { counted: Seq::empty(), ..other },
    );
}

/// What a rebuild leaves can be rebuilt again, and that changes nothing.
pub proof fn lemma_rebuild_again_changes_nothing(storage: Storage)
    requires
        sound(storage),
    ensures
        sound(rebuilt(storage)),
        rebuilt(rebuilt(storage)) == rebuilt(storage),
{
    lemma_additions_of_tapes(
        Storage { counted: Seq::empty(), ..storage },
        Storage { counted: Seq::empty(), ..rebuilt(storage) },
    );
}

/// Blocks of different heights have different hashes.
pub open spec fn hashes_distinct(storage: Storage) -> bool {
    forall|low: int, high: int|
        0 <= low < high < storage.block_infos.len() ==> (
        #[trigger] storage.block_infos[low]).block_hash@ != (
        #[trigger] storage.block_infos[high]).block_hash@
}

/// A rebuild that starts because the tips differ, and is cut short, is started again: until every
/// main-chain keyspace holds what the tapes give, the tips keep differing.
///
/// This takes at least one block on the tapes. Without any, the tips agree as soon as the
/// `chain_tip` keyspace is emptied, which is not the last to be.
pub proof fn lemma_interrupted_rebuild_is_redone(
    db: BlockchainDatabase,
    before: Storage,
    replies: Seq<Reply>,
)
    requires
        sound(before),
        hashes_distinct(before),
        before.block_infos.len() > 0,
        !before.in_sync(),
    ensures
        run(
            before,
            RebuildDatabase::started(db).0,
            RebuildDatabase::started(db).1,
            replies,
        ) matches Some((now, _, _)) ==> (now.in_sync() ==> now.derived == all_derived(
            chain_of(before),
        )),
{
    let kept = |now: Storage, rebuild: RebuildDatabase, action: Action<()>|
        rebuild_kept(db, before, now, rebuild, action);
    let (rebuild, action) = RebuildDatabase::started(db);
    lemma_recreating(db, before, before, 0);
    assert forall|s: Storage, m: RebuildDatabase, request: Request, reply: Reply|
        kept(s, m, Action::Perform(request)) && #[trigger] s.answers(request, reply) && (
        #[trigger] m.next(reply)) is Some implies kept(
        after(s, request, reply),
        (m.next(reply)->0).0,
        (m.next(reply)->0).1,
    ) by {
        lemma_rebuild_step(db, before, s, m, request, reply);
    }
    lemma_run_keeps(kept, before, rebuild, action, replies);
    match run(before, rebuild, action, replies) {
        Some((now, m, a)) => {
            lemma_rebuild_kept_is_partial(db, before, now, m, a);
            if now.in_sync() && partly_rebuilt(before, now) {
                lemma_in_sync_only_if_complete(before, now);
            }
        },
        None => {},
    }
}

/// Keyspaces that are rebuilt in part are at the tip of the tapes only if they are rebuilt in
/// full.
proof fn lemma_in_sync_only_if_complete(before: Storage, now: Storage)
    requires
        sound(before),
        hashes_distinct(before),
        before.block_infos.len() > 0,
        !before.in_sync(),
        partly_rebuilt(before, now),
        now.in_sync(),
    ensures
        now.derived == all_derived(chain_of(before)),
{
    let all = emptied(before, CHAIN_KEYSPACES as int);
    lemma_all_emptied(before);
    lemma_additions_of_tapes(all, Storage { counted: Seq::empty(), ..before });
    assert(main_chain_keyspaces()[1] == Keyspace::ChainTip);
    assert(main_chain_keyspaces().contains(Keyspace::ChainTip));
    if exists|height: int| cut_short_at(all, now, height) {
        let height = choose|height: int| cut_short_at(all, now, height);
        let chain = chain_of(before).take(height);
        lemma_derived_from_nothing(all, chain);
        if height > 0 {
            let top = before.block_infos.len() - 1;
            assert(chain.last() == chain_of(before)[height - 1]);
            assert(before.block_infos[height - 1].block_hash@ == chain.last().hash@);
            assert(before.block_infos[top].block_hash@ == chain.last().hash@);
            assert(height - 1 == top);
            assert(chain =~= chain_of(before));
        }
    } else {
        let count = choose|count: int|
            0 <= count <= CHAIN_KEYSPACES && now == #[trigger] emptied(before, count);
        lemma_emptied_frame(before, count);
        if count > 1 {
            lemma_emptied_stays(before, 1, count);
        } else {
            lemma_tip_not_emptied_yet(before, count);
        }
    }
}

/// The first keyspace to be emptied is not `chain_tip`.
proof fn lemma_tip_not_emptied_yet(storage: Storage, count: int)
    requires
        0 <= count <= 1,
    ensures
        emptied(storage, count).derived[Keyspace::ChainTip] == storage.derived[Keyspace::ChainTip],
{
    reveal_with_fuel(emptied, 2);
    assert(chain_keyspaces()[0] == Keyspace::BlockHeights);
}

/// Wherever the rebuild waits, it goes on.
pub(crate) proof fn lemma_rebuild_proceeds(
    db: BlockchainDatabase,
    before: Storage,
    now: Storage,
    rebuild: RebuildDatabase,
    action: Action<()>,
)
    requires
        sound(before),
        chain_readable(before),
        rebuild_kept(db, before, now, rebuild, action),
    ensures
        proceeds(now, rebuild, action),
{
    match rebuild.stage {
        RebuildStage::Replay(replay) => {
            let all = emptied(before, CHAIN_KEYSPACES as int);
            lemma_all_emptied(before);
            assert forall|tx_id: int|
                0 <= tx_id < all.tx_infos.len() implies #[trigger] pruned_blob_readable(
                all,
                tx_id,
            ) by {
                assert(pruned_blob_readable(before, tx_id));
            }
            lemma_replay_proceeds(all, now, replay, action);
            assert forall|reply: Reply|
                now.answers(action->Perform_0, reply) && !(reply is Failed) implies (
            #[trigger] rebuild.next(reply)) is Some by {
                assert(replay.next(reply) is Some);
            }
        },
        _ => {},
    }
}

/// Building the keyspaces anew succeeds if the tapes agree with each other, every transaction can
/// be read, and no request fails: it never gets stuck, and it does not end in an error.
pub proof fn lemma_rebuild_database_succeeds(
    db: BlockchainDatabase,
    before: Storage,
    replies: Seq<Reply>,
)
    requires
        sound(before),
        chain_readable(before),
        none_failed(replies),
    ensures
        run(
            before,
            RebuildDatabase::started(db).0,
            RebuildDatabase::started(db).1,
            replies,
        ) matches Some((now, rebuild, action)) ==> {
            &&& proceeds(now, rebuild, action)
            &&& action matches Action::Finished(result) ==> result is Ok
        },
{
    let kept = |now: Storage, rebuild: RebuildDatabase, action: Action<()>|
        rebuild_kept(db, before, now, rebuild, action) && (
        action matches Action::Finished(result) ==> result is Ok);
    let (operation, action) = RebuildDatabase::started(db);
    lemma_recreating(db, before, before, 0);
    assert forall|s: Storage, m: RebuildDatabase, request: Request, reply: Reply|
        kept(s, m, Action::Perform(request)) && #[trigger] s.answers(request, reply) && (
        #[trigger] m.next(reply)) is Some && !(reply is Failed) implies kept(
        s.performed(request),
        (m.next(reply)->0).0,
        (m.next(reply)->0).1,
    ) by {
        lemma_rebuild_step(db, before, s, m, request, reply);
    }
    lemma_reliable_run_keeps(kept, before, operation, action, replies);
    match run(before, operation, action, replies) {
        Some((now, m, a)) => {
            lemma_rebuild_proceeds(db, before, now, m, a);
        },
        None => {},
    }
}

} // verus!
