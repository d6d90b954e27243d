//! What opening a database does to the storage.

use vstd::prelude::*;

use crate::laws::model::{proceeds, Storage};
use crate::layout::{
    chain_keyspaces, common_tapes, default_keyspace_options, first_tape, keeps_tape,
    lemma_first_tape, options_of_prunable_tip, options_of_tape, Config, Keyspace, Tape, TapeDir,
    CHAIN_KEYSPACES, COMMON_TAPES, PRUNABLE_TAPES,
};
use crate::opening::{seed_of_bytes, OpenDatabase, OpenStage, SEED_SIZE};
use crate::operation::{
    after, lemma_reliable_run_keeps, lemma_run_keeps, none_failed, run, Operation, StorageModel,
};
use crate::pruning::PruningSeed;
use crate::request::{Action, Reply, Request};
use crate::state::BlockchainDatabase;

verus! {

/// The seed that the storage holds, if what it holds is one.
pub open spec fn stored_seed(storage: Storage) -> Option<PruningSeed> {
    if storage.metadata.len() == 0 {
        Some(PruningSeed::NotPruned)
    } else if storage.metadata.len() < SEED_SIZE {
        None
    } else {
        seed_of_bytes(storage.metadata.subrange(0, SEED_SIZE as int))
    }
}

/// What the database knows of itself is what the storage holds.
pub open spec fn knows(db: BlockchainDatabase, storage: Storage) -> bool {
    &&& db.wf()
    &&& stored_seed(storage) == Some(db.pruning_seed)
    &&& db.prunable_tip ==> storage.tip_exists
    &&& forall|index: int|
        0 <= index < PRUNABLE_TAPES ==> (db.tape_open(index)
            <==> #[trigger] storage.prunable.contains_key(index))
}

/// The prunable tapes, with those below an index created that the seed keeps and that there were
/// not.
pub open spec fn created_below(
    prunable: Map<int, Seq<u8>>,
    seed: PruningSeed,
    below: int,
) -> Map<int, Seq<u8>> {
    Map::new(
        |index: int|
            prunable.contains_key(index) || (0 <= index < below && keeps_tape(seed, index)),
        |index: int|
            if prunable.contains_key(index) {
                prunable[index]
            } else {
                Seq::empty()
            },
    )
}

/// The prunable tapes, with every one created that the seed keeps and that there was not, and
/// with those below an index deleted that the seed does not keep.
pub open spec fn deleted_below(
    prunable: Map<int, Seq<u8>>,
    seed: PruningSeed,
    below: int,
) -> Map<int, Seq<u8>> {
    created_below(prunable, seed, PRUNABLE_TAPES as int).remove_keys(
        Set::new(|index: int| 0 <= index < below && !keeps_tape(seed, index)),
    )
}

/// The storage of a node whose database was opened: it has the prunable tapes that the seed
/// keeps, and not the others.
pub open spec fn opened(storage: Storage, seed: PruningSeed) -> Storage {
    Storage {
        appended: Seq::empty(),
        prunable: deleted_below(storage.prunable, seed, PRUNABLE_TAPES as int),
        ..storage
    }
}

/// The storage is as it was but for the prunable tapes, and of these every one that the stored
/// seed keeps is as it was too. Without a valid seed all of them are.
pub open spec fn kept_tapes_intact(before: Storage, now: Storage) -> bool {
    &&& now == Storage { appended: now.appended, prunable: now.prunable, ..before }
    &&& match stored_seed(before) {
        Some(seed) => forall|index: int| #[trigger]
            before.prunable.contains_key(index) && keeps_tape(seed, index) ==> {
                &&& now.prunable.contains_key(index)
                &&& now.prunable[index] == before.prunable[index]
            },
        None => now.prunable == before.prunable,
    }
}

/// What holds of a storage, and of the opening of its database, wherever the opening waits and
/// where it ends.
pub open spec fn open_kept(
    config: Config,
    before: Storage,
    now: Storage,
    open: OpenDatabase,
    action: Action<BlockchainDatabase>,
) -> bool {
    let begun = Storage { appended: Seq::empty(), ..before };
    let seed = open.seed;
    let tip_known = open.prunable_tip == before.tip_exists;
    let seed_known = stored_seed(before) == Some(seed);
    &&& open.config == config
    &&& match open.stage {
        OpenStage::Keyspace(index) => {
            &&& now == before
            &&& seed == PruningSeed::NotPruned
            &&& !open.prunable_tip
            &&& index < CHAIN_KEYSPACES
            &&& action == Action::<BlockchainDatabase>::Perform(
                Request::OpenKeyspace {
                    keyspace: chain_keyspaces()[index as int],
                    options: default_keyspace_options(),
                },
            )
        },
        OpenStage::TipExists => {
            &&& now == before
            &&& seed == PruningSeed::NotPruned
            &&& !open.prunable_tip
            &&& action == Action::<BlockchainDatabase>::Perform(
                Request::KeyspaceExists { keyspace: Keyspace::PrunableTip },
            )
        },
        OpenStage::Tip => {
            &&& now == before
            &&& seed == PruningSeed::NotPruned
            &&& before.tip_exists
            &&& action == Action::<BlockchainDatabase>::Perform(
                Request::OpenKeyspace {
                    keyspace: Keyspace::PrunableTip,
                    options: options_of_prunable_tip(),
                },
            )
        },
        OpenStage::Tapes => {
            &&& now == before
            &&& seed == PruningSeed::NotPruned
            &&& tip_known
            &&& action == Action::<BlockchainDatabase>::Perform(
                Request::OpenTapes { dir: TapeDir::Index },
            )
        },
        OpenStage::Begin => {
            &&& now == before
            &&& seed == PruningSeed::NotPruned
            &&& tip_known
            &&& action == Action::<BlockchainDatabase>::Perform(Request::BeginAppend)
        },
        OpenStage::Tape(index) => {
            &&& now == begun
            &&& seed == PruningSeed::NotPruned
            &&& tip_known
            &&& index < COMMON_TAPES
            &&& action == Action::<BlockchainDatabase>::Perform(
                Request::OpenTape {
                    tape: common_tapes()[index as int],
                    options: options_of_tape(common_tapes()[index as int], config.cache_sizes),
                },
            )
        },
        OpenStage::SeedLen => {
            &&& now == begun
            &&& seed == PruningSeed::NotPruned
            &&& tip_known
            &&& action == Action::<BlockchainDatabase>::Perform(
                Request::TapeLen { tape: Tape::TapesMetadata },
            )
        },
        OpenStage::Seed => {
            &&& now == begun
            &&& before.metadata.len() > 0
            &&& tip_known
            &&& action == Action::<BlockchainDatabase>::Perform(
                Request::ReadBytes { tape: Tape::TapesMetadata, offset: 0, len: SEED_SIZE },
            )
        },
        OpenStage::Prunable(index) => {
            &&& now == Storage {
                prunable: created_below(before.prunable, seed, index as int),
                ..begun
            }
            &&& seed_known
            &&& tip_known
            &&& index < PRUNABLE_TAPES
            &&& keeps_tape(seed, index as int)
            &&& action == Action::<BlockchainDatabase>::Perform(
                Request::OpenTape {
                    tape: Tape::Prunable(index),
                    options: options_of_tape(Tape::Prunable(index), config.cache_sizes),
                },
            )
        },
        OpenStage::Commit => {
            &&& now == Storage {
                prunable: created_below(before.prunable, seed, PRUNABLE_TAPES as int),
                ..begun
            }
            &&& seed_known
            &&& tip_known
            &&& action == Action::<BlockchainDatabase>::Perform(Request::CommitTapes)
        },
        OpenStage::Delete(index) => {
            &&& now == Storage {
                prunable: deleted_below(before.prunable, seed, index as int),
                ..begun
            }
            &&& seed_known
            &&& tip_known
            &&& index < PRUNABLE_TAPES
            &&& !keeps_tape(seed, index as int)
            &&& action == Action::<BlockchainDatabase>::Perform(
                Request::DeleteTape {
                    tape: Tape::Prunable(index),
                    options: options_of_tape(Tape::Prunable(index), config.cache_sizes),
                },
            )
        },
        OpenStage::Over => match action {
            Action::Finished(Ok(db)) => {
                &&& seed_known
                &&& now == opened(before, seed)
                &&& db == BlockchainDatabase {
                    config,
                    pruning_seed: seed,
                    prunable_tip: before.tip_exists,
                    closed_below: PRUNABLE_TAPES,
                }
            },
            Action::Finished(Err(_)) => kept_tapes_intact(before, now),
            Action::Perform(_) => false,
        },
    }
}

/// `prunable_tip` is not one of the keyspaces that every node opens.
proof fn lemma_tip_is_no_chain_keyspace(index: int)
    requires
        0 <= index < CHAIN_KEYSPACES,
    ensures
        chain_keyspaces()[index] != Keyspace::PrunableTip,
{
}

/// No tape that every node opens is a prunable one.
proof fn lemma_prunable_is_no_common_tape(index: int)
    requires
        0 <= index < COMMON_TAPES,
    ensures
        !(common_tapes()[index] is Prunable),
{
}

/// Going on with the prunable tapes to open keeps what holds of the opening.
proof fn lemma_open_from(
    config: Config,
    before: Storage,
    now: Storage,
    open: OpenDatabase,
    from: int,
)
    requires
        open.config == config,
        stored_seed(before) == Some(open.seed),
        open.prunable_tip == before.tip_exists,
        0 <= from <= PRUNABLE_TAPES,
        now == (Storage {
            appended: Seq::empty(),
            prunable: created_below(before.prunable, open.seed, from),
            ..before
        }),
    ensures
        ({
            let (then, action) = open.opening_prunable(from);
            open_kept(config, before, now, then, action)
        }),
{
    let index = first_tape(open.seed, true, from);
    lemma_first_tape(open.seed, true, from);
    assert(created_below(before.prunable, open.seed, from) =~= created_below(
        before.prunable,
        open.seed,
        index,
    ));
}

/// Going on with the prunable tapes to delete keeps what holds of the opening.
proof fn lemma_delete_from(
    config: Config,
    before: Storage,
    now: Storage,
    open: OpenDatabase,
    from: int,
)
    requires
        open.config == config,
        stored_seed(before) == Some(open.seed),
        open.prunable_tip == before.tip_exists,
        0 <= from <= PRUNABLE_TAPES,
        now == (Storage {
            appended: Seq::empty(),
            prunable: deleted_below(before.prunable, open.seed, from),
            ..before
        }),
    ensures
        ({
            let (then, action) = open.deleting(from);
            open_kept(config, before, now, then, action)
        }),
{
    let index = first_tape(open.seed, false, from);
    lemma_first_tape(open.seed, false, from);
    assert(deleted_below(before.prunable, open.seed, from) =~= deleted_below(
        before.prunable,
        open.seed,
        index,
    ));
}

/// Wherever the opening waits, the tapes are intact that the seed keeps.
proof fn lemma_open_kept_is_intact(
    config: Config,
    before: Storage,
    now: Storage,
    open: OpenDatabase,
    action: Action<BlockchainDatabase>,
)
    requires
        open_kept(config, before, now, open, action),
    ensures
        kept_tapes_intact(before, now),
{
}

/// Every reply keeps what holds of the opening.
proof fn lemma_open_step(
    config: Config,
    before: Storage,
    now: Storage,
    open: OpenDatabase,
    request: Request,
    reply: Reply,
)
    requires
        open_kept(config, before, now, open, Action::Perform(request)),
        now.answers(request, reply),
        open.next(reply) is Some,
    ensures
        open_kept(
            config,
            before,
            after(now, request, reply),
            (open.next(reply)->0).0,
            (open.next(reply)->0).1,
        ),
{
    let then = after(now, request, reply);
    if reply is Failed {
        lemma_open_kept_is_intact(config, before, now, open, Action::Perform(request));
    } else {
        match open.stage {
            OpenStage::Keyspace(index) => {
                lemma_tip_is_no_chain_keyspace(index as int);
            },
            OpenStage::Tape(index) => {
                lemma_prunable_is_no_common_tape(index as int);
            },
            OpenStage::SeedLen => {
                if before.metadata.len() == 0 {
                    assert(before.prunable =~= created_below(before.prunable, open.seed, 0));
                    lemma_open_from(config, before, then, open, 0);
                }
            },
            OpenStage::Seed => {
                match reply {
                    Reply::Bytes(bytes) => {
                        match seed_of_bytes(bytes@) {
                            Some(seed) => {
                                let open2 = OpenDatabase { seed, ..open };
                                assert(before.prunable =~= created_below(before.prunable, seed, 0));
                                lemma_open_from(config, before, then, open2, 0);
                            },
                            None => {},
                        }
                    },
                    _ => {},
                }
            },
            OpenStage::Prunable(index) => {
                assert(then.prunable =~= created_below(before.prunable, open.seed, index + 1));
                lemma_open_from(config, before, then, open, index + 1);
            },
            OpenStage::Commit => {
                assert(then.metadata =~= before.metadata);
                assert(then.prunable =~= deleted_below(before.prunable, open.seed, 0));
                lemma_delete_from(config, before, then, open, 0);
            },
            OpenStage::Delete(index) => {
                assert(then.prunable =~= deleted_below(before.prunable, open.seed, index + 1));
                lemma_delete_from(config, before, then, open, index + 1);
            },
            _ => {},
        }
    }
}

/// Opening a database gives back what is stored, deletes the prunable tapes that the stored seed
/// does not keep, and changes nothing else.
///
/// The tapes that it keeps are intact at every moment. A node that is not pruned keeps all of
/// them, so nothing of it is ever deleted, whatever its configuration says.
pub proof fn lemma_open_database(config: Config, before: Storage, replies: Seq<Reply>)
    ensures
        run(
            before,
            OpenDatabase::started(config).0,
            OpenDatabase::started(config).1,
            replies,
        ) matches Some((now, open, action)) ==> {
            &&& kept_tapes_intact(before, now)
            &&& action matches Action::Finished(Ok(db)) ==> {
                &&& stored_seed(before) == Some(db.pruning_seed)
                &&& db == BlockchainDatabase {
                    config,
                    pruning_seed: db.pruning_seed,
                    prunable_tip: before.tip_exists,
                    closed_below: PRUNABLE_TAPES,
                }
                &&& now == opened(before, db.pruning_seed)
                &&& knows(db, now)
            }
        },
{
    let kept = |now: Storage, open: OpenDatabase, action: Action<BlockchainDatabase>|
        open_kept(config, before, now, open, action);
    let (open, action) = OpenDatabase::started(config);
    assert forall|s: Storage, m: OpenDatabase, request: Request, reply: Reply|
        kept(s, m, Action::Perform(request)) && #[trigger] s.answers(request, reply) && (
        #[trigger] m.next(reply)) is Some implies kept(
        after(s, request, reply),
        (m.next(reply)->0).0,
        (m.next(reply)->0).1,
    ) by {
        lemma_open_step(config, before, s, m, request, reply);
    }
    lemma_run_keeps(kept, before, open, action, replies);
    match run(before, open, action, replies) {
        Some((now, m, a)) => {
            lemma_open_kept_is_intact(config, before, now, m, a);
        },
        None => {},
    }
}

/// Opening a database deletes nothing, and creates nothing, if the activation of pruning was not
/// interrupted: if the prunable tapes that there are, are those that the seed keeps.
pub proof fn lemma_open_changes_nothing(db: BlockchainDatabase, storage: Storage)
    requires
        knows(db, storage),
        db.closed_below == PRUNABLE_TAPES,
        storage.appended.len() == 0,
    ensures
        opened(storage, db.pruning_seed) == storage,
{
    let after = opened(storage, db.pruning_seed);
    assert forall|index: int| after.prunable.contains_key(index)
        == storage.prunable.contains_key(index) by {
        if 0 <= index < PRUNABLE_TAPES {
            assert(db.tape_open(index) == keeps_tape(db.pruning_seed, index));
        }
    }
    assert(after.prunable =~= storage.prunable);
    assert(after.appended =~= storage.appended);
}

/// Wherever the opening waits, it goes on.
proof fn lemma_open_proceeds(
    config: Config,
    before: Storage,
    now: Storage,
    open: OpenDatabase,
    action: Action<BlockchainDatabase>,
)
    requires
        stored_seed(before) is Some,
        before.metadata.len() <= u64::MAX,
        open_kept(config, before, now, open, action),
    ensures
        proceeds(now, open, action),
{
    match open.stage {
        OpenStage::Seed => {
            assert forall|reply: Reply|
                now.answers(action->Perform_0, reply) && !(reply is Failed) implies (
            #[trigger] open.next(reply)) is Some by {}
        },
        _ => {},
    }
}

/// Opening a database succeeds if the seed that it stores is a valid one and no request fails: it
/// never gets stuck, and it does not end in an error.
pub proof fn lemma_open_database_succeeds(config: Config, before: Storage, replies: Seq<Reply>)
    requires
        stored_seed(before) is Some,
        before.metadata.len() <= u64::MAX,
        none_failed(replies),
    ensures
        run(
            before,
            OpenDatabase::started(config).0,
            OpenDatabase::started(config).1,
            replies,
        ) matches Some((now, open, action)) ==> {
            &&& proceeds(now, open, action)
            &&& action matches Action::Finished(result) ==> result is Ok
        },
{
    let kept = |now: Storage, open: OpenDatabase, action: Action<BlockchainDatabase>|
        open_kept(config, before, now, open, action) && (
        action matches Action::Finished(result) ==> result is Ok);
    let (operation, action) = OpenDatabase::started(config);
    assert forall|s: Storage, m: OpenDatabase, request: Request, reply: Reply|
        kept(s, m, Action::Perform(request)) && #[trigger] s.answers(request, reply) && (
        #[trigger] m.next(reply)) is Some && !(reply is Failed) implies kept(
        s.performed(request),
        (m.next(reply)->0).0,
        (m.next(reply)->0).1,
    ) by {
        lemma_open_step(config, before, s, m, request, reply);
    }
    lemma_reliable_run_keeps(kept, before, operation, action, replies);
    match run(before, operation, action, replies) {
        Some((now, m, a)) => {
            lemma_open_proceeds(config, before, now, m, a);
        },
        None => {},
    }
}

} // verus!
