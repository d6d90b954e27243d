//! What turning a node into a pruned one does to the storage, and what is left of it wherever
//! that is cut short.

use vstd::arithmetic::power2::lemma2_to64;
use vstd::prelude::*;

use crate::activation::{
    is_stripe, seed_for, DeleteUnnecessaryTapes, EnablePruning, PruneStage, Stripe,
};
use crate::laws::fill::{
    fill_kept, lemma_fill_kept_is_partial, lemma_fill_proceeds, lemma_fill_step,
    lemma_partly_filled, tip_entries, tip_filled, tip_partly_filled, tip_readable,
};
use crate::laws::model::{proceeds, Storage};
use crate::laws::opening::{knows, stored_seed};
use crate::laws::stripes::lemma_bytes_of_seed;
use crate::layout::{
    first_tape, keeps_tape, lemma_first_tape, options_of_tape, seed_bytes, Tape, PRUNABLE_TAPES,
};
use crate::opening::{lemma_seed_is_read_back, SEED_SIZE};
use crate::operation::{
    after, lemma_reliable_run_keeps, lemma_run_keeps, none_failed, run, Operation, StorageModel,
};
use crate::pruning::{DecompressedPruningSeed, PruningSeed};
use crate::request::{Action, Reply, Request};
use crate::state::BlockchainDatabase;

verus! {

/// A node that is pruned on a stripe keeps the tape of the stripe, which is one of the prunable
/// tapes, and no other.
pub proof fn lemma_one_tape_is_kept(stripe: u32, index: int)
    requires
        is_stripe(stripe),
    ensures
        0 <= stripe - 1 < PRUNABLE_TAPES,
        keeps_tape(seed_for(stripe), index) <==> index == stripe - 1,
{
}

/// The storage with `prunable_tip` filled and on disk.
pub open spec fn tip_persisted(storage: Storage) -> Storage {
    Storage {
        synced_tip_exists: true,
        synced_tip: tip_filled(storage).tip,
        ..tip_filled(storage)
    }
}

/// The storage with `prunable_tip` filled and on disk, the seed committed, and the prunable tapes
/// below an index deleted that the seed does not keep.
pub open spec fn pruned_below(storage: Storage, seed: PruningSeed, below: int) -> Storage {
    Storage {
        metadata: storage.metadata + seed_bytes(seed),
        appended: Seq::empty(),
        prunable: storage.prunable.remove_keys(
            Set::new(|index: int| 0 <= index < below && !keeps_tape(seed, index)),
        ),
        ..tip_persisted(storage)
    }
}

/// The storage of the node once it is pruned.
pub open spec fn pruned(storage: Storage, seed: PruningSeed) -> Storage {
    pruned_below(storage, seed, PRUNABLE_TAPES as int)
}

/// The database once the seed is committed and the prunable tapes below an index are closed that
/// the seed does not keep.
pub open spec fn db_pruned_below(
    db: BlockchainDatabase,
    seed: PruningSeed,
    below: usize,
) -> BlockchainDatabase {
    BlockchainDatabase { closed_below: below, ..EnablePruning::pruned(db, seed) }
}

/// No seed was committed and no tape was deleted. `prunable_tip` may be filled in part.
pub open spec fn not_pruned_yet(before: Storage, now: Storage) -> bool {
    &&& now == Storage {
        appended: now.appended,
        tip_exists: now.tip_exists,
        tip: now.tip,
        tip_batch: now.tip_batch,
        synced_tip_exists: now.synced_tip_exists,
        synced_tip: now.synced_tip,
        batch: now.batch,
        staged: now.staged,
        ..before
    }
    &&& before.tip_exists ==> now.tip_exists
    &&& tip_partly_filled(before, now.tip)
}

/// What has to hold of the storage at every moment of the activation.
///
/// While no seed is committed, every prunable tape is as it was. Once one is committed, it is
/// that of the stripe, the tape of the stripe is as it was, and what the other tapes had of the
/// last blocks of the chain would survive a crash. The rest of what the node stores is as it was
/// throughout.
pub open spec fn recoverable(before: Storage, now: Storage, stripe: u32) -> bool {
    &&& now == Storage {
        prunable: now.prunable,
        metadata: now.metadata,
        appended: now.appended,
        tip_exists: now.tip_exists,
        tip: now.tip,
        tip_batch: now.tip_batch,
        synced_tip_exists: now.synced_tip_exists,
        synced_tip: now.synced_tip,
        batch: now.batch,
        staged: now.staged,
        ..before
    }
    &&& tip_partly_filled(before, now.tip)
    &&& if now.metadata.len() == 0 {
        now.prunable == before.prunable
    } else {
        &&& stored_seed(now) == Some(seed_for(stripe))
        &&& now.prunable.submap_of(before.prunable)
        &&& now.prunable.contains_key(stripe - 1)
        &&& now.tip_exists
        &&& now.synced_tip_exists
        &&& tip_entries(before).submap_of(now.tip)
        &&& tip_entries(before).submap_of(now.synced_tip)
    }
}

/// What holds of a storage, and of the activation of pruning, wherever the activation waits and
/// where it ends.
pub open spec fn prune_kept(
    db: BlockchainDatabase,
    stripe: Stripe,
    before: Storage,
    now: Storage,
    prune: EnablePruning,
    action: Action<()>,
) -> bool {
    let seed = seed_for(stripe.number());
    &&& prune.stripe == stripe
    &&& prune.seed == seed
    &&& match prune.stage {
        PruneStage::Fill(fill) => {
            &&& prune.db == db
            &&& action is Perform
            &&& fill_kept(before, now, fill, action)
        },
        PruneStage::Persist => {
            &&& prune.db == db
            &&& now == tip_filled(before)
            &&& action == Action::<()>::Perform(Request::PersistKeyspaces)
        },
        PruneStage::Begin => {
            &&& prune.db == db
            &&& now == tip_persisted(before)
            &&& action == Action::<()>::Perform(Request::BeginAppend)
        },
        PruneStage::Append => {
            &&& prune.db == db
            &&& now == Storage { appended: Seq::empty(), ..tip_persisted(before) }
            &&& action == Action::<()>::Perform(Request::AppendSeed { seed })
        },
        PruneStage::Commit => {
            &&& prune.db == db
            &&& now == Storage { appended: seed_bytes(seed), ..tip_persisted(before) }
            &&& action == Action::<()>::Perform(Request::CommitTapes)
        },
        PruneStage::Delete(delete) => {
            &&& prune.db == delete.db
            &&& delete_kept(db, seed, before, now, delete, action)
            &&& action is Perform
        },
        PruneStage::Over => match action {
            Action::Finished(Ok(())) => {
                &&& prune.db == db_pruned_below(db, seed, PRUNABLE_TAPES)
                &&& now == pruned(before, seed)
            },
            Action::Finished(Err(_)) => {
                ||| prune.db == db && not_pruned_yet(before, now)
                ||| {
                    &&& prune.db == db_pruned_below(db, seed, prune.db.closed_below)
                    &&& prune.db.closed_below <= PRUNABLE_TAPES
                    &&& now == pruned_below(before, seed, prune.db.closed_below as int)
                }
            },
            Action::Perform(_) => false,
        },
    }
}

/// What holds of a storage, and of the deletion of its tapes, wherever the deletion waits and
/// where it ends.
pub open spec fn delete_kept(
    db: BlockchainDatabase,
    seed: PruningSeed,
    before: Storage,
    now: Storage,
    delete: DeleteUnnecessaryTapes,
    action: Action<()>,
) -> bool {
    let below = delete.db.closed_below;
    &&& below <= PRUNABLE_TAPES
    &&& delete.db == db_pruned_below(db, seed, below)
    &&& now == pruned_below(before, seed, below as int)
    &&& match delete.deleting {
        Some(index) => {
            &&& index == first_tape(seed, false, below as int)
            &&& index < PRUNABLE_TAPES
            &&& action == Action::<()>::Perform(
                Request::DeleteTape {
                    tape: Tape::Prunable(index),
                    options: options_of_tape(Tape::Prunable(index), db.config.cache_sizes),
                },
            )
        },
        None => match action {
            Action::Finished(Ok(())) => below == PRUNABLE_TAPES,
            Action::Finished(Err(_)) => true,
            Action::Perform(_) => false,
        },
    }
}

/// Going on with the deletion keeps what holds of it.
proof fn lemma_delete_from(
    db: BlockchainDatabase,
    seed: PruningSeed,
    before: Storage,
    now: Storage,
    from: usize,
)
    requires
        from <= PRUNABLE_TAPES,
        now == pruned_below(before, seed, from as int),
    ensures
        ({
            let (delete, action) = DeleteUnnecessaryTapes::deleting_from(
                EnablePruning::pruned(db, seed),
                from as int,
            );
            delete_kept(db, seed, before, now, delete, action)
        }),
{
    let index = first_tape(seed, false, from as int);
    lemma_first_tape(seed, false, from as int);
    if index == PRUNABLE_TAPES {
        assert(pruned_below(before, seed, from as int).prunable =~= pruned(before, seed).prunable);
    }
}

/// Every reply keeps what holds of the deletion.
proof fn lemma_delete_step(
    db: BlockchainDatabase,
    seed: PruningSeed,
    before: Storage,
    now: Storage,
    delete: DeleteUnnecessaryTapes,
    request: Request,
    reply: Reply,
)
    requires
        delete_kept(db, seed, before, now, delete, Action::Perform(request)),
        now.answers(request, reply),
        delete.next(reply) is Some,
    ensures
        delete_kept(
            db,
            seed,
            before,
            after(now, request, reply),
            (delete.next(reply)->0).0,
            (delete.next(reply)->0).1,
        ),
{
    if !(reply is Failed) {
        match delete.deleting {
            Some(index) => {
                let below = delete.db.closed_below as int;
                let then = after(now, request, reply);
                lemma_first_tape(seed, false, below);
                assert(then.prunable =~= pruned_below(before, seed, index + 1).prunable);
                assert(then =~= pruned_below(before, seed, index + 1));
                lemma_delete_from(db, seed, before, then, (index + 1) as usize);
                assert(DeleteUnnecessaryTapes::deleting_from(delete.db, index + 1)
                    == DeleteUnnecessaryTapes::deleting_from(
                    EnablePruning::pruned(db, seed),
                    index + 1,
                ));
            },
            None => {},
        }
    }
}

/// The storage without the prunable tapes below an index that the seed does not keep.
pub open spec fn tapes_deleted(storage: Storage, seed: PruningSeed, below: int) -> Storage {
    Storage {
        prunable: storage.prunable.remove_keys(
            Set::new(|index: int| 0 <= index < below && !keeps_tape(seed, index)),
        ),
        ..storage
    }
}

/// The deletion is over with the tapes below an index. A tape is closed now if it was closed
/// before or is deleted, and the rest of the database is as it was.
pub open spec fn deleted_to(
    db: BlockchainDatabase,
    before: Storage,
    now_db: BlockchainDatabase,
    now: Storage,
    below: int,
) -> bool {
    &&& 0 <= below <= PRUNABLE_TAPES
    &&& now == tapes_deleted(before, db.pruning_seed, below)
    &&& now_db == BlockchainDatabase { closed_below: now_db.closed_below, ..db }
    &&& now_db.wf()
    &&& forall|index: int|
        0 <= index < PRUNABLE_TAPES ==> (#[trigger] now_db.tape_open(index) <==> db.tape_open(index)
            && (index >= below || keeps_tape(db.pruning_seed, index)))
}

/// What holds of a storage, and of the deletion of its tapes, wherever the deletion waits and
/// where it ends.
spec fn deletion_kept(
    db: BlockchainDatabase,
    before: Storage,
    now: Storage,
    delete: DeleteUnnecessaryTapes,
    action: Action<()>,
) -> bool {
    match delete.deleting {
        Some(index) => {
            &&& index < PRUNABLE_TAPES
            &&& !keeps_tape(db.pruning_seed, index as int)
            &&& deleted_to(db, before, delete.db, now, index as int)
            &&& delete.db.closed_below <= index || delete.db.closed_below == db.closed_below
            &&& delete.db.closed_below >= db.closed_below
            &&& action == Action::<()>::Perform(
                Request::DeleteTape {
                    tape: Tape::Prunable(index),
                    options: options_of_tape(Tape::Prunable(index), db.config.cache_sizes),
                },
            )
        },
        None => match action {
            Action::Finished(Ok(())) => {
                &&& deleted_to(db, before, delete.db, now, PRUNABLE_TAPES as int)
                &&& delete.db.closed_below == PRUNABLE_TAPES
            },
            Action::Finished(Err(_)) => exists|below: int|
                deleted_to(db, before, delete.db, now, below),
            Action::Perform(_) => false,
        },
    }
}

/// Going on with the deletion keeps what holds of it.
proof fn lemma_deleting_from(
    db: BlockchainDatabase,
    before: Storage,
    now: Storage,
    delete_db: BlockchainDatabase,
    from: int,
)
    requires
        db.wf(),
        0 <= from <= PRUNABLE_TAPES,
        delete_db == (BlockchainDatabase { closed_below: delete_db.closed_below, ..db }),
        db.closed_below <= delete_db.closed_below,
        delete_db.closed_below <= from || delete_db.closed_below == db.closed_below,
        now == tapes_deleted(before, db.pruning_seed, from),
    ensures
        ({
            let (delete, action) = DeleteUnnecessaryTapes::deleting_from(delete_db, from);
            deletion_kept(db, before, now, delete, action)
        }),
{
    let seed = db.pruning_seed;
    let index = first_tape(seed, false, from);
    lemma_first_tape(seed, false, from);
    assert(tapes_deleted(before, seed, from).prunable =~= tapes_deleted(
        before,
        seed,
        index,
    ).prunable);
    let (delete, action) = DeleteUnnecessaryTapes::deleting_from(delete_db, from);
    assert(deleted_to(db, before, delete.db, now, index));
}

/// Deleting the tapes that the seed does not keep closes a tape only once it is deleted, and opens
/// none, so what the database knows of itself stays true wherever the deletion is cut short or
/// fails. The other tapes, and the rest of what is stored, are as they were.
pub proof fn lemma_delete_unnecessary_tapes(
    db: BlockchainDatabase,
    before: Storage,
    replies: Seq<Reply>,
)
    requires
        db.wf(),
    ensures
        run(
            before,
            DeleteUnnecessaryTapes::deleting_from(db, 0).0,
            DeleteUnnecessaryTapes::deleting_from(db, 0).1,
            replies,
        ) matches Some((now, delete, action)) ==> {
            &&& exists|below: int| deleted_to(db, before, delete.db, now, below)
            &&& knows(db, before) ==> knows(delete.db, now)
            &&& action matches Action::Finished(Ok(_)) ==> {
                &&& now == tapes_deleted(before, db.pruning_seed, PRUNABLE_TAPES as int)
                &&& delete.db == BlockchainDatabase { closed_below: PRUNABLE_TAPES, ..db }
            }
        },
{
    let kept = |now: Storage, delete: DeleteUnnecessaryTapes, action: Action<()>|
        deletion_kept(db, before, now, delete, action);
    let (delete, action) = DeleteUnnecessaryTapes::deleting_from(db, 0);
    assert(tapes_deleted(before, db.pruning_seed, 0).prunable =~= before.prunable);
    lemma_deleting_from(db, before, before, db, 0);
    assert forall|s: Storage, m: DeleteUnnecessaryTapes, request: Request, reply: Reply|
        kept(s, m, Action::Perform(request)) && #[trigger] s.answers(request, reply) && (
        #[trigger] m.next(reply)) is Some implies kept(
        after(s, request, reply),
        (m.next(reply)->0).0,
        (m.next(reply)->0).1,
    ) by {
        let index = m.deleting->0;
        let then = after(s, request, reply);
        if !(reply is Failed) {
            assert(then.prunable =~= tapes_deleted(before, db.pruning_seed, index + 1).prunable);
            lemma_deleting_from(db, before, then, m.db, index + 1);
        }
    }
    lemma_run_keeps(kept, before, delete, action, replies);
    match run(before, delete, action, replies) {
        Some((now, m, a)) => {
            let below = choose|below: int| deleted_to(db, before, m.db, now, below);
            assert(deleted_to(db, before, m.db, now, below));
            if knows(db, before) {
                assert forall|index: int| 0 <= index < PRUNABLE_TAPES implies (m.db.tape_open(index)
                    <==> #[trigger] now.prunable.contains_key(index)) by {
                    assert(m.db.tape_open(index) <==> db.tape_open(index) && (index >= below
                        || keeps_tape(db.pruning_seed, index)));
                    assert(before.prunable.contains_key(index) == db.tape_open(index));
                }
            }
        },
        None => {},
    }
}

/// Every reply keeps what holds of the activation.
pub(crate) proof fn lemma_prune_step(
    db: BlockchainDatabase,
    stripe: Stripe,
    before: Storage,
    now: Storage,
    prune: EnablePruning,
    request: Request,
    reply: Reply,
)
    requires
        prune_kept(db, stripe, before, now, prune, Action::Perform(request)),
        now.answers(request, reply),
        prune.next(reply) is Some,
    ensures
        prune_kept(
            db,
            stripe,
            before,
            after(now, request, reply),
            (prune.next(reply)->0).0,
            (prune.next(reply)->0).1,
        ),
{
    let seed = seed_for(stripe.number());
    let then = after(now, request, reply);
    lemma_partly_filled(before);
    match prune.stage {
        PruneStage::Fill(fill) => {
            lemma_fill_step(before, now, fill, request, reply);
            let (fill2, action2) = fill.next(reply)->0;
            lemma_fill_kept_is_partial(before, then, fill2, action2);
            assert(not_pruned_yet(before, then));
        },
        PruneStage::Persist => {
            if reply is Failed {
                assert(not_pruned_yet(before, then));
            }
        },
        PruneStage::Begin => {
            if reply is Failed {
                assert(not_pruned_yet(before, then));
            }
        },
        PruneStage::Append => {
            if reply is Failed {
                assert(not_pruned_yet(before, then));
            } else {
                assert(Seq::<u8>::empty() + seed_bytes(seed) =~= seed_bytes(seed));
            }
        },
        PruneStage::Commit => {
            if reply is Failed {
                assert(not_pruned_yet(before, then));
            } else {
                assert(then.prunable =~= pruned_below(before, seed, 0).prunable);
                assert(then =~= pruned_below(before, seed, 0));
                lemma_delete_from(db, seed, before, then, 0);
            }
        },
        PruneStage::Delete(delete) => {
            lemma_delete_step(db, seed, before, now, delete, request, reply);
        },
        PruneStage::Over => {},
    }
}

/// `recoverable` and `knows` hold wherever what holds of the activation does.
pub(crate) proof fn lemma_prune_kept_is_recoverable(
    db: BlockchainDatabase,
    stripe: Stripe,
    before: Storage,
    now: Storage,
    prune: EnablePruning,
    action: Action<()>,
)
    requires
        is_stripe(stripe.number()),
        knows(db, before),
        db.pruning_seed == PruningSeed::NotPruned,
        before.metadata.len() == 0,
        prune_kept(db, stripe, before, now, prune, action),
    ensures
        recoverable(before, now, stripe.number()),
        knows(prune.db, now),
{
    let seed = seed_for(stripe.number());
    lemma_partly_filled(before);
    lemma_seed_is_read_back(seed);
    assert(before.metadata + seed_bytes(seed) =~= seed_bytes(seed));
    assert(seed_bytes(seed).subrange(0, SEED_SIZE as int) =~= seed_bytes(seed));
    assert(before.prunable.contains_key(stripe.number() - 1));
    match prune.stage {
        PruneStage::Fill(fill) => {
            lemma_fill_kept_is_partial(before, now, fill, action);
        },
        _ => {},
    }
}

/// Turning a node into a pruned one is safe to cut short anywhere, and does what it should if it
/// is not.
///
/// At every moment the storage is [`recoverable`]: while no seed is committed, every prunable tape
/// is intact, and afterwards `prunable_tip` is on disk with all that the tapes had of the last
/// blocks of the chain. What the database knows of itself is what is stored. If the activation
/// succeeds, the seed is that of the stripe, and of the prunable tapes only that of the stripe is
/// left.
pub proof fn lemma_enable_pruning(
    db: BlockchainDatabase,
    stripe: Stripe,
    before: Storage,
    replies: Seq<Reply>,
)
    requires
        is_stripe(stripe.number()),
        knows(db, before),
        db.pruning_seed == PruningSeed::NotPruned,
        before.metadata.len() == 0,
    ensures
        run(
            before,
            EnablePruning::started(db, stripe).0,
            EnablePruning::started(db, stripe).1,
            replies,
        ) matches Some((now, prune, action)) ==> {
            &&& recoverable(before, now, stripe.number())
            &&& knows(prune.db, now)
            &&& action matches Action::Finished(Ok(_)) ==> {
                &&& now == pruned(before, seed_for(stripe.number()))
                &&& prune.db == db_pruned_below(db, seed_for(stripe.number()), PRUNABLE_TAPES)
            }
        },
{
    let kept = |now: Storage, prune: EnablePruning, action: Action<()>|
        prune_kept(db, stripe, before, now, prune, action);
    let (prune, action) = EnablePruning::started(db, stripe);
    assert forall|s: Storage, m: EnablePruning, request: Request, reply: Reply|
        kept(s, m, Action::Perform(request)) && #[trigger] s.answers(request, reply) && (
        #[trigger] m.next(reply)) is Some implies kept(
        after(s, request, reply),
        (m.next(reply)->0).0,
        (m.next(reply)->0).1,
    ) by {
        lemma_prune_step(db, stripe, before, s, m, request, reply);
    }
    lemma_run_keeps(kept, before, prune, action, replies);
    match run(before, prune, action, replies) {
        Some((now, m, a)) => {
            lemma_prune_kept_is_recoverable(db, stripe, before, now, m, a);
        },
        None => {},
    }
}

/// What a node is once it was pruned on a stripe, in numbers. Its seed is the stripe out of eight,
/// committed as the number 384 for the first stripe, 385 for the second, and so on up to 391, in
/// four bytes of which the least significant is the first. Of its eight prunable tapes it has that
/// of the stripe and no other. What `prunable_tip` holds is on disk.
///
/// No seed but this one is ever appended.
pub proof fn lemma_pruned_node_in_numbers(
    db: BlockchainDatabase,
    stripe: Stripe,
    before: Storage,
    replies: Seq<Reply>,
)
    requires
        1 <= stripe.number() <= 8,
    ensures
        run(
            before,
            EnablePruning::started(db, stripe).0,
            EnablePruning::started(db, stripe).1,
            replies,
        ) matches Some((now, prune, action)) ==> {
            let seed = PruningSeed::Pruned(
                DecompressedPruningSeed { log_stripes: 3, stripe: stripe.number() },
            );
            let number = 384 + (stripe.number() - 1);
            let committed = seq![(number - 256) as u8, 1u8, 0u8, 0u8];
            &&& prune.seed == seed
            &&& prune.stripe == stripe
            &&& action matches Action::Perform(Request::AppendSeed { seed: appended }) ==> appended
                == seed
            &&& now.metadata == before.metadata || now.metadata == before.metadata + committed
            &&& action matches Action::Finished(Ok(_)) ==> {
                &&& now.metadata == before.metadata + committed
                &&& prune.db.config == db.config
                &&& prune.db.pruning_seed == seed
                &&& prune.db.prunable_tip
                &&& prune.db.closed_below == 8
                &&& forall|index: int|
                    0 <= index < 8 ==> (#[trigger] now.prunable.contains_key(index)
                        <==> before.prunable.contains_key(index) && index == stripe.number() - 1)
                &&& before.prunable.contains_key(stripe.number() - 1)
                    ==> now.prunable[stripe.number() - 1] == before.prunable[stripe.number() - 1]
                &&& now.tip_exists
                &&& now.synced_tip_exists
                &&& now.synced_tip == now.tip
            }
        },
{
    let kept = |now: Storage, prune: EnablePruning, action: Action<()>|
        prune_kept(db, stripe, before, now, prune, action);
    let (prune, action) = EnablePruning::started(db, stripe);
    assert forall|s: Storage, m: EnablePruning, request: Request, reply: Reply|
        kept(s, m, Action::Perform(request)) && #[trigger] s.answers(request, reply) && (
        #[trigger] m.next(reply)) is Some implies kept(
        after(s, request, reply),
        (m.next(reply)->0).0,
        (m.next(reply)->0).1,
    ) by {
        lemma_prune_step(db, stripe, before, s, m, request, reply);
    }
    lemma_run_keeps(kept, before, prune, action, replies);
    lemma2_to64();
    lemma_bytes_of_seed(3, stripe.number());
    match run(before, prune, action, replies) {
        Some((now, m, a)) => {
            match m.stage {
                PruneStage::Fill(fill) => {
                    lemma_fill_kept_is_partial(before, now, fill, a);
                },
                _ => {},
            }
        },
        None => {},
    }
}

/// Wherever the activation waits, it goes on.
pub(crate) proof fn lemma_prune_proceeds(
    db: BlockchainDatabase,
    stripe: Stripe,
    before: Storage,
    now: Storage,
    prune: EnablePruning,
    action: Action<()>,
)
    requires
        tip_readable(before),
        prune_kept(db, stripe, before, now, prune, action),
    ensures
        proceeds(now, prune, action),
{
    match prune.stage {
        PruneStage::Fill(fill) => {
            lemma_fill_proceeds(before, now, fill, action);
            assert forall|reply: Reply|
                now.answers(action->Perform_0, reply) && !(reply is Failed) implies (
            #[trigger] prune.next(reply)) is Some by {
                assert(fill.next(reply) is Some);
            }
        },
        _ => {},
    }
}

/// Turning a node into a pruned one succeeds if the tapes have what `prunable_tip` should be
/// filled with and no request fails: it never gets stuck, and it does not end in an error.
pub proof fn lemma_enable_pruning_succeeds(
    db: BlockchainDatabase,
    stripe: Stripe,
    before: Storage,
    replies: Seq<Reply>,
)
    requires
        tip_readable(before),
        none_failed(replies),
    ensures
        run(
            before,
            EnablePruning::started(db, stripe).0,
            EnablePruning::started(db, stripe).1,
            replies,
        ) matches Some((now, prune, action)) ==> {
            &&& proceeds(now, prune, action)
            &&& action matches Action::Finished(result) ==> result is Ok
        },
{
    let kept = |now: Storage, prune: EnablePruning, action: Action<()>|
        prune_kept(db, stripe, before, now, prune, action) && (
        action matches Action::Finished(result) ==> result is Ok);
    let (operation, action) = EnablePruning::started(db, stripe);
    assert forall|s: Storage, m: EnablePruning, request: Request, reply: Reply|
        kept(s, m, Action::Perform(request)) && #[trigger] s.answers(request, reply) && (
        #[trigger] m.next(reply)) is Some && !(reply is Failed) implies kept(
        s.performed(request),
        (m.next(reply)->0).0,
        (m.next(reply)->0).1,
    ) by {
        lemma_prune_step(db, stripe, before, s, m, request, reply);
    }
    lemma_reliable_run_keeps(kept, before, operation, action, replies);
    match run(before, operation, action, replies) {
        Some((now, m, a)) => {
            lemma_prune_proceeds(db, stripe, before, now, m, a);
        },
        None => {},
    }
}

} // verus!
