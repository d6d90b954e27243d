//! What bringing a database into the state that it should be in does to the storage.

use vstd::arithmetic::power2::lemma2_to64;
use vstd::prelude::*;

use crate::activation::{is_stripe, seed_for, EnablePruning, Stripe};
use crate::consistency::{ConsistencyStage, MakeConsistent};
use crate::laws::activation::{
    db_pruned_below, lemma_prune_kept_is_recoverable, lemma_prune_proceeds, lemma_prune_step,
    prune_kept, pruned, recoverable,
};
use crate::laws::fill::{blob_readable, tip_readable};
use crate::laws::model::{proceeds, Storage};
use crate::laws::opening::knows;
use crate::laws::rebuild::{
    lemma_rebuild_framed, lemma_rebuild_framed_at_start, lemma_rebuild_framed_step,
    lemma_rebuild_proceeds, lemma_rebuild_step, lemma_rebuilt_is_in_sync, only_rebuilding,
    rebuild_framed, rebuild_kept, rebuilt, sound,
};
use crate::laws::replay::chain_readable;
use crate::laws::stripes::lemma_bytes_of_seed;
use crate::laws::tips::{lemma_tips_proceeds, lemma_tips_step, tips_kept};
use crate::layout::PRUNABLE_TAPES;
use crate::operation::{
    after, lemma_reliable_run_keeps, lemma_run_keeps, none_failed, run, Operation, StorageModel,
};
use crate::outside::{lemma_every_number_can_be_drawn, Drawn};
use crate::pruning::{DecompressedPruningSeed, PruningSeed};
use crate::request::{Action, BlockchainError, Reply, Request};
use crate::state::BlockchainDatabase;

verus! {

/// The storage with the keyspaces built anew if they are not at the same main-chain tip as the
/// tapes.
pub open spec fn settled(storage: Storage) -> Storage {
    if storage.in_sync() {
        storage
    } else {
        rebuilt(storage)
    }
}

/// The configuration asks for a pruned node, and the node is not one.
pub open spec fn is_to_be_pruned(db: BlockchainDatabase) -> bool {
    db.config.prune && db.pruning_seed == PruningSeed::NotPruned
}

/// The node is pruned, but has no `prunable_tip`.
pub open spec fn lacks_tip(db: BlockchainDatabase) -> bool {
    db.pruning_seed != PruningSeed::NotPruned && !db.prunable_tip
}

/// What the storage should be in the end.
pub open spec fn made_consistent(
    db: BlockchainDatabase,
    stripe: Stripe,
    storage: Storage,
) -> Storage {
    if is_to_be_pruned(db) {
        pruned(settled(storage), seed_for(stripe.number()))
    } else {
        settled(storage)
    }
}

/// What the database should be in the end.
pub open spec fn db_made_consistent(db: BlockchainDatabase, stripe: Stripe) -> BlockchainDatabase {
    if is_to_be_pruned(db) {
        db_pruned_below(db, seed_for(stripe.number()), PRUNABLE_TAPES)
    } else {
        db
    }
}

/// The database is what it was, or it was to be pruned, and its seed is committed.
pub open spec fn db_intact(
    db: BlockchainDatabase,
    stripe: Stripe,
    now: BlockchainDatabase,
) -> bool {
    ||| now == db
    ||| is_to_be_pruned(db) && now == db_pruned_below(
        db,
        seed_for(stripe.number()),
        now.closed_below,
    )
}

/// What is lost at no moment: either nothing was done to the tapes and to `prunable_tip`, or the
/// activation of pruning is under way, on keyspaces that may have been built anew, and the storage
/// is recoverable.
pub open spec fn nothing_lost(
    db: BlockchainDatabase,
    stripe: Stripe,
    before: Storage,
    now: Storage,
) -> bool {
    ||| only_rebuilding(before, now)
    ||| {
        &&& is_to_be_pruned(db)
        &&& exists|mid: Storage|
            only_rebuilding(before, mid) && #[trigger] recoverable(mid, now, stripe.number())
    }
}

/// What holds of a storage, and of the operation, wherever the operation waits and where it ends.
pub open spec fn consistency_kept(
    db: BlockchainDatabase,
    stripe: Stripe,
    before: Storage,
    now: Storage,
    operation: MakeConsistent,
    action: Action<()>,
) -> bool {
    &&& operation.stripe == stripe
    &&& match operation.stage {
        ConsistencyStage::Snapshots => {
            &&& operation.db == db
            &&& now == before
            &&& action == Action::<()>::Perform(Request::TakeSnapshots)
        },
        ConsistencyStage::Tips(tips) => {
            &&& operation.db == db
            &&& now == before
            &&& action matches Action::Perform(request)
            &&& tips_kept(before, tips, Action::Perform(request))
        },
        ConsistencyStage::Rebuild(rebuild) => {
            &&& operation.db == rebuild.db
            &&& !before.in_sync()
            &&& action is Perform
            &&& rebuild_kept(db, before, now, rebuild, action)
        },
        ConsistencyStage::Prune(prune) => {
            &&& operation.db == prune.db
            &&& is_to_be_pruned(db)
            &&& action is Perform
            &&& prune_kept(db, stripe, settled(before), now, prune, action)
        },
        ConsistencyStage::Over => match action {
            Action::Finished(Ok(())) => {
                &&& operation.db == db_made_consistent(db, stripe)
                &&& now == made_consistent(db, stripe, before)
                &&& !lacks_tip(db)
            },
            Action::Finished(Err(error)) => {
                ||| {
                    &&& error == BlockchainError::MissingPrunableTip
                    &&& lacks_tip(db)
                    &&& operation.db == db
                    &&& now == settled(before)
                }
                ||| error == BlockchainError::Storage
            },
            Action::Perform(_) => false,
        },
    }
}

/// Going on once the keyspaces are at the tip of the tapes keeps what holds of the operation.
proof fn lemma_in_sync(db: BlockchainDatabase, stripe: Stripe, before: Storage)
    ensures
        ({
            let (operation, action) = MakeConsistent::in_sync(db, stripe);
            consistency_kept(db, stripe, before, settled(before), operation, action)
        }),
{
}

/// Building the keyspaces anew has no bearing on what the database knows of itself.
proof fn lemma_rebuilding_keeps_knowledge(
    db: BlockchainDatabase,
    before: Storage,
    now: Storage,
    prunable_tip: bool,
)
    requires
        knows(db, before),
        only_rebuilding(before, now),
        prunable_tip ==> db.prunable_tip,
    ensures
        knows(BlockchainDatabase { prunable_tip, ..db }, now),
{
    let db2 = BlockchainDatabase { prunable_tip, ..db };
    assert forall|index: int| 0 <= index < PRUNABLE_TAPES implies (db2.tape_open(index)
        <==> #[trigger] now.prunable.contains_key(index)) by {
        assert(db.tape_open(index) == db2.tape_open(index));
        assert(before.prunable.contains_key(index) == now.prunable.contains_key(index));
    }
}

/// Every reply keeps what holds of the operation.
proof fn lemma_consistency_step(
    db: BlockchainDatabase,
    stripe: Stripe,
    before: Storage,
    now: Storage,
    operation: MakeConsistent,
    request: Request,
    reply: Reply,
)
    requires
        sound(before),
        consistency_kept(db, stripe, before, now, operation, Action::Perform(request)),
        now.answers(request, reply),
        operation.next(reply) is Some,
    ensures
        consistency_kept(
            db,
            stripe,
            before,
            after(now, request, reply),
            (operation.next(reply)->0).0,
            (operation.next(reply)->0).1,
        ),
{
    lemma_in_sync(db, stripe, before);
    match operation.stage {
        ConsistencyStage::Tips(tips) => {
            lemma_tips_step(before, tips, request, reply);
        },
        ConsistencyStage::Rebuild(rebuild) => {
            lemma_rebuild_step(db, before, now, rebuild, request, reply);
        },
        ConsistencyStage::Prune(prune) => {
            lemma_prune_step(db, stripe, settled(before), now, prune, request, reply);
        },
        _ => {},
    }
}

/// The activation of pruning is under way on what may be left of a storage whose keyspaces were
/// built anew.
spec fn pruning_after(
    db: BlockchainDatabase,
    stripe: Stripe,
    before: Storage,
    mid: Storage,
    now: Storage,
    prune: EnablePruning,
    action: Action<()>,
) -> bool {
    &&& only_rebuilding(before, mid)
    &&& prune_kept(db, stripe, mid, now, prune, action)
}

/// What holds of any storage, and of the operation, wherever the operation waits and where it
/// ends.
spec fn consistency_framed(
    db: BlockchainDatabase,
    stripe: Stripe,
    before: Storage,
    now: Storage,
    operation: MakeConsistent,
    action: Action<()>,
) -> bool {
    &&& operation.stripe == stripe
    &&& match operation.stage {
        ConsistencyStage::Snapshots => {
            &&& operation.db == db
            &&& now == before
            &&& action == Action::<()>::Perform(Request::TakeSnapshots)
        },
        ConsistencyStage::Tips(tips) => {
            &&& operation.db == db
            &&& now == before
            &&& action matches Action::Perform(request)
            &&& tips_kept(before, tips, Action::Perform(request))
        },
        ConsistencyStage::Rebuild(rebuild) => {
            &&& operation.db == rebuild.db
            &&& action is Perform
            &&& rebuild_framed(db, before, now, rebuild, action)
        },
        ConsistencyStage::Prune(prune) => {
            &&& operation.db == prune.db
            &&& is_to_be_pruned(db)
            &&& action is Perform
            &&& exists|mid: Storage| pruning_after(db, stripe, before, mid, now, prune, action)
        },
        ConsistencyStage::Over => {
            &&& action is Finished
            &&& {
                ||| {
                    &&& operation.db == db
                    &&& only_rebuilding(before, now)
                    &&& is_to_be_pruned(db) ==> action->Finished_0 is Err
                }
                ||| {
                    &&& is_to_be_pruned(db)
                    &&& exists|mid: Storage, prune: EnablePruning|
                        prune.db == operation.db && #[trigger] pruning_after(
                            db,
                            stripe,
                            before,
                            mid,
                            now,
                            prune,
                            action,
                        )
                }
            }
        },
    }
}

/// Going on once the keyspaces are at the tip of the tapes keeps what holds of any storage.
proof fn lemma_in_sync_framed(
    db: BlockchainDatabase,
    stripe: Stripe,
    before: Storage,
    now: Storage,
)
    requires
        only_rebuilding(before, now),
    ensures
        ({
            let (operation, action) = MakeConsistent::in_sync(db, stripe);
            consistency_framed(db, stripe, before, now, operation, action)
        }),
{
    let (prune, action) = EnablePruning::started(db, stripe);
    assert(pruning_after(db, stripe, before, now, now, prune, action));
}

/// Every reply keeps what holds of any storage.
proof fn lemma_consistency_framed_step(
    db: BlockchainDatabase,
    stripe: Stripe,
    before: Storage,
    now: Storage,
    operation: MakeConsistent,
    request: Request,
    reply: Reply,
)
    requires
        consistency_framed(db, stripe, before, now, operation, Action::Perform(request)),
        now.answers(request, reply),
        operation.next(reply) is Some,
    ensures
        consistency_framed(
            db,
            stripe,
            before,
            after(now, request, reply),
            (operation.next(reply)->0).0,
            (operation.next(reply)->0).1,
        ),
{
    let then = after(now, request, reply);
    match operation.stage {
        ConsistencyStage::Tips(tips) => {
            lemma_tips_step(before, tips, request, reply);
            lemma_in_sync_framed(db, stripe, before, then);
            lemma_rebuild_framed_at_start(db, before, then);
        },
        ConsistencyStage::Rebuild(rebuild) => {
            lemma_rebuild_framed_step(db, before, now, rebuild, request, reply);
            let (rebuild2, action2) = rebuild.next(reply)->0;
            lemma_rebuild_framed(db, before, then, rebuild2, action2);
            lemma_in_sync_framed(db, stripe, before, then);
        },
        ConsistencyStage::Prune(prune) => {
            let mid = choose|mid: Storage|
                pruning_after(db, stripe, before, mid, now, prune, Action::Perform(request));
            lemma_prune_step(db, stripe, mid, now, prune, request, reply);
            let (prune2, action2) = prune.next(reply)->0;
            assert(pruning_after(db, stripe, before, mid, then, prune2, action2));
        },
        _ => {},
    }
}

/// What holds of any storage holds wherever a run gets to.
proof fn lemma_consistency_framed(
    db: BlockchainDatabase,
    stripe: Stripe,
    before: Storage,
    replies: Seq<Reply>,
)
    ensures
        run(
            before,
            MakeConsistent::started(db, stripe).0,
            MakeConsistent::started(db, stripe).1,
            replies,
        ) matches Some((now, operation, action)) ==> consistency_framed(
            db,
            stripe,
            before,
            now,
            operation,
            action,
        ),
{
    let kept = |now: Storage, operation: MakeConsistent, action: Action<()>|
        consistency_framed(db, stripe, before, now, operation, action);
    let (operation, action) = MakeConsistent::started(db, stripe);
    assert forall|s: Storage, m: MakeConsistent, request: Request, reply: Reply|
        kept(s, m, Action::Perform(request)) && #[trigger] s.answers(request, reply) && (
        #[trigger] m.next(reply)) is Some implies kept(
        after(s, request, reply),
        (m.next(reply)->0).0,
        (m.next(reply)->0).1,
    ) by {
        lemma_consistency_framed_step(db, stripe, before, s, m, request, reply);
    }
    lemma_run_keeps(kept, before, operation, action, replies);
}

/// Whatever is stored, even on tapes that do not agree with each other: bringing the database of a
/// node that is not to be pruned into the state that it should be in leaves the tapes and
/// `prunable_tip` as they are at every moment, and the database is as it was in the end. The
/// database of a node that is to be pruned is as it was in the end, or its seed is committed.
pub proof fn lemma_make_consistent_leaves_the_rest(
    db: BlockchainDatabase,
    stripe: Stripe,
    before: Storage,
    replies: Seq<Reply>,
)
    ensures
        run(
            before,
            MakeConsistent::started(db, stripe).0,
            MakeConsistent::started(db, stripe).1,
            replies,
        ) matches Some((now, operation, action)) ==> {
            &&& !is_to_be_pruned(db) ==> only_rebuilding(before, now)
            &&& !is_to_be_pruned(db) && action is Finished ==> operation.db == db
            &&& action is Finished ==> db_intact(db, stripe, operation.db)
        },
{
    lemma_consistency_framed(db, stripe, before, replies);
    let (operation, action) = MakeConsistent::started(db, stripe);
    match run(before, operation, action, replies) {
        Some((now, m, a)) => {
            match m.stage {
                ConsistencyStage::Rebuild(rebuild) => {
                    lemma_rebuild_framed(db, before, now, rebuild, a);
                },
                _ => {},
            }
        },
        None => {},
    }
}

/// Nothing is lost at any moment, even on tapes that do not agree with each other: either nothing
/// was done to the tapes and to `prunable_tip`, or the activation of pruning is under way, and the
/// storage is recoverable. What the database knows of itself is what is stored.
pub proof fn lemma_make_consistent_loses_nothing(
    db: BlockchainDatabase,
    stripe: Stripe,
    before: Storage,
    replies: Seq<Reply>,
)
    requires
        is_stripe(stripe.number()),
        knows(db, before),
        db.pruning_seed == PruningSeed::NotPruned ==> before.metadata.len() == 0,
    ensures
        run(
            before,
            MakeConsistent::started(db, stripe).0,
            MakeConsistent::started(db, stripe).1,
            replies,
        ) matches Some((now, operation, _)) ==> {
            &&& nothing_lost(db, stripe, before, now)
            &&& knows(operation.db, now)
        },
{
    lemma_consistency_framed(db, stripe, before, replies);
    let (operation, action) = MakeConsistent::started(db, stripe);
    match run(before, operation, action, replies) {
        Some((now, m, a)) => {
            match m.stage {
                ConsistencyStage::Rebuild(rebuild) => {
                    lemma_rebuild_framed(db, before, now, rebuild, a);
                    lemma_rebuilding_keeps_knowledge(db, before, now, m.db.prunable_tip);
                },
                ConsistencyStage::Prune(prune) => {
                    let mid = choose|mid: Storage|
                        pruning_after(db, stripe, before, mid, now, prune, a);
                    lemma_rebuilding_keeps_knowledge(db, before, mid, db.prunable_tip);
                    lemma_prune_kept_is_recoverable(db, stripe, mid, now, prune, a);
                },
                ConsistencyStage::Over => {
                    if m.db == db && only_rebuilding(before, now) {
                        lemma_rebuilding_keeps_knowledge(db, before, now, db.prunable_tip);
                    } else {
                        let (mid, prune) = choose|mid: Storage, prune: EnablePruning|
                            prune.db == m.db && #[trigger] pruning_after(
                                db,
                                stripe,
                                before,
                                mid,
                                now,
                                prune,
                                a,
                            );
                        lemma_rebuilding_keeps_knowledge(db, before, mid, db.prunable_tip);
                        lemma_prune_kept_is_recoverable(db, stripe, mid, now, prune, a);
                    }
                },
                _ => {},
            }
        },
        None => {},
    }
}

/// A random stripe is one of eight, drawn out of all of them, and it is the number that was drawn.
/// A stripe that was named is the one that was named.
pub proof fn lemma_number_of_stripe(stripe: Stripe, named: u32)
    ensures
        stripe.random() ==> {
            &&& stripe matches Stripe::Drawn(drawn)
            &&& drawn.low() == 1
            &&& drawn.high() == 8
            &&& stripe.number() == drawn.number()
            &&& 1 <= stripe.number() <= 8
        },
        Stripe::Named(named).number() == named,
{
}

/// Each of the eight stripes may be drawn.
pub proof fn lemma_every_stripe_can_be_drawn(number: u32)
    requires
        1 <= number <= 8,
    ensures
        exists|stripe: Stripe| #[trigger] stripe.random() && stripe.number() == number,
{
    lemma_every_number_can_be_drawn(1, 8, number);
    let drawn = choose|drawn: Drawn|
        drawn.low() == 1 && drawn.high() == 8 && #[trigger] drawn.number() == number;
    assert(Stripe::Drawn(drawn).random());
}

/// A node that the configuration wants pruned is pruned on the number that was drawn, if its
/// stripe was: that is the stripe of the seed that it ends up with, and of the one that it commits.
pub proof fn lemma_node_is_pruned_on_draw(
    db: BlockchainDatabase,
    drawn: Drawn,
    before: Storage,
    replies: Seq<Reply>,
)
    requires
        1 <= drawn.number() <= 8,
        db.config.prune,
        db.pruning_seed == PruningSeed::NotPruned,
    ensures
        run(
            before,
            MakeConsistent::started(db, Stripe::Drawn(drawn)).0,
            MakeConsistent::started(db, Stripe::Drawn(drawn)).1,
            replies,
        ) matches Some((now, operation, action)) ==> {
            &&& operation.stripe == Stripe::Drawn(drawn)
            &&& action matches Action::Finished(Ok(_)) ==> {
                &&& operation.db.pruning_seed == PruningSeed::Pruned(
                    DecompressedPruningSeed { log_stripes: 3, stripe: drawn.number() },
                )
                &&& operation.db.prunable_tip
                &&& now.metadata == before.metadata + seq![
                    (127 + drawn.number()) as u8,
                    1u8,
                    0u8,
                    0u8,
                ]
                &&& forall|index: int|
                    0 <= index < 8 ==> (#[trigger] now.prunable.contains_key(index)
                        <==> before.prunable.contains_key(index) && index == drawn.number() - 1)
            }
        },
{
    let stripe = Stripe::Drawn(drawn);
    lemma_consistency_framed(db, stripe, before, replies);
    lemma2_to64();
    lemma_bytes_of_seed(3, drawn.number());
    let (operation, action) = MakeConsistent::started(db, stripe);
    match run(before, operation, action, replies) {
        Some((now, m, a)) => {
            if a matches Action::Finished(Ok(_)) {
                let (mid, prune) = choose|mid: Storage, prune: EnablePruning|
                    prune.db == m.db && #[trigger] pruning_after(
                        db,
                        stripe,
                        before,
                        mid,
                        now,
                        prune,
                        a,
                    );
                assert(pruning_after(db, stripe, before, mid, now, prune, a));
                assert(now == pruned(mid, seed_for(drawn.number())));
            }
        },
        None => {},
    }
}

/// Bringing the database into the state that it should be in does that, unless a request fails.
///
/// If it succeeds, the keyspaces are at the same main-chain tip as the tapes: built anew if they
/// were not, and untouched if they were. A node that the configuration wants pruned is pruned,
/// and a node that was pruned has its `prunable_tip`. If that is missing, the operation fails,
/// and for no other reason than that and a request that failed.
pub proof fn lemma_make_consistent(
    db: BlockchainDatabase,
    stripe: Stripe,
    before: Storage,
    replies: Seq<Reply>,
)
    requires
        sound(before),
    ensures
        run(
            before,
            MakeConsistent::started(db, stripe).0,
            MakeConsistent::started(db, stripe).1,
            replies,
        ) matches Some((now, operation, action)) ==> match action {
            Action::Finished(Ok(_)) => {
                &&& !lacks_tip(db)
                &&& now.in_sync()
                &&& now == made_consistent(db, stripe, before)
                &&& operation.db == db_made_consistent(db, stripe)
            },
            Action::Finished(Err(BlockchainError::MissingPrunableTip)) => {
                &&& lacks_tip(db)
                &&& now == settled(before)
                &&& operation.db == db
            },
            Action::Finished(Err(error)) => error == BlockchainError::Storage,
            Action::Perform(_) => true,
        },
{
    let kept = |now: Storage, operation: MakeConsistent, action: Action<()>|
        consistency_kept(db, stripe, before, now, operation, action);
    let (operation, action) = MakeConsistent::started(db, stripe);
    assert forall|s: Storage, m: MakeConsistent, request: Request, reply: Reply|
        kept(s, m, Action::Perform(request)) && #[trigger] s.answers(request, reply) && (
        #[trigger] m.next(reply)) is Some implies kept(
        after(s, request, reply),
        (m.next(reply)->0).0,
        (m.next(reply)->0).1,
    ) by {
        lemma_consistency_step(db, stripe, before, s, m, request, reply);
    }
    lemma_run_keeps(kept, before, operation, action, replies);
    lemma_rebuilt_is_in_sync(before);
}

/// How the operation ends if no request fails.
pub open spec fn owed(db: BlockchainDatabase) -> Result<(), BlockchainError> {
    if lacks_tip(db) {
        Err(BlockchainError::MissingPrunableTip)
    } else {
        Ok(())
    }
}

/// Wherever the operation waits, it goes on.
proof fn lemma_consistency_proceeds(
    db: BlockchainDatabase,
    stripe: Stripe,
    before: Storage,
    now: Storage,
    operation: MakeConsistent,
    action: Action<()>,
)
    requires
        sound(before),
        chain_readable(before),
        is_to_be_pruned(db) ==> tip_readable(before),
        consistency_kept(db, stripe, before, now, operation, action),
    ensures
        proceeds(now, operation, action),
{
    match action {
        Action::Perform(request) => match operation.stage {
            ConsistencyStage::Tips(tips) => {
                lemma_tips_proceeds(before, tips, Action::Perform(request));
                assert forall|reply: Reply|
                    now.answers(request, reply) && !(reply is Failed) implies (
                #[trigger] operation.next(reply)) is Some by {
                    assert(tips.next(reply) is Some);
                }
            },
            ConsistencyStage::Rebuild(rebuild) => {
                lemma_rebuild_proceeds(db, before, now, rebuild, action);
                assert forall|reply: Reply|
                    now.answers(request, reply) && !(reply is Failed) implies (
                #[trigger] operation.next(reply)) is Some by {
                    assert(rebuild.next(reply) is Some);
                }
            },
            ConsistencyStage::Prune(prune) => {
                let mid = settled(before);
                assert(tip_readable(mid)) by {
                    assert forall|tx_id: u64|
                        blob_readable(before, tx_id) implies #[trigger] blob_readable(
                        mid,
                        tx_id,
                    ) by {}
                }
                lemma_prune_proceeds(db, stripe, mid, now, prune, action);
                assert forall|reply: Reply|
                    now.answers(request, reply) && !(reply is Failed) implies (
                #[trigger] operation.next(reply)) is Some by {
                    assert(prune.next(reply) is Some);
                }
            },
            _ => {},
        },
        Action::Finished(_) => {},
    }
}

/// Bringing the database into the state that it should be in succeeds if the tapes agree with each
/// other, what has to be read from them can be, no request fails, and a node that is pruned has
/// its `prunable_tip`: it never gets stuck, and it does not end in an error. A pruned node without
/// its `prunable_tip` gets [`BlockchainError::MissingPrunableTip`].
pub proof fn lemma_make_consistent_succeeds(
    db: BlockchainDatabase,
    stripe: Stripe,
    before: Storage,
    replies: Seq<Reply>,
)
    requires
        sound(before),
        chain_readable(before),
        is_to_be_pruned(db) ==> tip_readable(before),
        none_failed(replies),
    ensures
        run(
            before,
            MakeConsistent::started(db, stripe).0,
            MakeConsistent::started(db, stripe).1,
            replies,
        ) matches Some((now, operation, action)) ==> {
            &&& proceeds(now, operation, action)
            &&& action matches Action::Finished(result) ==> result == owed(db)
        },
{
    let kept = |now: Storage, operation: MakeConsistent, action: Action<()>|
        consistency_kept(db, stripe, before, now, operation, action) && (
        action matches Action::Finished(result) ==> result == owed(db));
    let (operation, action) = MakeConsistent::started(db, stripe);
    assert forall|s: Storage, m: MakeConsistent, request: Request, reply: Reply|
        kept(s, m, Action::Perform(request)) && #[trigger] s.answers(request, reply) && (
        #[trigger] m.next(reply)) is Some && !(reply is Failed) implies kept(
        s.performed(request),
        (m.next(reply)->0).0,
        (m.next(reply)->0).1,
    ) by {
        lemma_consistency_step(db, stripe, before, s, m, request, reply);
    }
    lemma_reliable_run_keeps(kept, before, operation, action, replies);
    match run(before, operation, action, replies) {
        Some((now, m, a)) => {
            lemma_consistency_proceeds(db, stripe, before, now, m, a);
        },
        None => {},
    }
}

} // verus!
