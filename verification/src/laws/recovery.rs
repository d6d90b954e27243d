//! What a node finds when it starts again after the activation of pruning was cut short.

use vstd::prelude::*;

use crate::activation::{is_stripe, seed_for, EnablePruning, Stripe};
use crate::consistency::MakeConsistent;
use crate::laws::activation::{lemma_enable_pruning, recoverable};
use crate::laws::consistency::{is_to_be_pruned, lemma_make_consistent_loses_nothing};
use crate::laws::fill::tip_entries;
use crate::laws::model::Storage;
use crate::laws::opening::{knows, lemma_open_database, stored_seed};
use crate::laws::rebuild::only_rebuilding;
use crate::layout::{keeps_tape, Config, PRUNABLE_TAPES};
use crate::opening::OpenDatabase;
use crate::operation::run;
use crate::pruning::PruningSeed;
use crate::request::{Action, Reply};
use crate::state::BlockchainDatabase;

verus! {

/// What may be left of a storage after a crash: all that is committed to the tapes, and of
/// `prunable_tip` at least what was pushed to the disk, and at most what was committed. Of the
/// other keyspaces anything may be left, they can be built anew.
pub open spec fn crash_leaves(storage: Storage, left: Storage) -> bool {
    &&& left == Storage {
        appended: Seq::empty(),
        tip_exists: left.tip_exists,
        tip: left.tip,
        tip_batch: Map::empty(),
        synced_tip_exists: left.tip_exists,
        synced_tip: left.tip,
        derived: left.derived,
        batch: Seq::empty(),
        staged: Seq::empty(),
        counted: left.counted,
        alt: left.alt,
        ..storage
    }
    &&& storage.synced_tip_exists ==> left.tip_exists
    &&& left.tip_exists ==> storage.tip_exists
    &&& storage.synced_tip.dom().subset_of(left.tip.dom())
    &&& left.tip.dom().subset_of(storage.tip.dom())
    &&& forall|tx_id: u64| #[trigger]
        left.tip.contains_key(tx_id) ==> {
            ||| left.tip[tx_id] == storage.tip[tx_id]
            ||| storage.synced_tip.contains_key(tx_id) && left.tip[tx_id]
                == storage.synced_tip[tx_id]
        }
}

/// The node is not pruned, and nothing is lost that an activation of pruning needs: every prunable
/// tape is as it was, and what `prunable_tip` should be filled with is the same.
pub open spec fn can_be_pruned(before: Storage, db: BlockchainDatabase, now: Storage) -> bool {
    &&& db.pruning_seed == PruningSeed::NotPruned
    &&& now.metadata.len() == 0
    &&& now.prunable == before.prunable
    &&& tip_entries(now) == tip_entries(before)
}

/// The node is pruned on a stripe: it has the tape of the stripe and none of the others, and
/// `prunable_tip` has what the others had of the last blocks of the chain.
pub open spec fn is_pruned(
    before: Storage,
    db: BlockchainDatabase,
    now: Storage,
    stripe: u32,
) -> bool {
    &&& db.pruning_seed == seed_for(stripe)
    &&& db.prunable_tip
    &&& now.prunable.contains_key(stripe - 1)
    &&& now.prunable[stripe - 1] == before.prunable[stripe - 1]
    &&& forall|index: int|
        0 <= index < PRUNABLE_TAPES && index != stripe - 1 ==> !(
        #[trigger] now.prunable.contains_key(index))
    &&& tip_entries(before).submap_of(now.tip)
}

/// Opening what a crash left of a recoverable storage gives a database that is pruned if the seed
/// was committed, and that can still be pruned if it was not.
proof fn lemma_reopen_recoverable(
    stripe: u32,
    before: Storage,
    crashed: Storage,
    left: Storage,
    config: Config,
    replies: Seq<Reply>,
)
    requires
        is_stripe(stripe),
        before.metadata.len() == 0,
        forall|index: int|
            0 <= index < PRUNABLE_TAPES ==> #[trigger] before.prunable.contains_key(index),
        recoverable(before, crashed, stripe),
        crash_leaves(crashed, left),
    ensures
        run(
            left,
            OpenDatabase::started(config).0,
            OpenDatabase::started(config).1,
            replies,
        ) matches Some((now, _, Action::Finished(Ok(db)))) ==> {
            &&& knows(db, now)
            &&& crashed.metadata.len() == 0 ==> can_be_pruned(before, db, now)
            &&& crashed.metadata.len() > 0 ==> is_pruned(before, db, now, stripe)
        },
{
    lemma_open_database(config, left, replies);
    let (open, action) = OpenDatabase::started(config);
    match run(left, open, action, replies) {
        Some((now, _, Action::Finished(Ok(db)))) => {
            assert(stored_seed(left) == stored_seed(crashed));
            if crashed.metadata.len() == 0 {
                assert(now.prunable =~= before.prunable);
                assert(tip_entries(now) =~= tip_entries(before));
            } else {
                assert forall|index: int|
                    0 <= index < PRUNABLE_TAPES && index != stripe - 1 implies !(
                #[trigger] now.prunable.contains_key(index)) by {
                    assert(!keeps_tape(db.pruning_seed, index));
                }
                assert(keeps_tape(db.pruning_seed, stripe - 1));
                assert forall|tx_id: u64| #[trigger]
                    tip_entries(before).contains_key(tx_id) implies now.tip.contains_key(tx_id)
                    && now.tip[tx_id] == tip_entries(before)[tx_id] by {
                    assert(crashed.synced_tip.dom().contains(tx_id));
                    assert(left.tip.contains_key(tx_id));
                }
                assert(crashed.prunable.dom().contains(stripe - 1));
                assert(before.prunable.dom().contains(stripe - 1));
            }
        },
        _ => {},
    }
}

/// However the activation of pruning is cut short, and whatever a crash leaves of what was not
/// pushed to the disk yet: the node that starts again is either not pruned, with every prunable
/// tape intact, or pruned on the stripe, with all the data that a node pruned on it should have.
pub proof fn lemma_interrupted_activation_recovers(
    db: BlockchainDatabase,
    stripe: Stripe,
    before: Storage,
    replies: Seq<Reply>,
    left: Storage,
    config: Config,
    open_replies: Seq<Reply>,
)
    requires
        is_stripe(stripe.number()),
        knows(db, before),
        db.pruning_seed == PruningSeed::NotPruned,
        before.metadata.len() == 0,
        run(
            before,
            EnablePruning::started(db, stripe).0,
            EnablePruning::started(db, stripe).1,
            replies,
        ) matches Some((crashed, _, _)) && crash_leaves(crashed, left),
    ensures
        run(
            left,
            OpenDatabase::started(config).0,
            OpenDatabase::started(config).1,
            open_replies,
        ) matches Some((now, _, Action::Finished(Ok(reopened)))) ==> {
            &&& knows(reopened, now)
            &&& {
                ||| can_be_pruned(before, reopened, now)
                ||| is_pruned(before, reopened, now, stripe.number())
            }
        },
{
    lemma_enable_pruning(db, stripe, before, replies);
    match run(
        before,
        EnablePruning::started(db, stripe).0,
        EnablePruning::started(db, stripe).1,
        replies,
    ) {
        Some((crashed, _, _)) => {
            lemma_reopen_recoverable(stripe.number(), before, crashed, left, config, open_replies);
        },
        None => {},
    }
}

/// However bringing the database into the state that it should be in is cut short, and whatever a
/// crash leaves of what was not pushed to the disk yet: the node that starts again has the seed
/// that it had, and every prunable tape that goes with it intact, or it was to be pruned and is.
pub proof fn lemma_interrupted_consistency_recovers(
    db: BlockchainDatabase,
    stripe: Stripe,
    before: Storage,
    replies: Seq<Reply>,
    left: Storage,
    config: Config,
    open_replies: Seq<Reply>,
)
    requires
        is_stripe(stripe.number()),
        knows(db, before),
        db.pruning_seed == PruningSeed::NotPruned ==> before.metadata.len() == 0,
        run(
            before,
            MakeConsistent::started(db, stripe).0,
            MakeConsistent::started(db, stripe).1,
            replies,
        ) matches Some((crashed, _, _)) && crash_leaves(crashed, left),
    ensures
        run(
            left,
            OpenDatabase::started(config).0,
            OpenDatabase::started(config).1,
            open_replies,
        ) matches Some((now, _, Action::Finished(Ok(reopened)))) ==> {
            &&& knows(reopened, now)
            &&& {
                ||| {
                    &&& reopened.pruning_seed == db.pruning_seed
                    &&& kept_tapes_of(before, db.pruning_seed).submap_of(now.prunable)
                }
                ||| is_to_be_pruned(db) && is_pruned(before, reopened, now, stripe.number())
            }
        },
{
    lemma_make_consistent_loses_nothing(db, stripe, before, replies);
    lemma_open_database(config, left, open_replies);
    let (operation, action) = MakeConsistent::started(db, stripe);
    let (open, open_action) = OpenDatabase::started(config);
    match run(before, operation, action, replies) {
        Some((crashed, _, _)) => {
            match run(left, open, open_action, open_replies) {
                Some((now, _, Action::Finished(Ok(reopened)))) => {
                    let seed = db.pruning_seed;
                    if only_rebuilding(before, crashed) {
                        assert(stored_seed(left) == stored_seed(before));
                        assert forall|index: int| #[trigger]
                            kept_tapes_of(before, seed).contains_key(
                                index,
                            ) implies now.prunable.contains_key(index) && now.prunable[index]
                            == before.prunable[index] by {
                            assert(left.prunable.contains_key(index) && keeps_tape(seed, index));
                        }
                    } else {
                        let mid = choose|mid: Storage|
                            only_rebuilding(before, mid) && #[trigger] recoverable(
                                mid,
                                crashed,
                                stripe.number(),
                            );
                        assert(tip_entries(mid) =~= tip_entries(before));
                        lemma_reopen_recoverable(
                            stripe.number(),
                            mid,
                            crashed,
                            left,
                            config,
                            open_replies,
                        );
                        if crashed.metadata.len() == 0 {
                            assert(kept_tapes_of(before, seed).submap_of(now.prunable));
                        }
                    }
                },
                _ => {},
            }
        },
        None => {},
    }
}

/// The prunable tapes that a seed keeps.
pub open spec fn kept_tapes_of(storage: Storage, seed: PruningSeed) -> Map<int, Seq<u8>> {
    storage.prunable.restrict(Set::new(|index: int| keeps_tape(seed, index)))
}

/// An activation of pruning may be started again on what an earlier one left, on any stripe: what
/// `prunable_tip` was filled with in part is filled in full.
pub proof fn lemma_activation_resumes(
    before: Storage,
    db: BlockchainDatabase,
    resumed: Storage,
    stripe: Stripe,
    replies: Seq<Reply>,
)
    requires
        is_stripe(stripe.number()),
        knows(db, resumed),
        can_be_pruned(before, db, resumed),
    ensures
        run(
            resumed,
            EnablePruning::started(db, stripe).0,
            EnablePruning::started(db, stripe).1,
            replies,
        ) matches Some((now, prune, Action::Finished(Ok(_)))) ==> is_pruned(
            before,
            prune.db,
            now,
            stripe.number(),
        ),
{
    lemma_enable_pruning(db, stripe, resumed, replies);
    match run(
        resumed,
        EnablePruning::started(db, stripe).0,
        EnablePruning::started(db, stripe).1,
        replies,
    ) {
        Some((now, prune, Action::Finished(Ok(_)))) => {
            assert(resumed.prunable.contains_key(stripe.number() - 1));
            assert forall|index: int|
                0 <= index < PRUNABLE_TAPES && index != stripe.number() - 1 implies !(
            #[trigger] now.prunable.contains_key(index)) by {
                assert(!keeps_tape(prune.db.pruning_seed, index));
            }
            assert forall|tx_id: u64| #[trigger]
                tip_entries(before).contains_key(tx_id) implies now.tip.contains_key(tx_id)
                && now.tip[tx_id] == tip_entries(before)[tx_id] by {
                assert(tip_entries(resumed).contains_key(tx_id));
            }
        },
        _ => {},
    }
}

} // verus!
