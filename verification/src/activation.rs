//! Turning a node into a pruned one.

use vstd::prelude::*;

use crate::fill::FillPrunableTip;
use crate::layout::{
    first_tape, lemma_first_tape, next_tape, options_of_tape, tape_options, Tape, PRUNABLE_TAPES,
};
use crate::operation::Operation;
use crate::outside::{random_between, Drawn};
use crate::pruning::{DecompressedPruningSeed, PruningSeed, CRYPTONOTE_PRUNING_LOG_STRIPES};
use crate::request::{Action, BlockchainError, Reply, Request};
use crate::state::BlockchainDatabase;

verus! {

/// Deletes every prunable tape that the seed of the database does not keep.
///
/// It must not run before `prunable_tip` is on disk and the seed is committed.
#[derive(Debug)]
pub struct DeleteUnnecessaryTapes {
    /// The database, with the tapes closed that were deleted.
    pub db: BlockchainDatabase,
    /// The index of the tape whose deletion is waited for.
    pub deleting: Option<usize>,
}

impl DeleteUnnecessaryTapes {
    /// How the deletion goes on once it is over with the tapes below `from`. A tape that was closed
    /// before stays so.
    pub open spec fn deleting_from(db: BlockchainDatabase, from: int) -> (Self, Action<()>) {
        let closed_below = if from > db.closed_below {
            from as usize
        } else {
            db.closed_below
        };
        let db = BlockchainDatabase { closed_below, ..db };
        let index = first_tape(db.pruning_seed, false, from);
        if index < PRUNABLE_TAPES {
            let tape = Tape::Prunable(index as usize);
            (
                DeleteUnnecessaryTapes { db, deleting: Some(index as usize) },
                Action::Perform(
                    Request::DeleteTape {
                        tape,
                        options: options_of_tape(tape, db.config.cache_sizes),
                    },
                ),
            )
        } else {
            (
                DeleteUnnecessaryTapes {
                    db: BlockchainDatabase { closed_below: PRUNABLE_TAPES, ..db },
                    deleting: None,
                },
                Action::Finished(Ok(())),
            )
        }
    }

    /// Starts the deletion.
    pub fn delete_unnecessary_tapes(db: &BlockchainDatabase) -> (start: (Self, Action<()>))
        requires
            db.wf(),
        ensures
            start == Self::deleting_from(*db, 0),
            start.0.ready(),
    {
        Self::proceed(db, 0)
    }

    fn proceed(db: &BlockchainDatabase, from: usize) -> (next: (Self, Action<()>))
        requires
            db.wf(),
            from <= PRUNABLE_TAPES,
        ensures
            next == Self::deleting_from(*db, from as int),
            next.0.ready(),
    {
        let index: usize = next_tape(&db.pruning_seed, false, from);
        let closed_below: usize = if from > db.closed_below {
            from
        } else {
            db.closed_below
        };
        if index < PRUNABLE_TAPES {
            let tape = Tape::Prunable(index);
            (
                DeleteUnnecessaryTapes {
                    db: BlockchainDatabase {
                        config: db.config,
                        pruning_seed: db.pruning_seed,
                        prunable_tip: db.prunable_tip,
                        closed_below,
                    },
                    deleting: Some(index),
                },
                Action::Perform(
                    Request::DeleteTape {
                        tape,
                        options: tape_options(tape, &db.config.cache_sizes),
                    },
                ),
            )
        } else {
            (
                DeleteUnnecessaryTapes {
                    db: BlockchainDatabase {
                        config: db.config,
                        pruning_seed: db.pruning_seed,
                        prunable_tip: db.prunable_tip,
                        closed_below: PRUNABLE_TAPES,
                    },
                    deleting: None,
                },
                Action::Finished(Ok(())),
            )
        }
    }
}

impl Operation<()> for DeleteUnnecessaryTapes {
    open spec fn ready(&self) -> bool {
        &&& self.db.wf()
        &&& self.deleting matches Some(index) ==> index < PRUNABLE_TAPES
    }

    open spec fn next(self, reply: Reply) -> Option<(Self, Action<()>)> {
        match (self.deleting, reply) {
            (Some(index), Reply::Done) => Some(Self::deleting_from(self.db, index + 1)),
            (Some(_), Reply::Failed) => Some(
                (
                    DeleteUnnecessaryTapes { db: self.db, deleting: None },
                    Action::Finished(Err(BlockchainError::Storage)),
                ),
            ),
            _ => None,
        }
    }

    open spec fn rank(&self) -> nat {
        match self.deleting {
            Some(index) => (PRUNABLE_TAPES - index) as nat,
            None => 0,
        }
    }

    proof fn lemma_goes_on(self, reply: Reply) {
        match self.deleting {
            Some(index) => {
                lemma_first_tape(self.db.pruning_seed, false, index + 1);
            },
            None => {},
        }
    }

    fn step(self, reply: Reply) -> (outcome: Option<(Self, Action<()>)>) {
        proof {
            self.lemma_goes_on(reply);
        }
        match (self.deleting, reply) {
            (Some(index), Reply::Done) => Some(Self::proceed(&self.db, index + 1)),
            (Some(_), Reply::Failed) => Some(
                (
                    DeleteUnnecessaryTapes { db: self.db, deleting: None },
                    Action::Finished(Err(BlockchainError::Storage)),
                ),
            ),
            _ => None,
        }
    }
}

/// What [`EnablePruning`] waits for.
#[derive(Debug)]
pub enum PruneStage {
    /// `prunable_tip` to be filled.
    Fill(FillPrunableTip),
    /// `prunable_tip` to be on disk.
    Persist,
    /// The append transaction that the seed goes into.
    Begin,
    /// The seed to be appended.
    Append,
    /// The seed to be committed.
    Commit,
    /// The other tapes to be deleted.
    Delete(DeleteUnnecessaryTapes),
    /// There is nothing left to do.
    Over,
}

/// Turns a node into a pruned one: fills `prunable_tip` from all the prunable tapes, and then
/// deletes those that are not needed any more.
///
/// The order matters.
///
/// 1. The seed is chosen, in memory only.
/// 2. `prunable_tip` is filled.
/// 3. It is pushed to the disk. To commit a write batch is not enough, it can still be lost.
/// 4. The seed is committed. From here on the node counts as pruned.
/// 5. The other tapes are deleted.
///
/// A node that is interrupted before the fourth step is still not pruned, has every tape, and
/// starts over. One that is interrupted later deletes the tapes when it is opened next.
#[derive(Debug)]
pub struct EnablePruning {
    /// The database.
    pub db: BlockchainDatabase,
    /// The stripe that it is to be pruned on.
    pub stripe: Stripe,
    /// The seed that it is to be pruned with.
    pub seed: PruningSeed,
    /// What is waited for.
    pub stage: PruneStage,
}

/// The seed for a stripe.
pub open spec fn seed_for(stripe: u32) -> PruningSeed {
    PruningSeed::Pruned(
        DecompressedPruningSeed { log_stripes: CRYPTONOTE_PRUNING_LOG_STRIPES, stripe },
    )
}

/// The number of a stripe that a node can be pruned on.
pub open spec fn is_stripe(stripe: u32) -> bool {
    1 <= stripe <= PRUNABLE_TAPES
}

/// A stripe to prune a node on, and where it comes from.
#[derive(Clone, Copy, Debug)]
pub enum Stripe {
    /// The caller asked for this one.
    Named(u32),
    /// It was drawn at random.
    Drawn(Drawn),
}

impl Stripe {
    /// The number of the stripe, counted from one.
    pub open spec fn number(self) -> u32 {
        match self {
            Stripe::Named(number) => number,
            Stripe::Drawn(drawn) => drawn.number(),
        }
    }

    /// The stripe was drawn at random out of all of them.
    pub open spec fn random(self) -> bool {
        &&& self matches Stripe::Drawn(drawn)
        &&& drawn.low() == 1
        &&& drawn.high() == 8
        &&& 1 <= drawn.number() <= 8
    }

    /// The number of the stripe, counted from one.
    pub fn get(&self) -> (number: u32)
        ensures
            number == self.number(),
    {
        match self {
            Stripe::Named(number) => *number,
            Stripe::Drawn(drawn) => drawn.get(),
        }
    }
}

/// A random stripe to prune a node on.
pub fn random_stripe() -> (stripe: Stripe)
    ensures
        stripe.random(),
        is_stripe(stripe.number()),
{
    Stripe::Drawn(random_between(1, PRUNABLE_TAPES as u32))
}

impl EnablePruning {
    /// Where the activation starts, for a stripe.
    pub open spec fn started(db: BlockchainDatabase, stripe: Stripe) -> (Self, Action<()>) {
        Self::filling(db, stripe, seed_for(stripe.number()), FillPrunableTip::started())
    }

    /// How the activation goes on when the filling has got so far.
    pub open spec fn filling(
        db: BlockchainDatabase,
        stripe: Stripe,
        seed: PruningSeed,
        filled: (FillPrunableTip, Action<()>),
    ) -> (Self, Action<()>) {
        match filled.1 {
            Action::Perform(request) => (
                EnablePruning { db, stripe, seed, stage: PruneStage::Fill(filled.0) },
                Action::Perform(request),
            ),
            Action::Finished(Ok(())) => (
                EnablePruning { db, stripe, seed, stage: PruneStage::Persist },
                Action::Perform(Request::PersistKeyspaces),
            ),
            Action::Finished(Err(error)) => (
                EnablePruning { db, stripe, seed, stage: PruneStage::Over },
                Action::Finished(Err(error)),
            ),
        }
    }

    /// How the activation goes on when the deletion has got so far.
    pub open spec fn deleting(
        stripe: Stripe,
        seed: PruningSeed,
        deleted: (DeleteUnnecessaryTapes, Action<()>),
    ) -> (Self, Action<()>) {
        match deleted.1 {
            Action::Perform(request) => (
                EnablePruning {
                    db: deleted.0.db,
                    stripe,
                    seed,
                    stage: PruneStage::Delete(deleted.0),
                },
                Action::Perform(request),
            ),
            Action::Finished(result) => (
                EnablePruning { db: deleted.0.db, stripe, seed, stage: PruneStage::Over },
                Action::Finished(result),
            ),
        }
    }

    /// The database once the seed is committed.
    pub open spec fn pruned(db: BlockchainDatabase, seed: PruningSeed) -> BlockchainDatabase {
        BlockchainDatabase {
            config: db.config,
            pruning_seed: seed,
            prunable_tip: true,
            closed_below: 0,
        }
    }

    /// Starts to turn the node into a pruned one, on a random stripe.
    pub fn enable_pruning(db: &BlockchainDatabase) -> (start: (Self, Action<()>))
        requires
            db.wf(),
            db.pruning_seed == PruningSeed::NotPruned,
        ensures
            start.0.stripe.random(),
            is_stripe(start.0.stripe.number()),
            start == Self::started(*db, start.0.stripe),
            start.0.ready(),
    {
        Self::start(db, random_stripe())
    }

    /// Starts to turn the node into a pruned one, on a stripe.
    pub fn enable_pruning_on(db: &BlockchainDatabase, stripe: u32) -> (start: (Self, Action<()>))
        requires
            db.wf(),
            db.pruning_seed == PruningSeed::NotPruned,
            is_stripe(stripe),
        ensures
            start == Self::started(*db, Stripe::Named(stripe)),
            start.0.ready(),
    {
        Self::start(db, Stripe::Named(stripe))
    }

    pub(crate) fn start(db: &BlockchainDatabase, origin: Stripe) -> (start: (Self, Action<()>))
        requires
            db.wf(),
            db.pruning_seed == PruningSeed::NotPruned,
            is_stripe(origin.number()),
        ensures
            start == Self::started(*db, origin),
            start.0.ready(),
    {
        let stripe: u32 = origin.get();
        let seed = match PruningSeed::new_pruned(stripe, CRYPTONOTE_PRUNING_LOG_STRIPES) {
            Ok(seed) => seed,
            Err(_) => PruningSeed::NotPruned,
        };
        Self::follow_fill(*db, origin, seed, FillPrunableTip::fill_prunable_tip(db))
    }

    fn follow_fill(
        db: BlockchainDatabase,
        stripe: Stripe,
        seed: PruningSeed,
        filled: (FillPrunableTip, Action<()>),
    ) -> (next: (Self, Action<()>))
        requires
            db.wf(),
            seed.valid(),
            filled.0.ready(),
        ensures
            next == Self::filling(db, stripe, seed, filled),
            next.0.ready(),
    {
        match filled.1 {
            Action::Perform(request) => (
                EnablePruning { db, stripe, seed, stage: PruneStage::Fill(filled.0) },
                Action::Perform(request),
            ),
            Action::Finished(Ok(())) => (
                EnablePruning { db, stripe, seed, stage: PruneStage::Persist },
                Action::Perform(Request::PersistKeyspaces),
            ),
            Action::Finished(Err(error)) => (
                EnablePruning { db, stripe, seed, stage: PruneStage::Over },
                Action::Finished(Err(error)),
            ),
        }
    }

    fn follow_deletion(
        stripe: Stripe,
        seed: PruningSeed,
        deleted: (DeleteUnnecessaryTapes, Action<()>),
    ) -> (next: (Self, Action<()>))
        requires
            seed.valid(),
            deleted.0.ready(),
        ensures
            next == Self::deleting(stripe, seed, deleted),
            next.0.ready(),
    {
        let db = deleted.0.db;
        match deleted.1 {
            Action::Perform(request) => (
                EnablePruning { db, stripe, seed, stage: PruneStage::Delete(deleted.0) },
                Action::Perform(request),
            ),
            Action::Finished(result) => (
                EnablePruning { db, stripe, seed, stage: PruneStage::Over },
                Action::Finished(result),
            ),
        }
    }
}

impl Operation<()> for EnablePruning {
    open spec fn ready(&self) -> bool {
        &&& self.db.wf()
        &&& self.seed.valid()
        &&& match self.stage {
            PruneStage::Fill(fill) => fill.ready(),
            PruneStage::Delete(delete) => delete.ready() && delete.db == self.db,
            _ => true,
        }
    }

    open spec fn next(self, reply: Reply) -> Option<(Self, Action<()>)> {
        let db = self.db;
        let stripe = self.stripe;
        let seed = self.seed;
        match (self.stage, reply) {
            (PruneStage::Over, _) => None,
            (PruneStage::Fill(fill), _) => match fill.next(reply) {
                Some(filled) => Some(Self::filling(db, stripe, seed, filled)),
                None => None,
            },
            (PruneStage::Delete(delete), _) => match delete.next(reply) {
                Some(deleted) => Some(Self::deleting(stripe, seed, deleted)),
                None => None,
            },
            (_, Reply::Failed) => Some(
                (
                    EnablePruning { db, stripe, seed, stage: PruneStage::Over },
                    Action::Finished(Err(BlockchainError::Storage)),
                ),
            ),
            (PruneStage::Persist, Reply::Done) => Some(
                (
                    EnablePruning { db, stripe, seed, stage: PruneStage::Begin },
                    Action::Perform(Request::BeginAppend),
                ),
            ),
            (PruneStage::Begin, Reply::Done) => Some(
                (
                    EnablePruning { db, stripe, seed, stage: PruneStage::Append },
                    Action::Perform(Request::AppendSeed { seed }),
                ),
            ),
            (PruneStage::Append, Reply::Done) => Some(
                (
                    EnablePruning { db, stripe, seed, stage: PruneStage::Commit },
                    Action::Perform(Request::CommitTapes),
                ),
            ),
            (PruneStage::Commit, Reply::Done) => Some(
                Self::deleting(
                    stripe,
                    seed,
                    DeleteUnnecessaryTapes::deleting_from(Self::pruned(db, seed), 0),
                ),
            ),
            _ => None,
        }
    }

    open spec fn rank(&self) -> nat {
        match self.stage {
            PruneStage::Fill(fill) => fill.rank() + 13,
            PruneStage::Persist => 12,
            PruneStage::Begin => 11,
            PruneStage::Append => 10,
            PruneStage::Commit => 9,
            PruneStage::Delete(delete) => delete.rank(),
            PruneStage::Over => 0,
        }
    }

    proof fn lemma_goes_on(self, reply: Reply) {
        match self.stage {
            PruneStage::Fill(fill) => {
                fill.lemma_goes_on(reply);
            },
            PruneStage::Commit => {
                lemma_first_tape(self.seed, false, 0);
            },
            PruneStage::Delete(delete) => {
                delete.lemma_goes_on(reply);
            },
            _ => {},
        }
    }

    fn step(self, reply: Reply) -> (outcome: Option<(Self, Action<()>)>) {
        proof {
            self.lemma_goes_on(reply);
        }
        let db = self.db;
        let stripe = self.stripe;
        let seed = self.seed;
        match (self.stage, reply) {
            (PruneStage::Over, _) => None,
            (PruneStage::Fill(fill), reply) => match fill.step(reply) {
                Some(filled) => Some(Self::follow_fill(db, stripe, seed, filled)),
                None => None,
            },
            (PruneStage::Delete(delete), reply) => match delete.step(reply) {
                Some(deleted) => Some(Self::follow_deletion(stripe, seed, deleted)),
                None => None,
            },
            (_, Reply::Failed) => Some(
                (
                    EnablePruning { db, stripe, seed, stage: PruneStage::Over },
                    Action::Finished(Err(BlockchainError::Storage)),
                ),
            ),
            (PruneStage::Persist, Reply::Done) => Some(
                (
                    EnablePruning { db, stripe, seed, stage: PruneStage::Begin },
                    Action::Perform(Request::BeginAppend),
                ),
            ),
            (PruneStage::Begin, Reply::Done) => Some(
                (
                    EnablePruning { db, stripe, seed, stage: PruneStage::Append },
                    Action::Perform(Request::AppendSeed { seed }),
                ),
            ),
            (PruneStage::Append, Reply::Done) => Some(
                (
                    EnablePruning { db, stripe, seed, stage: PruneStage::Commit },
                    Action::Perform(Request::CommitTapes),
                ),
            ),
            (PruneStage::Commit, Reply::Done) => {
                let pruned = BlockchainDatabase {
                    config: db.config,
                    pruning_seed: seed,
                    prunable_tip: true,
                    closed_below: 0,
                };
                Some(
                    Self::follow_deletion(
                        stripe,
                        seed,
                        DeleteUnnecessaryTapes::delete_unnecessary_tapes(&pruned),
                    ),
                )
            },
            _ => None,
        }
    }
}

} // verus!
