//! Bringing an open database into the state that it should be in.

use vstd::prelude::*;

use crate::activation::{is_stripe, random_stripe, EnablePruning, Stripe};
use crate::operation::Operation;
use crate::pruning::PruningSeed;
use crate::rebuild::RebuildDatabase;
use crate::request::{Action, BlockchainError, Reply, Request};
use crate::state::BlockchainDatabase;
use crate::tips::TipsMatch;

verus! {

/// What [`MakeConsistent`] waits for.
#[derive(Debug)]
pub enum ConsistencyStage {
    /// A snapshot of the key-value store and one of the tapes.
    Snapshots,
    /// The comparison of their tips.
    Tips(TipsMatch),
    /// The keyspaces to be built anew.
    Rebuild(RebuildDatabase),
    /// The node to be turned into a pruned one.
    Prune(EnablePruning),
    /// There is nothing left to do.
    Over,
}

/// Builds the keyspaces anew if they are not at the same main-chain tip as the tapes, and turns
/// the node into a pruned one if the configuration asks for that and it is not pruned yet.
///
/// Fails if the node is pruned but has no `prunable_tip`.
///
/// Whether there is a `prunable_tip` plays no part in whether the node is pruned, because an
/// activation that was interrupted may have left a part of one behind. It is safe to go on over
/// that: without a seed no tape was deleted, so the entries are written again from the same tapes.
#[derive(Debug)]
pub struct MakeConsistent {
    /// The database.
    pub db: BlockchainDatabase,
    /// The stripe to prune the node on, if it is to be pruned.
    pub stripe: Stripe,
    /// What is waited for.
    pub stage: ConsistencyStage,
}

impl MakeConsistent {
    /// Where the operation starts.
    pub open spec fn started(db: BlockchainDatabase, stripe: Stripe) -> (Self, Action<()>) {
        (
            MakeConsistent { db, stripe, stage: ConsistencyStage::Snapshots },
            Action::Perform(Request::TakeSnapshots),
        )
    }

    /// How the operation ends.
    pub open spec fn ended(
        db: BlockchainDatabase,
        stripe: Stripe,
        result: Result<(), BlockchainError>,
    ) -> (Self, Action<()>) {
        (
            MakeConsistent { db, stripe, stage: ConsistencyStage::Over },
            Action::Finished(result),
        )
    }

    /// How the operation goes on when the comparison of the tips has got so far.
    pub open spec fn comparing(
        db: BlockchainDatabase,
        stripe: Stripe,
        compared: (TipsMatch, Action<bool>),
    ) -> (Self, Action<()>) {
        match compared.1 {
            Action::Perform(request) => (
                MakeConsistent { db, stripe, stage: ConsistencyStage::Tips(compared.0) },
                Action::Perform(request),
            ),
            Action::Finished(Ok(true)) => Self::in_sync(db, stripe),
            Action::Finished(Ok(false)) => Self::rebuilding(stripe, RebuildDatabase::started(db)),
            Action::Finished(Err(error)) => Self::ended(db, stripe, Err(error)),
        }
    }

    /// How the operation goes on when the rebuild has got so far.
    pub open spec fn rebuilding(
        stripe: Stripe,
        rebuilt: (RebuildDatabase, Action<()>),
    ) -> (Self, Action<()>) {
        let db = rebuilt.0.db;
        match rebuilt.1 {
            Action::Perform(request) => (
                MakeConsistent { db, stripe, stage: ConsistencyStage::Rebuild(rebuilt.0) },
                Action::Perform(request),
            ),
            Action::Finished(Ok(())) => Self::in_sync(db, stripe),
            Action::Finished(Err(error)) => Self::ended(db, stripe, Err(error)),
        }
    }

    /// How the operation goes on once the keyspaces are at the same main-chain tip as the tapes.
    pub open spec fn in_sync(db: BlockchainDatabase, stripe: Stripe) -> (Self, Action<()>) {
        if db.pruning_seed != PruningSeed::NotPruned && !db.prunable_tip {
            Self::ended(db, stripe, Err(BlockchainError::MissingPrunableTip))
        } else if db.config.prune && db.pruning_seed == PruningSeed::NotPruned {
            Self::pruning(stripe, EnablePruning::started(db, stripe))
        } else {
            Self::ended(db, stripe, Ok(()))
        }
    }

    /// How the operation goes on when the activation of pruning has got so far.
    pub open spec fn pruning(
        stripe: Stripe,
        pruned: (EnablePruning, Action<()>),
    ) -> (Self, Action<()>) {
        let db = pruned.0.db;
        match pruned.1 {
            Action::Perform(request) => (
                MakeConsistent { db, stripe, stage: ConsistencyStage::Prune(pruned.0) },
                Action::Perform(request),
            ),
            Action::Finished(result) => Self::ended(db, stripe, result),
        }
    }

    fn start(db: &BlockchainDatabase, stripe: Stripe) -> (start: (Self, Action<()>))
        requires
            db.wf(),
            is_stripe(stripe.number()),
        ensures
            start == Self::started(*db, stripe),
            start.0.ready(),
    {
        (
            MakeConsistent { db: *db, stripe, stage: ConsistencyStage::Snapshots },
            Action::Perform(Request::TakeSnapshots),
        )
    }

    fn end(
        db: BlockchainDatabase,
        stripe: Stripe,
        result: Result<(), BlockchainError>,
    ) -> (next: (Self, Action<()>))
        requires
            db.wf(),
            is_stripe(stripe.number()),
        ensures
            next == Self::ended(db, stripe, result),
            next.0.ready(),
    {
        (
            MakeConsistent { db, stripe, stage: ConsistencyStage::Over },
            Action::Finished(result),
        )
    }

    fn follow_tips(
        db: BlockchainDatabase,
        stripe: Stripe,
        compared: (TipsMatch, Action<bool>),
    ) -> (next: (Self, Action<()>))
        requires
            db.wf(),
            is_stripe(stripe.number()),
            compared.0.ready(),
        ensures
            next == Self::comparing(db, stripe, compared),
            next.0.ready(),
    {
        match compared.1 {
            Action::Perform(request) => (
                MakeConsistent { db, stripe, stage: ConsistencyStage::Tips(compared.0) },
                Action::Perform(request),
            ),
            Action::Finished(Ok(true)) => Self::check_pruning(db, stripe),
            Action::Finished(Ok(false)) => Self::follow_rebuild(
                stripe,
                db.rebuild_fjall_database(),
            ),
            Action::Finished(Err(error)) => Self::end(db, stripe, Err(error)),
        }
    }

    fn follow_rebuild(
        stripe: Stripe,
        rebuilt: (RebuildDatabase, Action<()>),
    ) -> (next: (Self, Action<()>))
        requires
            is_stripe(stripe.number()),
            rebuilt.0.ready(),
        ensures
            next == Self::rebuilding(stripe, rebuilt),
            next.0.ready(),
    {
        let db = rebuilt.0.db;
        match rebuilt.1 {
            Action::Perform(request) => (
                MakeConsistent { db, stripe, stage: ConsistencyStage::Rebuild(rebuilt.0) },
                Action::Perform(request),
            ),
            Action::Finished(Ok(())) => Self::check_pruning(db, stripe),
            Action::Finished(Err(error)) => Self::end(db, stripe, Err(error)),
        }
    }

    fn check_pruning(db: BlockchainDatabase, stripe: Stripe) -> (next: (Self, Action<()>))
        requires
            db.wf(),
            is_stripe(stripe.number()),
        ensures
            next == Self::in_sync(db, stripe),
            next.0.ready(),
    {
        if db.pruning_seed != PruningSeed::NotPruned && !db.prunable_tip {
            return Self::end(db, stripe, Err(BlockchainError::MissingPrunableTip));
        }
        if db.config.prune && db.pruning_seed == PruningSeed::NotPruned {
            return Self::follow_pruning(stripe, EnablePruning::start(&db, stripe));
        }
        Self::end(db, stripe, Ok(()))
    }

    fn follow_pruning(
        stripe: Stripe,
        pruned: (EnablePruning, Action<()>),
    ) -> (next: (Self, Action<()>))
        requires
            is_stripe(stripe.number()),
            pruned.0.ready(),
        ensures
            next == Self::pruning(stripe, pruned),
            next.0.ready(),
    {
        let db = pruned.0.db;
        match pruned.1 {
            Action::Perform(request) => (
                MakeConsistent { db, stripe, stage: ConsistencyStage::Prune(pruned.0) },
                Action::Perform(request),
            ),
            Action::Finished(result) => Self::end(db, stripe, result),
        }
    }
}

impl BlockchainDatabase {
    /// Starts to bring the database into the state that it should be in. If the node is to be
    /// pruned, it is pruned on a random stripe.
    pub fn make_consistent(&self) -> (start: (MakeConsistent, Action<()>))
        requires
            self.wf(),
        ensures
            start.0.stripe.random(),
            is_stripe(start.0.stripe.number()),
            start == MakeConsistent::started(*self, start.0.stripe),
            start.0.ready(),
    {
        MakeConsistent::start(self, random_stripe())
    }

    /// Starts to bring the database into the state that it should be in. If the node is to be
    /// pruned, it is pruned on this stripe.
    pub fn make_consistent_on(&self, stripe: u32) -> (start: (MakeConsistent, Action<()>))
        requires
            self.wf(),
            is_stripe(stripe),
        ensures
            start == MakeConsistent::started(*self, Stripe::Named(stripe)),
            start.0.ready(),
    {
        MakeConsistent::start(self, Stripe::Named(stripe))
    }
}

impl Operation<()> for MakeConsistent {
    open spec fn ready(&self) -> bool {
        &&& self.db.wf()
        &&& is_stripe(self.stripe.number())
        &&& match self.stage {
            ConsistencyStage::Tips(tips) => tips.ready(),
            ConsistencyStage::Rebuild(rebuild) => rebuild.ready() && rebuild.db == self.db,
            ConsistencyStage::Prune(prune) => prune.ready() && prune.db == self.db,
            _ => true,
        }
    }

    open spec fn next(self, reply: Reply) -> Option<(Self, Action<()>)> {
        let db = self.db;
        let stripe = self.stripe;
        match (self.stage, reply) {
            (ConsistencyStage::Over, _) => None,
            (ConsistencyStage::Tips(tips), _) => match tips.next(reply) {
                Some(compared) => Some(Self::comparing(db, stripe, compared)),
                None => None,
            },
            (ConsistencyStage::Rebuild(rebuild), _) => match rebuild.next(reply) {
                Some(rebuilt) => Some(Self::rebuilding(stripe, rebuilt)),
                None => None,
            },
            (ConsistencyStage::Prune(prune), _) => match prune.next(reply) {
                Some(pruned) => Some(Self::pruning(stripe, pruned)),
                None => None,
            },
            (ConsistencyStage::Snapshots, Reply::Done) => Some(
                Self::comparing(db, stripe, TipsMatch::started()),
            ),
            (ConsistencyStage::Snapshots, Reply::Failed) => Some(
                Self::ended(db, stripe, Err(BlockchainError::Storage)),
            ),
            _ => None,
        }
    }

    open spec fn rank(&self) -> nat {
        let prune = EnablePruning::started(self.db, self.stripe).0.rank();
        let rebuild = RebuildDatabase::started(self.db).0.rank();
        match self.stage {
            ConsistencyStage::Snapshots => prune + rebuild + 6,
            ConsistencyStage::Tips(tips) => prune + rebuild + 2 + tips.rank(),
            ConsistencyStage::Rebuild(rebuild) => prune + 2 + rebuild.rank(),
            ConsistencyStage::Prune(prune) => 1 + prune.rank(),
            ConsistencyStage::Over => 0,
        }
    }

    proof fn lemma_goes_on(self, reply: Reply) {
        match self.stage {
            ConsistencyStage::Tips(tips) => {
                tips.lemma_goes_on(reply);
            },
            ConsistencyStage::Rebuild(rebuild) => {
                rebuild.lemma_goes_on(reply);
            },
            ConsistencyStage::Prune(prune) => {
                prune.lemma_goes_on(reply);
            },
            _ => {},
        }
    }

    fn step(self, reply: Reply) -> (outcome: Option<(Self, Action<()>)>) {
        proof {
            self.lemma_goes_on(reply);
        }
        let db = self.db;
        let stripe = self.stripe;
        match (self.stage, reply) {
            (ConsistencyStage::Over, _) => None,
            (ConsistencyStage::Tips(tips), reply) => match tips.step(reply) {
                Some(compared) => Some(Self::follow_tips(db, stripe, compared)),
                None => None,
            },
            (ConsistencyStage::Rebuild(rebuild), reply) => match rebuild.step(reply) {
                Some(rebuilt) => Some(Self::follow_rebuild(stripe, rebuilt)),
                None => None,
            },
            (ConsistencyStage::Prune(prune), reply) => match prune.step(reply) {
                Some(pruned) => Some(Self::follow_pruning(stripe, pruned)),
                None => None,
            },
            (ConsistencyStage::Snapshots, Reply::Done) => Some(
                Self::follow_tips(db, stripe, TipsMatch::tips_match()),
            ),
            (ConsistencyStage::Snapshots, Reply::Failed) => Some(
                Self::end(db, stripe, Err(BlockchainError::Storage)),
            ),
            _ => None,
        }
    }
}

} // verus!
