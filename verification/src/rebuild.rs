//! Building the keyspaces anew.

use vstd::prelude::*;

use crate::layout::{
    chain_keyspace, chain_keyspaces, default_keyspace_options, KeyspaceOptions, CHAIN_KEYSPACES,
};
use crate::operation::Operation;
use crate::replay::ReplayTapes;
use crate::request::{Action, BlockchainError, Reply, Request};
use crate::state::BlockchainDatabase;

verus! {

/// What [`RebuildDatabase`] waits for.
#[derive(Debug)]
pub enum RebuildStage {
    /// The keyspace at this index of those that every node opens.
    Recreate(usize),
    /// The replay of the tapes.
    Replay(ReplayTapes),
    /// There is nothing left to do.
    Over,
}

/// Empties every keyspace but `prunable_tip`, and replays the tapes into those that are derived
/// from them. The alt blocks, which never reach the tapes, are dropped.
///
/// `prunable_tip` is out of the database while the replay runs, which would overwrite its entries
/// with empty blobs. It goes back even if the replay fails.
#[derive(Debug)]
pub struct RebuildDatabase {
    /// The database.
    pub db: BlockchainDatabase,
    /// Whether it had a `prunable_tip` keyspace.
    pub prunable_tip: bool,
    /// What is waited for.
    pub stage: RebuildStage,
}

impl RebuildDatabase {
    /// Where the rebuild starts.
    pub open spec fn started(db: BlockchainDatabase) -> (Self, Action<()>) {
        Self::recreating(db, 0)
    }

    /// Recreates the keyspace at `index` of those that every node opens, and then takes
    /// `prunable_tip` out and replays the tapes.
    pub open spec fn recreating(db: BlockchainDatabase, index: int) -> (Self, Action<()>) {
        if index < CHAIN_KEYSPACES {
            (
                RebuildDatabase {
                    db,
                    prunable_tip: db.prunable_tip,
                    stage: RebuildStage::Recreate(index as usize),
                },
                Action::Perform(
                    Request::RecreateKeyspace {
                        keyspace: chain_keyspaces()[index],
                        options: default_keyspace_options(),
                    },
                ),
            )
        } else {
            Self::replaying(db, db.prunable_tip, ReplayTapes::started())
        }
    }

    /// How the rebuild goes on when the replay has got so far.
    pub open spec fn replaying(
        db: BlockchainDatabase,
        prunable_tip: bool,
        replayed: (ReplayTapes, Action<()>),
    ) -> (Self, Action<()>) {
        match replayed.1 {
            Action::Perform(request) => (
                RebuildDatabase {
                    db: BlockchainDatabase { prunable_tip: false, ..db },
                    prunable_tip,
                    stage: RebuildStage::Replay(replayed.0),
                },
                Action::Perform(request),
            ),
            Action::Finished(result) => (
                RebuildDatabase {
                    db: BlockchainDatabase { prunable_tip, ..db },
                    prunable_tip,
                    stage: RebuildStage::Over,
                },
                Action::Finished(result),
            ),
        }
    }

    fn recreate(db: BlockchainDatabase, index: usize) -> (next: (Self, Action<()>))
        requires
            db.wf(),
            index <= CHAIN_KEYSPACES,
        ensures
            next == Self::recreating(db, index as int),
            next.0.ready(),
    {
        if index < CHAIN_KEYSPACES {
            (
                RebuildDatabase {
                    db,
                    prunable_tip: db.prunable_tip,
                    stage: RebuildStage::Recreate(index),
                },
                Action::Perform(
                    Request::RecreateKeyspace {
                        keyspace: chain_keyspace(index),
                        options: KeyspaceOptions { kv_separation: None },
                    },
                ),
            )
        } else {
            Self::follow(db, db.prunable_tip, ReplayTapes::replay_tapes_into_fjall())
        }
    }

    fn follow(
        db: BlockchainDatabase,
        prunable_tip: bool,
        replayed: (ReplayTapes, Action<()>),
    ) -> (next: (Self, Action<()>))
        requires
            db.wf(),
            replayed.0.ready(),
        ensures
            next == Self::replaying(db, prunable_tip, replayed),
            next.0.ready(),
    {
        match replayed.1 {
            Action::Perform(request) => (
                RebuildDatabase {
                    db: BlockchainDatabase { prunable_tip: false, ..db },
                    prunable_tip,
                    stage: RebuildStage::Replay(replayed.0),
                },
                Action::Perform(request),
            ),
            Action::Finished(result) => (
                RebuildDatabase {
                    db: BlockchainDatabase { prunable_tip, ..db },
                    prunable_tip,
                    stage: RebuildStage::Over,
                },
                Action::Finished(result),
            ),
        }
    }
}

impl BlockchainDatabase {
    /// Starts to build the keyspaces anew.
    ///
    /// This does not fill `prunable_tip`.
    pub fn rebuild_fjall_database(&self) -> (start: (RebuildDatabase, Action<()>))
        requires
            self.wf(),
        ensures
            start == RebuildDatabase::started(*self),
            start.0.ready(),
    {
        RebuildDatabase::recreate(*self, 0)
    }
}

impl Operation<()> for RebuildDatabase {
    open spec fn ready(&self) -> bool {
        &&& self.db.wf()
        &&& match self.stage {
            RebuildStage::Recreate(index) => index < CHAIN_KEYSPACES,
            RebuildStage::Replay(replay) => replay.ready(),
            RebuildStage::Over => true,
        }
    }

    open spec fn next(self, reply: Reply) -> Option<(Self, Action<()>)> {
        match (self.stage, reply) {
            (RebuildStage::Over, _) => None,
            (RebuildStage::Replay(replay), _) => match replay.next(reply) {
                Some(replayed) => Some(Self::replaying(self.db, self.prunable_tip, replayed)),
                None => None,
            },
            (RebuildStage::Recreate(index), Reply::Done) => Some(
                Self::recreating(self.db, index + 1),
            ),
            (RebuildStage::Recreate(_), Reply::Failed) => Some(
                (
                    RebuildDatabase { stage: RebuildStage::Over, ..self },
                    Action::Finished(Err(BlockchainError::Storage)),
                ),
            ),
            _ => None,
        }
    }

    open spec fn rank(&self) -> nat {
        match self.stage {
            RebuildStage::Recreate(index) => (ReplayTapes::started().0.rank() + 1 + CHAIN_KEYSPACES
                - index) as nat,
            RebuildStage::Replay(replay) => replay.rank() + 1,
            RebuildStage::Over => 0,
        }
    }

    proof fn lemma_goes_on(self, reply: Reply) {
        match self.stage {
            RebuildStage::Replay(replay) => {
                replay.lemma_goes_on(reply);
            },
            _ => {},
        }
    }

    fn step(self, reply: Reply) -> (outcome: Option<(Self, Action<()>)>) {
        proof {
            self.lemma_goes_on(reply);
        }
        let db = self.db;
        let prunable_tip = self.prunable_tip;
        match (self.stage, reply) {
            (RebuildStage::Over, _) => None,
            (RebuildStage::Replay(replay), reply) => match replay.step(reply) {
                Some(replayed) => Some(Self::follow(db, prunable_tip, replayed)),
                None => None,
            },
            (RebuildStage::Recreate(index), Reply::Done) => Some(Self::recreate(db, index + 1)),
            (RebuildStage::Recreate(_), Reply::Failed) => Some(
                (
                    RebuildDatabase { db, prunable_tip, stage: RebuildStage::Over },
                    Action::Finished(Err(BlockchainError::Storage)),
                ),
            ),
            _ => None,
        }
    }
}

} // verus!
