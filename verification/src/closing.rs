//! Closing the database.

use vstd::prelude::*;

use crate::operation::Operation;
use crate::request::{Action, Reply, Request};
use crate::state::BlockchainDatabase;

verus! {

/// Pushes what was written to the disk before the database goes away: the keyspaces first, and
/// then the tapes. A failure of either is ignored, and does not keep the other from being tried.
#[derive(Clone, Copy, Debug, PartialEq, Eq, Structural)]
pub enum CloseDatabase {
    /// Waits for the keyspaces.
    Persist,
    /// Waits for an append transaction.
    Begin,
    /// Waits for its commit.
    Commit,
    /// There is nothing left to do.
    Over,
}

impl CloseDatabase {
    /// Where the closing starts.
    pub open spec fn started() -> (Self, Action<()>) {
        (CloseDatabase::Persist, Action::Perform(Request::PersistKeyspaces))
    }
}

impl BlockchainDatabase {
    /// Starts to push what was written to the disk.
    pub fn close(&self) -> (start: (CloseDatabase, Action<()>))
        ensures
            start == CloseDatabase::started(),
            start.0.ready(),
    {
        (CloseDatabase::Persist, Action::Perform(Request::PersistKeyspaces))
    }
}

impl Operation<()> for CloseDatabase {
    open spec fn ready(&self) -> bool {
        true
    }

    open spec fn next(self, reply: Reply) -> Option<(Self, Action<()>)> {
        match (self, reply) {
            (CloseDatabase::Persist, Reply::Done | Reply::Failed) => Some(
                (CloseDatabase::Begin, Action::Perform(Request::BeginAppend)),
            ),
            (CloseDatabase::Begin, Reply::Done) => Some(
                (CloseDatabase::Commit, Action::Perform(Request::CommitTapes)),
            ),
            (CloseDatabase::Begin, Reply::Failed) => Some(
                (CloseDatabase::Over, Action::Finished(Ok(()))),
            ),
            (CloseDatabase::Commit, Reply::Done | Reply::Failed) => Some(
                (CloseDatabase::Over, Action::Finished(Ok(()))),
            ),
            _ => None,
        }
    }

    open spec fn rank(&self) -> nat {
        match self {
            CloseDatabase::Persist => 3,
            CloseDatabase::Begin => 2,
            CloseDatabase::Commit => 1,
            CloseDatabase::Over => 0,
        }
    }

    proof fn lemma_goes_on(self, reply: Reply) {
    }

    fn step(self, reply: Reply) -> (outcome: Option<(Self, Action<()>)>) {
        proof {
            self.lemma_goes_on(reply);
        }
        match (self, reply) {
            (CloseDatabase::Persist, Reply::Done | Reply::Failed) => Some(
                (CloseDatabase::Begin, Action::Perform(Request::BeginAppend)),
            ),
            (CloseDatabase::Begin, Reply::Done) => Some(
                (CloseDatabase::Commit, Action::Perform(Request::CommitTapes)),
            ),
            (CloseDatabase::Begin, Reply::Failed) => Some(
                (CloseDatabase::Over, Action::Finished(Ok(()))),
            ),
            (CloseDatabase::Commit, Reply::Done | Reply::Failed) => Some(
                (CloseDatabase::Over, Action::Finished(Ok(()))),
            ),
            _ => None,
        }
    }
}

} // verus!
