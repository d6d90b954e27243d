//! Taking a pair of snapshots of the key-value store and the tapes that agree with each other.

use vstd::prelude::*;

use crate::operation::Operation;
use crate::request::{Action, BlockchainError, Reply, Request};
use crate::state::BlockchainDatabase;
use crate::tips::{TipsMatch, TIPS_MATCH_RETRIES, TIPS_MATCH_RETRY_DELAY};

verus! {

/// What [`ReadTransactions`] waits for.
#[derive(Debug)]
pub enum ReadStage {
    /// The pair of snapshots.
    Snapshots,
    /// The comparison of their tips.
    Tips(TipsMatch),
    /// The end of a pause.
    Pause,
    /// There is nothing left to do.
    Over,
}

/// Takes pairs of snapshots until the two of a pair are at the same main-chain tip.
///
/// A write commits the tapes before the key-value store, so a reader that lands between the two
/// commits gets a mismatched pair. Trying again gives the writer the time that it needs.
///
/// The outcome is whether the pair that was taken last agrees. If it does not, every try is used
/// up.
#[derive(Debug)]
pub struct ReadTransactions {
    /// How many tries are left, the current one included.
    pub tries: u64,
    /// What is waited for.
    pub stage: ReadStage,
}

impl ReadTransactions {
    /// Where the reading starts.
    pub open spec fn started() -> (Self, Action<bool>) {
        (
            ReadTransactions { tries: TIPS_MATCH_RETRIES, stage: ReadStage::Snapshots },
            Action::Perform(Request::TakeSnapshots),
        )
    }

    /// How the reading goes on when the comparison of the tips has got so far.
    pub open spec fn compared(self, compared: (TipsMatch, Action<bool>)) -> (Self, Action<bool>) {
        match compared.1 {
            Action::Perform(request) => (
                ReadTransactions { tries: self.tries, stage: ReadStage::Tips(compared.0) },
                Action::Perform(request),
            ),
            Action::Finished(Ok(false)) => (
                ReadTransactions { tries: self.tries, stage: ReadStage::Pause },
                Action::Perform(Request::Sleep { millis: TIPS_MATCH_RETRY_DELAY }),
            ),
            Action::Finished(result) => (
                ReadTransactions { tries: self.tries, stage: ReadStage::Over },
                Action::Finished(result),
            ),
        }
    }

    fn follow(tries: u64, compared: (TipsMatch, Action<bool>)) -> (next: (Self, Action<bool>))
        requires
            tries > 0,
            compared.0.ready(),
        ensures
            next == (ReadTransactions { tries, stage: ReadStage::Over }).compared(compared),
            next.0.ready(),
    {
        match compared.1 {
            Action::Perform(request) => (
                ReadTransactions { tries, stage: ReadStage::Tips(compared.0) },
                Action::Perform(request),
            ),
            Action::Finished(Ok(false)) => (
                ReadTransactions { tries, stage: ReadStage::Pause },
                Action::Perform(Request::Sleep { millis: TIPS_MATCH_RETRY_DELAY }),
            ),
            Action::Finished(result) => (
                ReadTransactions { tries, stage: ReadStage::Over },
                Action::Finished(result),
            ),
        }
    }
}

impl BlockchainDatabase {
    /// Starts to take a pair of snapshots at the same main-chain tip.
    pub fn read_transactions(&self) -> (start: (ReadTransactions, Action<bool>))
        ensures
            start == ReadTransactions::started(),
            start.0.ready(),
    {
        (
            ReadTransactions { tries: TIPS_MATCH_RETRIES, stage: ReadStage::Snapshots },
            Action::Perform(Request::TakeSnapshots),
        )
    }
}

impl Operation<bool> for ReadTransactions {
    open spec fn ready(&self) -> bool {
        self.tries > 0 || self.stage is Over
    }

    open spec fn next(self, reply: Reply) -> Option<(Self, Action<bool>)> {
        match (self.stage, reply) {
            (ReadStage::Over, _) => None,
            (ReadStage::Tips(tips), _) => match tips.next(reply) {
                Some(compared) => Some(self.compared(compared)),
                None => None,
            },
            (_, Reply::Failed) => Some(
                (
                    ReadTransactions { tries: self.tries, stage: ReadStage::Over },
                    Action::Finished(Err(BlockchainError::Storage)),
                ),
            ),
            (ReadStage::Snapshots, Reply::Done) => Some(self.compared(TipsMatch::started())),
            (ReadStage::Pause, Reply::Done) => if self.tries <= 1 {
                Some(
                    (
                        ReadTransactions { tries: 0, stage: ReadStage::Over },
                        Action::Finished(Ok(false)),
                    ),
                )
            } else {
                Some(
                    (
                        ReadTransactions {
                            tries: (self.tries - 1) as u64,
                            stage: ReadStage::Snapshots,
                        },
                        Action::Perform(Request::TakeSnapshots),
                    ),
                )
            },
            _ => None,
        }
    }

    open spec fn rank(&self) -> nat {
        match self.stage {
            ReadStage::Snapshots => (5 * self.tries) as nat,
            ReadStage::Tips(tips) => (5 * self.tries - 4 + tips.rank()) as nat,
            ReadStage::Pause => (5 * self.tries - 4) as nat,
            ReadStage::Over => 0,
        }
    }

    proof fn lemma_goes_on(self, reply: Reply) {
        match self.stage {
            ReadStage::Tips(tips) => {
                tips.lemma_goes_on(reply);
            },
            _ => {},
        }
    }

    fn step(self, reply: Reply) -> (outcome: Option<(Self, Action<bool>)>) {
        proof {
            self.lemma_goes_on(reply);
        }
        let tries: u64 = self.tries;
        match (self.stage, reply) {
            (ReadStage::Over, _) => None,
            (ReadStage::Tips(tips), reply) => match tips.step(reply) {
                Some(compared) => Some(Self::follow(tries, compared)),
                None => None,
            },
            (_, Reply::Failed) => Some(
                (
                    ReadTransactions { tries, stage: ReadStage::Over },
                    Action::Finished(Err(BlockchainError::Storage)),
                ),
            ),
            (ReadStage::Snapshots, Reply::Done) => Some(
                Self::follow(tries, TipsMatch::tips_match()),
            ),
            (ReadStage::Pause, Reply::Done) => if tries <= 1 {
                Some(
                    (
                        ReadTransactions { tries: 0, stage: ReadStage::Over },
                        Action::Finished(Ok(false)),
                    ),
                )
            } else {
                Some(
                    (
                        ReadTransactions { tries: tries - 1, stage: ReadStage::Snapshots },
                        Action::Perform(Request::TakeSnapshots),
                    ),
                )
            },
            _ => None,
        }
    }
}

} // verus!
