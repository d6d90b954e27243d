//! What an open database knows of itself.

use vstd::prelude::*;

use crate::layout::{keeps, keeps_tape, Config, PRUNABLE_TAPES};
use crate::pruning::PruningSeed;

verus! {

/// The blockchain database, as far as it lives in memory and its operations decide by it.
#[derive(Clone, Copy, Debug, PartialEq, Eq, Structural)]
pub struct BlockchainDatabase {
    /// The configuration.
    pub config: Config,
    /// The seed that is committed to the tapes.
    pub pruning_seed: PruningSeed,
    /// Whether there is a `prunable_tip` keyspace to write to and read from.
    pub prunable_tip: bool,
    /// How far the deletion of the prunable tapes that the seed does not keep has got: those
    /// below this index are closed.
    pub closed_below: usize,
}

impl BlockchainDatabase {
    /// What holds of every open database.
    pub open spec fn wf(self) -> bool {
        &&& self.pruning_seed.valid()
        &&& self.closed_below <= PRUNABLE_TAPES
    }

    /// Whether the prunable tape at `index` is open.
    pub open spec fn tape_open(self, index: int) -> bool {
        keeps_tape(self.pruning_seed, index) || index >= self.closed_below
    }

    /// The seed that is committed to the tapes.
    pub fn pruning_seed(&self) -> (seed: PruningSeed)
        ensures
            seed == self.pruning_seed,
    {
        self.pruning_seed
    }

    /// Whether the prunable tape at `index` is open.
    pub fn is_tape_open(&self, index: usize) -> (open: bool)
        requires
            self.wf(),
        ensures
            open == self.tape_open(index as int),
    {
        keeps(&self.pruning_seed, index) || index >= self.closed_below
    }
}

/// Every prunable tape is open while the node is not pruned.
pub proof fn lemma_unpruned_database_has_every_tape(db: BlockchainDatabase, index: int)
    requires
        db.wf(),
        db.pruning_seed == PruningSeed::NotPruned,
        0 <= index < PRUNABLE_TAPES,
    ensures
        db.tape_open(index),
{
}

} // verus!
