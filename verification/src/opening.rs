//! Opening the database.

use vstd::prelude::*;

use crate::encoding::{byte_range, le_value, lemma_le_round_trip, u32_from_le_bytes};
use crate::layout::{
    chain_keyspace, chain_keyspaces, common_tape, common_tapes, default_keyspace_options,
    first_tape, lemma_first_tape, next_tape, options_of_prunable_tip, options_of_tape,
    prunable_tip_options, seed_bytes, tape_options, Config, Keyspace, KeyspaceOptions, Tape,
    TapeDir, CHAIN_KEYSPACES, COMMON_TAPES, PRUNABLE_TAPES,
};
use crate::operation::Operation;
use crate::pruning::{lemma_seed_round_trip, DecompressedPruningSeed, PruningSeed};
use crate::request::{Action, BlockchainError, Reply, Request};
use crate::state::BlockchainDatabase;

verus! {

/// The number of bytes that a seed takes in the `tapes_metadata` tape.
pub const SEED_SIZE: usize = 4;

/// What [`OpenDatabase`] waits for.
#[derive(Debug)]
pub enum OpenStage {
    /// The keyspace at this index of those that every node opens.
    Keyspace(usize),
    /// Whether there is a `prunable_tip` keyspace.
    TipExists,
    /// That keyspace.
    Tip,
    /// The tapes database.
    Tapes,
    /// The append transaction that the tapes are opened in.
    Begin,
    /// The tape at this index of those that every node opens.
    Tape(usize),
    /// The length of the `tapes_metadata` tape.
    SeedLen,
    /// The seed that the tape holds.
    Seed,
    /// The prunable tape at this index.
    Prunable(usize),
    /// The commit of that transaction.
    Commit,
    /// The deletion of the prunable tape at this index.
    Delete(usize),
    /// There is nothing left to do.
    Over,
}

/// Opens what is on disk.
///
/// The seed that is committed to the tapes decides which prunable tapes are opened: every one
/// while there is no seed, and then only the one of the stripe that is kept. The others are
/// deleted, which does nothing unless an activation of pruning was interrupted.
///
/// It is not checked that the key-value store agrees with the tapes, nor is the node pruned
/// because the configuration says so.
#[derive(Debug)]
pub struct OpenDatabase {
    /// The configuration.
    pub config: Config,
    /// Whether there is a `prunable_tip` keyspace.
    pub prunable_tip: bool,
    /// The seed that is committed to the tapes.
    pub seed: PruningSeed,
    /// What is waited for.
    pub stage: OpenStage,
}

/// The seed that the bytes of the `tapes_metadata` tape hold. None for bytes that only a corrupt
/// tape can hold.
pub open spec fn seed_of_bytes(bytes: Seq<u8>) -> Option<PruningSeed> {
    if bytes.len() == SEED_SIZE {
        match PruningSeed::decompressed(le_value(bytes) as u32) {
            Ok(seed) => Some(seed),
            Err(_) => None,
        }
    } else {
        None
    }
}

/// Reading back the bytes that a seed is stored as gives the seed, but for the seed of the only
/// stripe of one, whose number is that of a node that is not pruned.
pub proof fn lemma_seed_is_read_back(seed: PruningSeed)
    requires
        seed.valid(),
        seed != PruningSeed::Pruned(DecompressedPruningSeed { log_stripes: 0, stripe: 1 }),
    ensures
        seed_bytes(seed).len() == SEED_SIZE,
        seed_of_bytes(seed_bytes(seed)) == Some(seed),
{
    reveal_with_fuel(byte_range, 5);
    lemma_seed_round_trip(seed);
    lemma_le_round_trip(seed.compressed(), SEED_SIZE as nat);
}

/// The seed that the bytes of the `tapes_metadata` tape hold.
pub fn read_pruning_seed(bytes: &Vec<u8>) -> (seed: Option<PruningSeed>)
    ensures
        seed == seed_of_bytes(bytes@),
        seed matches Some(s) ==> s.valid(),
{
    if bytes.len() != SEED_SIZE {
        return None;
    }
    match PruningSeed::decompress(u32_from_le_bytes(bytes.as_slice())) {
        Ok(seed) => Some(seed),
        Err(_) => None,
    }
}

impl OpenDatabase {
    /// Where the opening starts.
    pub open spec fn started(config: Config) -> (Self, Action<BlockchainDatabase>) {
        OpenDatabase {
            config,
            prunable_tip: false,
            seed: PruningSeed::NotPruned,
            stage: OpenStage::Over,
        }.opening_keyspace(0)
    }

    /// This operation, waiting for something else.
    pub open spec fn at(self, stage: OpenStage) -> Self {
        OpenDatabase { stage, ..self }
    }

    /// Opens the keyspace at `index` of those that every node opens, and then asks for
    /// `prunable_tip`.
    pub open spec fn opening_keyspace(self, index: int) -> (Self, Action<BlockchainDatabase>) {
        if index < CHAIN_KEYSPACES {
            (
                self.at(OpenStage::Keyspace(index as usize)),
                Action::Perform(
                    Request::OpenKeyspace {
                        keyspace: chain_keyspaces()[index],
                        options: default_keyspace_options(),
                    },
                ),
            )
        } else {
            (
                self.at(OpenStage::TipExists),
                Action::Perform(Request::KeyspaceExists { keyspace: Keyspace::PrunableTip }),
            )
        }
    }

    /// Opens the tapes database.
    pub open spec fn opening_tapes(self) -> (Self, Action<BlockchainDatabase>) {
        (
            self.at(OpenStage::Tapes),
            Action::Perform(Request::OpenTapes { dir: TapeDir::Index }),
        )
    }

    /// Opens the tape at `index` of those that every node opens, and then asks for the seed.
    pub open spec fn opening_tape(self, index: int) -> (Self, Action<BlockchainDatabase>) {
        if index < COMMON_TAPES {
            let tape = common_tapes()[index];
            (
                self.at(OpenStage::Tape(index as usize)),
                Action::Perform(
                    Request::OpenTape {
                        tape,
                        options: options_of_tape(tape, self.config.cache_sizes),
                    },
                ),
            )
        } else {
            (
                self.at(OpenStage::SeedLen),
                Action::Perform(Request::TapeLen { tape: Tape::TapesMetadata }),
            )
        }
    }

    /// Opens the first prunable tape from `from` on that the seed keeps, and then commits.
    pub open spec fn opening_prunable(self, from: int) -> (Self, Action<BlockchainDatabase>) {
        let index = first_tape(self.seed, true, from);
        if index < PRUNABLE_TAPES {
            let tape = Tape::Prunable(index as usize);
            (
                self.at(OpenStage::Prunable(index as usize)),
                Action::Perform(
                    Request::OpenTape {
                        tape,
                        options: options_of_tape(tape, self.config.cache_sizes),
                    },
                ),
            )
        } else {
            (self.at(OpenStage::Commit), Action::Perform(Request::CommitTapes))
        }
    }

    /// Deletes the first prunable tape from `from` on that the seed does not keep, and is then
    /// over.
    pub open spec fn deleting(self, from: int) -> (Self, Action<BlockchainDatabase>) {
        let index = first_tape(self.seed, false, from);
        if index < PRUNABLE_TAPES {
            let tape = Tape::Prunable(index as usize);
            (
                self.at(OpenStage::Delete(index as usize)),
                Action::Perform(
                    Request::DeleteTape {
                        tape,
                        options: options_of_tape(tape, self.config.cache_sizes),
                    },
                ),
            )
        } else {
            (self.at(OpenStage::Over), Action::Finished(Ok(self.opened())))
        }
    }

    /// The database that was opened.
    pub open spec fn opened(self) -> BlockchainDatabase {
        BlockchainDatabase {
            config: self.config,
            pruning_seed: self.seed,
            prunable_tip: self.prunable_tip,
            closed_below: PRUNABLE_TAPES,
        }
    }

    fn open_keyspace(self, index: usize) -> (next: (Self, Action<BlockchainDatabase>))
        requires
            self.seed.valid(),
            index <= CHAIN_KEYSPACES,
        ensures
            next == self.opening_keyspace(index as int),
            next.0.ready(),
    {
        if index < CHAIN_KEYSPACES {
            (
                OpenDatabase { stage: OpenStage::Keyspace(index), ..self },
                Action::Perform(
                    Request::OpenKeyspace {
                        keyspace: chain_keyspace(index),
                        options: KeyspaceOptions { kv_separation: None },
                    },
                ),
            )
        } else {
            (
                OpenDatabase { stage: OpenStage::TipExists, ..self },
                Action::Perform(Request::KeyspaceExists { keyspace: Keyspace::PrunableTip }),
            )
        }
    }

    fn open_tape(self, index: usize) -> (next: (Self, Action<BlockchainDatabase>))
        requires
            self.seed.valid(),
            index <= COMMON_TAPES,
        ensures
            next == self.opening_tape(index as int),
            next.0.ready(),
    {
        if index < COMMON_TAPES {
            let tape = common_tape(index);
            let options = tape_options(tape, &self.config.cache_sizes);
            (
                OpenDatabase { stage: OpenStage::Tape(index), ..self },
                Action::Perform(Request::OpenTape { tape, options }),
            )
        } else {
            (
                OpenDatabase { stage: OpenStage::SeedLen, ..self },
                Action::Perform(Request::TapeLen { tape: Tape::TapesMetadata }),
            )
        }
    }

    /// Goes on with the prunable tapes that the seed tells to keep, from `from` on.
    fn open_prunable_tapes(self, from: usize) -> (next: (Self, Action<BlockchainDatabase>))
        requires
            self.seed.valid(),
            from <= PRUNABLE_TAPES,
        ensures
            next == self.opening_prunable(from as int),
            next.0.ready(),
    {
        let index: usize = next_tape(&self.seed, true, from);
        if index < PRUNABLE_TAPES {
            let tape = Tape::Prunable(index);
            let options = tape_options(tape, &self.config.cache_sizes);
            (
                OpenDatabase { stage: OpenStage::Prunable(index), ..self },
                Action::Perform(Request::OpenTape { tape, options }),
            )
        } else {
            (
                OpenDatabase { stage: OpenStage::Commit, ..self },
                Action::Perform(Request::CommitTapes),
            )
        }
    }

    /// Goes on with the prunable tapes that were left closed, from `from` on.
    fn delete_closed_tapes(self, from: usize) -> (next: (Self, Action<BlockchainDatabase>))
        requires
            self.seed.valid(),
            from <= PRUNABLE_TAPES,
        ensures
            next == self.deleting(from as int),
            next.0.ready(),
    {
        let index: usize = next_tape(&self.seed, false, from);
        if index < PRUNABLE_TAPES {
            let tape = Tape::Prunable(index);
            let options = tape_options(tape, &self.config.cache_sizes);
            (
                OpenDatabase { stage: OpenStage::Delete(index), ..self },
                Action::Perform(Request::DeleteTape { tape, options }),
            )
        } else {
            let db = BlockchainDatabase {
                config: self.config,
                pruning_seed: self.seed,
                prunable_tip: self.prunable_tip,
                closed_below: PRUNABLE_TAPES,
            };
            (OpenDatabase { stage: OpenStage::Over, ..self }, Action::Finished(Ok(db)))
        }
    }
}

impl BlockchainDatabase {
    /// Starts to open the database.
    pub fn open_with_fjall_database(config: &Config) -> (start: (
        OpenDatabase,
        Action<BlockchainDatabase>,
    ))
        ensures
            start == OpenDatabase::started(*config),
            start.0.ready(),
    {
        OpenDatabase {
            config: *config,
            prunable_tip: false,
            seed: PruningSeed::NotPruned,
            stage: OpenStage::Over,
        }.open_keyspace(0)
    }
}

impl Operation<BlockchainDatabase> for OpenDatabase {
    open spec fn ready(&self) -> bool {
        &&& self.seed.valid()
        &&& match self.stage {
            OpenStage::Keyspace(index) => index < CHAIN_KEYSPACES,
            OpenStage::Tape(index) => index < COMMON_TAPES,
            OpenStage::Prunable(index) => index < PRUNABLE_TAPES,
            OpenStage::Delete(index) => index < PRUNABLE_TAPES,
            _ => true,
        }
    }

    open spec fn next(self, reply: Reply) -> Option<(Self, Action<BlockchainDatabase>)> {
        match (self.stage, reply) {
            (OpenStage::Over, _) => None,
            (_, Reply::Failed) => Some(
                (self.at(OpenStage::Over), Action::Finished(Err(BlockchainError::Storage))),
            ),
            (OpenStage::Keyspace(index), Reply::Done) => Some(self.opening_keyspace(index + 1)),
            (OpenStage::TipExists, Reply::Exists(exists)) => if exists {
                Some(
                    (
                        self.at(OpenStage::Tip),
                        Action::Perform(
                            Request::OpenKeyspace {
                                keyspace: Keyspace::PrunableTip,
                                options: options_of_prunable_tip(),
                            },
                        ),
                    ),
                )
            } else {
                Some(self.opening_tapes())
            },
            (OpenStage::Tip, Reply::Done) => Some(
                OpenDatabase { prunable_tip: true, ..self }.opening_tapes(),
            ),
            (OpenStage::Tapes, Reply::Done) => Some(
                (self.at(OpenStage::Begin), Action::Perform(Request::BeginAppend)),
            ),
            (OpenStage::Begin, Reply::Done) => Some(self.opening_tape(0)),
            (OpenStage::Tape(index), Reply::Done) => Some(self.opening_tape(index + 1)),
            (OpenStage::SeedLen, Reply::Len(len)) => if len is None || len == Some(0u64) {
                Some(self.opening_prunable(0))
            } else {
                Some(
                    (
                        self.at(OpenStage::Seed),
                        Action::Perform(
                            Request::ReadBytes {
                                tape: Tape::TapesMetadata,
                                offset: 0,
                                len: SEED_SIZE,
                            },
                        ),
                    ),
                )
            },
            (OpenStage::Seed, Reply::Bytes(bytes)) => match seed_of_bytes(bytes@) {
                Some(seed) => Some(OpenDatabase { seed, ..self }.opening_prunable(0)),
                None => None,
            },
            (OpenStage::Prunable(index), Reply::Done) => Some(self.opening_prunable(index + 1)),
            (OpenStage::Commit, Reply::Done) => Some(self.deleting(0)),
            (OpenStage::Delete(index), Reply::Done) => Some(self.deleting(index + 1)),
            _ => None,
        }
    }

    open spec fn rank(&self) -> nat {
        (match self.stage {
            OpenStage::Keyspace(index) => 41 - index,
            OpenStage::TipExists => 29,
            OpenStage::Tip => 28,
            OpenStage::Tapes => 27,
            OpenStage::Begin => 26,
            OpenStage::Tape(index) => 25 - index,
            OpenStage::SeedLen => 19,
            OpenStage::Seed => 18,
            OpenStage::Prunable(index) => 17 - index,
            OpenStage::Commit => 9,
            OpenStage::Delete(index) => 8 - index,
            OpenStage::Over => 0,
        }) as nat
    }

    proof fn lemma_goes_on(self, reply: Reply) {
        match self.stage {
            OpenStage::SeedLen => {
                lemma_first_tape(self.seed, true, 0);
            },
            OpenStage::Seed => match reply {
                Reply::Bytes(bytes) => match seed_of_bytes(bytes@) {
                    Some(seed) => {
                        lemma_first_tape(seed, true, 0);
                    },
                    None => {},
                },
                _ => {},
            },
            OpenStage::Prunable(index) => {
                lemma_first_tape(self.seed, true, index + 1);
            },
            OpenStage::Commit => {
                lemma_first_tape(self.seed, false, 0);
            },
            OpenStage::Delete(index) => {
                lemma_first_tape(self.seed, false, index + 1);
            },
            _ => {},
        }
    }

    fn step(self, reply: Reply) -> (outcome: Option<(Self, Action<BlockchainDatabase>)>) {
        proof {
            self.lemma_goes_on(reply);
        }
        match (&self.stage, reply) {
            (OpenStage::Over, _) => None,
            (_, Reply::Failed) => Some(
                (
                    OpenDatabase { stage: OpenStage::Over, ..self },
                    Action::Finished(Err(BlockchainError::Storage)),
                ),
            ),
            (OpenStage::Keyspace(index), Reply::Done) => {
                let index: usize = *index;
                Some(self.open_keyspace(index + 1))
            },
            (OpenStage::TipExists, Reply::Exists(exists)) => {
                if exists {
                    let options = prunable_tip_options();
                    Some(
                        (
                            OpenDatabase { stage: OpenStage::Tip, ..self },
                            Action::Perform(
                                Request::OpenKeyspace { keyspace: Keyspace::PrunableTip, options },
                            ),
                        ),
                    )
                } else {
                    Some(
                        (
                            OpenDatabase { stage: OpenStage::Tapes, ..self },
                            Action::Perform(Request::OpenTapes { dir: TapeDir::Index }),
                        ),
                    )
                }
            },
            (OpenStage::Tip, Reply::Done) => Some(
                (
                    OpenDatabase { prunable_tip: true, stage: OpenStage::Tapes, ..self },
                    Action::Perform(Request::OpenTapes { dir: TapeDir::Index }),
                ),
            ),
            (OpenStage::Tapes, Reply::Done) => Some(
                (
                    OpenDatabase { stage: OpenStage::Begin, ..self },
                    Action::Perform(Request::BeginAppend),
                ),
            ),
            (OpenStage::Begin, Reply::Done) => Some(self.open_tape(0)),
            (OpenStage::Tape(index), Reply::Done) => {
                let index: usize = *index;
                Some(self.open_tape(index + 1))
            },
            (OpenStage::SeedLen, Reply::Len(len)) => {
                if len.unwrap_or(0) == 0 {
                    Some(self.open_prunable_tapes(0))
                } else {
                    Some(
                        (
                            OpenDatabase { stage: OpenStage::Seed, ..self },
                            Action::Perform(
                                Request::ReadBytes {
                                    tape: Tape::TapesMetadata,
                                    offset: 0,
                                    len: SEED_SIZE,
                                },
                            ),
                        ),
                    )
                }
            },
            (OpenStage::Seed, Reply::Bytes(bytes)) => match read_pruning_seed(&bytes) {
                Some(seed) => Some(OpenDatabase { seed, ..self }.open_prunable_tapes(0)),
                None => None,
            },
            (OpenStage::Prunable(index), Reply::Done) => {
                let index: usize = *index;
                Some(self.open_prunable_tapes(index + 1))
            },
            (OpenStage::Commit, Reply::Done) => Some(self.delete_closed_tapes(0)),
            (OpenStage::Delete(index), Reply::Done) => {
                let index: usize = *index;
                Some(self.delete_closed_tapes(index + 1))
            },
            _ => None,
        }
    }
}

} // verus!
