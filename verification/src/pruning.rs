//! Pruning seeds and stripes.
//!
//! The chain is cut into groups of consecutive blocks, and the groups are dealt out to stripes in
//! turn. A pruned node keeps the prunable data of one stripe, and names that stripe in its seed.

use vstd::prelude::*;

verus! {

/// The base 2 logarithm of the number of stripes that pruned nodes use.
pub const CRYPTONOTE_PRUNING_LOG_STRIPES: u32 = 3;

/// The number of consecutive blocks that belong to one stripe before the next stripe starts.
pub const CRYPTONOTE_PRUNING_STRIPE_SIZE: usize = 4096;

/// The number of blocks at the top of the chain that no node prunes.
pub const CRYPTONOTE_PRUNING_TIP_BLOCKS: usize = 5500;

/// The largest base 2 logarithm of a number of stripes that a seed can carry.
pub const MAX_LOG_STRIPES: u32 = 7;

/// Why a pruning seed was refused.
#[derive(Clone, Copy, Debug, PartialEq, Eq, Structural)]
pub enum PruningError {
    /// The logarithm of the number of stripes does not fit in a seed.
    LogStripesOutOfRange,
    /// There is no such stripe.
    StripeOutOfRange,
}

/// The stripe that a pruned node keeps, out of `2^log_stripes` of them.
#[derive(Clone, Copy, Debug, PartialEq, Eq, Structural)]
pub struct DecompressedPruningSeed {
    /// The base 2 logarithm of the number of stripes.
    pub log_stripes: u32,
    /// The stripe that is kept, counted from one.
    pub stripe: u32,
}

/// Whether a node is pruned, and on which stripe.
#[derive(Clone, Copy, Debug, PartialEq, Eq, Structural)]
pub enum PruningSeed {
    /// The node keeps one stripe.
    Pruned(DecompressedPruningSeed),
    /// The node keeps everything.
    NotPruned,
}

/// `2^log_stripes`, for the logarithms that a seed can carry.
pub open spec fn stripe_count(log_stripes: u32) -> nat {
    if log_stripes == 0 {
        1
    } else if log_stripes == 1 {
        2
    } else if log_stripes == 2 {
        4
    } else if log_stripes == 3 {
        8
    } else if log_stripes == 4 {
        16
    } else if log_stripes == 5 {
        32
    } else if log_stripes == 6 {
        64
    } else {
        128
    }
}

impl DecompressedPruningSeed {
    /// The stripe is one of the stripes that there are.
    pub open spec fn valid(self) -> bool {
        &&& self.log_stripes <= MAX_LOG_STRIPES
        &&& 1 <= self.stripe <= stripe_count(self.log_stripes)
    }
}

impl PruningSeed {
    /// A seed that can be stored and sent.
    pub open spec fn valid(self) -> bool {
        match self {
            PruningSeed::Pruned(seed) => seed.valid(),
            PruningSeed::NotPruned => true,
        }
    }

    /// The stripe that the seed names.
    pub open spec fn stripe(self) -> Option<u32> {
        match self {
            PruningSeed::Pruned(seed) => Some(seed.stripe),
            PruningSeed::NotPruned => None,
        }
    }

    /// The seed as one number: the stripe counted from zero in the low seven bits, the logarithm
    /// of the number of stripes above them, and zero for a node that is not pruned.
    pub open spec fn compressed(self) -> nat {
        match self {
            PruningSeed::Pruned(seed) => (seed.log_stripes * 128 + seed.stripe - 1) as nat,
            PruningSeed::NotPruned => 0,
        }
    }

    /// The seed that a number stands for, or why it stands for none.
    pub open spec fn decompressed(number: u32) -> Result<PruningSeed, PruningError> {
        let log_stripes = (number / 128) % 8;
        let stripe = (number % 128 + 1) as u32;
        if number == 0 {
            Ok(PruningSeed::NotPruned)
        } else if stripe > stripe_count(log_stripes) {
            Err(PruningError::StripeOutOfRange)
        } else {
            Ok(PruningSeed::Pruned(DecompressedPruningSeed { log_stripes, stripe }))
        }
    }

    /// The seed for the stripe `stripe` out of `2^log_stripes`, or why there is none.
    pub open spec fn of_stripe(stripe: u32, log_stripes: u32) -> Result<
        PruningSeed,
        PruningError,
    > {
        if log_stripes > MAX_LOG_STRIPES {
            Err(PruningError::LogStripesOutOfRange)
        } else if !(1 <= stripe <= stripe_count(log_stripes)) {
            Err(PruningError::StripeOutOfRange)
        } else {
            Ok(PruningSeed::Pruned(DecompressedPruningSeed { log_stripes, stripe }))
        }
    }

    /// A seed for the stripe `stripe` out of `2^log_stripes`.
    pub fn new_pruned(stripe: u32, log_stripes: u32) -> (seed: Result<Self, PruningError>)
        ensures
            seed == Self::of_stripe(stripe, log_stripes),
            seed matches Ok(s) ==> s.valid(),
    {
        if log_stripes > MAX_LOG_STRIPES {
            return Err(PruningError::LogStripesOutOfRange);
        }
        proof {
            lemma_shift_is_stripe_count(log_stripes);
        }
        if !(stripe > 0 && stripe <= 1u32 << log_stripes) {
            return Err(PruningError::StripeOutOfRange);
        }
        Ok(PruningSeed::Pruned(DecompressedPruningSeed { log_stripes, stripe }))
    }

    /// Reads a seed from its compressed number.
    pub fn decompress(number: u32) -> (seed: Result<Self, PruningError>)
        ensures
            seed == Self::decompressed(number),
            seed matches Ok(s) ==> s.valid(),
    {
        if number == 0 {
            return Ok(PruningSeed::NotPruned);
        }
        proof {
            assert((number >> 7) & 7 == (number / 128) % 8 && (number & 127) == number % 128)
                by (bit_vector);
        }
        let log_stripes: u32 = (number >> 7) & 7;
        let stripe: u32 = 1 + (number & 127);
        proof {
            lemma_shift_is_stripe_count(log_stripes);
        }
        if stripe > 1u32 << log_stripes {
            return Err(PruningError::StripeOutOfRange);
        }
        Ok(PruningSeed::Pruned(DecompressedPruningSeed { log_stripes, stripe }))
    }

    /// Writes the seed as one number.
    pub fn compress(&self) -> (number: u32)
        requires
            self.valid(),
        ensures
            number == self.compressed(),
    {
        match self {
            PruningSeed::Pruned(seed) => {
                let log_stripes: u32 = seed.log_stripes;
                let index: u32 = seed.stripe - 1;
                proof {
                    assert((log_stripes << 7) | index == log_stripes * 128 + index) by (bit_vector)
                        requires
                            log_stripes <= 7,
                            index <= 127,
                    ;
                }
                (log_stripes << 7) | index
            },
            PruningSeed::NotPruned => 0,
        }
    }

    /// The stripe that the seed names.
    pub fn get_stripe(&self) -> (stripe: Option<u32>)
        ensures
            stripe == self.stripe(),
    {
        match self {
            PruningSeed::Pruned(seed) => Some(seed.stripe),
            PruningSeed::NotPruned => None,
        }
    }
}

proof fn lemma_shift_is_stripe_count(log_stripes: u32)
    requires
        log_stripes <= MAX_LOG_STRIPES,
    ensures
        1u32 << log_stripes == stripe_count(log_stripes),
{
    assert(1u32 << 0u32 == 1 && 1u32 << 1u32 == 2 && 1u32 << 2u32 == 4 && 1u32 << 3u32 == 8
        && 1u32 << 4u32 == 16 && 1u32 << 5u32 == 32 && 1u32 << 6u32 == 64 && 1u32 << 7u32 == 128)
        by (bit_vector);
}

/// Decompressing a compressed seed gives the seed back, but for the seed of the only stripe of
/// one, whose number is that of a node that is not pruned.
pub proof fn lemma_seed_round_trip(seed: PruningSeed)
    requires
        seed.valid(),
        seed != PruningSeed::Pruned(DecompressedPruningSeed { log_stripes: 0, stripe: 1 }),
    ensures
        seed.compressed() <= u32::MAX,
        PruningSeed::decompressed(seed.compressed() as u32) == Ok::<_, PruningError>(seed),
{
}

/// The stripe that the block at `block_height` belongs to, in a chain of `blockchain_height`
/// blocks, or none for a block that is still in the part of the chain that nobody prunes.
pub open spec fn block_pruning_stripe(
    block_height: nat,
    blockchain_height: nat,
    log_stripes: u32,
) -> Option<nat> {
    if block_height + CRYPTONOTE_PRUNING_TIP_BLOCKS >= blockchain_height {
        None
    } else {
        Some((block_height / CRYPTONOTE_PRUNING_STRIPE_SIZE as nat) % stripe_count(log_stripes) + 1)
    }
}

/// The stripe that a block belongs to, none for a block that nobody prunes yet.
pub fn get_block_pruning_stripe(
    block_height: usize,
    blockchain_height: usize,
    log_stripes: u32,
) -> (stripe: Option<u32>)
    requires
        block_height + CRYPTONOTE_PRUNING_TIP_BLOCKS <= usize::MAX,
        log_stripes <= MAX_LOG_STRIPES,
    ensures
        match stripe {
            Some(s) => block_pruning_stripe(
                block_height as nat,
                blockchain_height as nat,
                log_stripes,
            ) == Some(s as nat),
            None => block_pruning_stripe(
                block_height as nat,
                blockchain_height as nat,
                log_stripes,
            ) is None,
        },
        stripe matches Some(s) ==> 1 <= s <= stripe_count(log_stripes),
{
    if block_height + CRYPTONOTE_PRUNING_TIP_BLOCKS >= blockchain_height {
        None
    } else {
        let group: usize = block_height / CRYPTONOTE_PRUNING_STRIPE_SIZE;
        proof {
            lemma_shift_is_stripe_count(log_stripes);
        }
        let count: usize = (1u32 << log_stripes) as usize;
        Some((group % count) as u32 + 1)
    }
}

} // verus!
