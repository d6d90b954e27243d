//! Which stripe a block belongs to, and what number stands for a stripe.

use vstd::arithmetic::power2::{lemma2_to64, pow2};
use vstd::prelude::*;

use crate::encoding::{le_bytes, le_value};
use crate::fill::stripe_of_tx;
use crate::layout::{keeps_tape, seed_bytes, tip_key_bytes};
use crate::opening::seed_of_bytes;
use crate::pruning::{
    block_pruning_stripe, stripe_count, DecompressedPruningSeed, PruningError, PruningSeed,
    MAX_LOG_STRIPES,
};
use crate::request::TxInfo;
use crate::state::BlockchainDatabase;

verus! {

/// There are two to the power of the logarithm of stripes.
pub proof fn lemma_stripe_count(log_stripes: u32)
    requires
        log_stripes <= 7,
    ensures
        stripe_count(log_stripes) == pow2(log_stripes as nat),
{
    lemma2_to64();
}

/// The groups of 4096 blocks are dealt out to the stripes in turn, from the first stripe on, and
/// only the last 5500 blocks have no stripe yet.
pub proof fn lemma_stripe_of_block(height: nat, chain_height: nat, log_stripes: u32)
    requires
        log_stripes <= 7,
    ensures
        block_pruning_stripe(height, chain_height, log_stripes) is None <==> height + 5500
            >= chain_height,
        block_pruning_stripe(height, chain_height, log_stripes) matches Some(stripe) ==> {
            &&& 1 <= stripe <= pow2(log_stripes as nat)
            &&& exists|round: nat|
                4096 * (#[trigger] (round * pow2(log_stripes as nat)) + stripe - 1) <= height
                    < 4096 * (round * pow2(log_stripes as nat) + stripe)
        },
{
    lemma_stripe_count(log_stripes);
    match block_pruning_stripe(height, chain_height, log_stripes) {
        Some(stripe) => {
            let count = pow2(log_stripes as nat);
            let group = height / 4096;
            let round = group / count;
            vstd::arithmetic::div_mod::lemma_fundamental_div_mod(group as int, count as int);
            assert(round * count == count * round) by (nonlinear_arith);
            assert(group == round * count + stripe - 1);
        },
        None => {},
    }
}

/// The first block of the chain is in the first stripe.
pub proof fn lemma_first_block_is_in_first_stripe(chain_height: nat, log_stripes: u32)
    requires
        log_stripes <= 7,
        chain_height > 5500,
    ensures
        block_pruning_stripe(0, chain_height, log_stripes) == Some(1nat),
{
}

/// Two blocks of the same group are in the same stripe, however long the chain has become.
pub proof fn lemma_group_is_in_one_stripe(
    a: nat,
    b: nat,
    chain_height_a: nat,
    chain_height_b: nat,
    log_stripes: u32,
)
    requires
        log_stripes <= 7,
        a / 4096 == b / 4096,
        a + 5500 < chain_height_a,
        b + 5500 < chain_height_b,
    ensures
        block_pruning_stripe(a, chain_height_a, log_stripes) == block_pruning_stripe(
            b,
            chain_height_b,
            log_stripes,
        ),
{
}

/// The group after the one of a block is in the next stripe, and in the first after the last.
pub proof fn lemma_next_group_is_in_next_stripe(height: nat, chain_height: nat, log_stripes: u32)
    requires
        log_stripes <= 7,
        height + 4096 + 5500 < chain_height,
    ensures
        block_pruning_stripe(height, chain_height, log_stripes) matches Some(stripe)
            && block_pruning_stripe(height + 4096, chain_height, log_stripes) == Some(
            if stripe == pow2(log_stripes as nat) {
                1nat
            } else {
                stripe + 1
            },
        ),
{
    lemma_stripe_count(log_stripes);
    let group = (height / 4096) as int;
    let count = stripe_count(log_stripes) as int;
    assert((height + 4096) / 4096 == group + 1);
    vstd::arithmetic::div_mod::lemma_fundamental_div_mod(group, count);
    let round = group / count;
    if group % count == count - 1 {
        assert(group + 1 == count * (round + 1)) by (nonlinear_arith)
            requires
                group == count * round + count - 1,
        ;
        assert(count * (round + 1) == (round + 1) * count) by (nonlinear_arith);
        vstd::arithmetic::div_mod::lemma_fundamental_div_mod_converse(
            group + 1,
            count,
            round + 1,
            0,
        );
    } else {
        assert(count * round == round * count) by (nonlinear_arith);
        vstd::arithmetic::div_mod::lemma_fundamental_div_mod_converse(
            group + 1,
            count,
            round,
            group % count + 1,
        );
    }
}

/// On a node that prunes, a block is in one of eight stripes: that of its group, counted modulo
/// eight.
pub proof fn lemma_stripe_of_eight(height: nat, chain_height: nat)
    requires
        height + 5500 < chain_height,
    ensures
        block_pruning_stripe(height, chain_height, 3) == Some(((height / 4096) % 8 + 1) as nat),
{
}

/// A transaction has a stripe of eight at every height that a chain can reach, and it is that of
/// its group.
pub proof fn lemma_stripe_of_tx(info: TxInfo)
    ensures
        stripe_of_tx(info) == if info.height + 5500 < usize::MAX {
            Some(((info.height as nat / 4096) % 8 + 1) as nat)
        } else {
            None
        },
{
}

/// The number of a seed: 128 for each step of the logarithm, and the stripe counted from zero. A
/// node that is not pruned has the number zero, and so has no pruned node but one whose only
/// stripe is all there is.
pub proof fn lemma_number_of_seed(log_stripes: u32, stripe: u32)
    requires
        log_stripes <= 7,
        1 <= stripe <= pow2(log_stripes as nat),
    ensures
        ({
            let seed = PruningSeed::Pruned(DecompressedPruningSeed { log_stripes, stripe });
            &&& seed.valid()
            &&& seed.stripe() == Some(stripe)
            &&& seed.compressed() == 128 * log_stripes + stripe - 1
            &&& seed.compressed() < 1024
        }),
        PruningSeed::NotPruned.valid(),
        PruningSeed::NotPruned.stripe() is None,
        PruningSeed::NotPruned.compressed() == 0,
{
    lemma2_to64();
}

/// A seed is valid only if its stripe is one of two to the power of its logarithm, which is at most
/// seven.
pub proof fn lemma_valid_seed(seed: DecompressedPruningSeed)
    ensures
        MAX_LOG_STRIPES == 7,
        seed.valid() <==> seed.log_stripes <= 7 && 1 <= seed.stripe <= pow2(
            seed.log_stripes as nat,
        ),
        PruningSeed::Pruned(seed).valid() == seed.valid(),
{
    lemma2_to64();
}

/// There is a seed for a stripe if and only if it is one of two to the power of the logarithm,
/// which is at most seven. The logarithm is looked at first.
pub proof fn lemma_seed_of_stripe(stripe: u32, log_stripes: u32)
    ensures
        match PruningSeed::of_stripe(stripe, log_stripes) {
            Ok(seed) => {
                &&& log_stripes <= 7
                &&& 1 <= stripe <= pow2(log_stripes as nat)
                &&& seed == PruningSeed::Pruned(DecompressedPruningSeed { log_stripes, stripe })
            },
            Err(PruningError::LogStripesOutOfRange) => log_stripes > 7,
            Err(PruningError::StripeOutOfRange) => {
                &&& log_stripes <= 7
                &&& stripe == 0 || stripe > pow2(log_stripes as nat)
            },
        },
{
    lemma2_to64();
}

/// What a number stands for as a seed: zero for a node that is not pruned, and otherwise the low
/// seven bits for the stripe, counted from zero, and the next three for the logarithm. The bits
/// above them play no part. A stripe that there is not is refused.
pub proof fn lemma_seed_of_number(number: u32)
    ensures
        ({
            let index = number % 128;
            let log_stripes = (number / 128) % 8;
            PruningSeed::decompressed(number) == if number == 0 {
                Ok::<PruningSeed, PruningError>(PruningSeed::NotPruned)
            } else if index >= pow2(log_stripes as nat) {
                Err(PruningError::StripeOutOfRange)
            } else {
                Ok(
                    PruningSeed::Pruned(
                        DecompressedPruningSeed { log_stripes, stripe: (index + 1) as u32 },
                    ),
                )
            }
        }),
{
    lemma2_to64();
}

/// The bytes of a number, least significant first, are its digits to the base 256.
pub proof fn lemma_bytes_are_digits(value: nat, width: nat, index: nat)
    requires
        index < width,
    ensures
        le_bytes(value, width).len() == width,
        le_bytes(value, width)[index as int] == (value / pow2(8 * index)) % 256,
    decreases width,
{
    lemma_bytes_have_width(value, width);
    let rest = le_bytes(value / 256, (width - 1) as nat);
    if index == 0 {
        lemma2_to64();
        assert(value / 1 == value);
    } else {
        let below = (index - 1) as nat;
        lemma_bytes_are_digits(value / 256, (width - 1) as nat, below);
        assert(le_bytes(value, width)[index as int] == rest[below as int]);
        lemma2_to64();
        vstd::arithmetic::power2::lemma_pow2_adds(8, 8 * below);
        vstd::arithmetic::power2::lemma_pow2_pos(8 * below);
        vstd::arithmetic::div_mod::lemma_div_denominator(
            value as int,
            256,
            pow2(8 * below) as int,
        );
        assert(8 + 8 * below == 8 * index);
    }
}

/// As many bytes come out as were asked for.
proof fn lemma_bytes_have_width(value: nat, width: nat)
    ensures
        le_bytes(value, width).len() == width,
    decreases width,
{
    if width > 0 {
        lemma_bytes_have_width(value / 256, (width - 1) as nat);
    }
}

/// The number that bytes encode counts each byte 256 times as much as the one before it: the first
/// counts once, and one more byte at the end counts two to the power of eight times the number of
/// bytes before it.
pub proof fn lemma_value_of_bytes(bytes: Seq<u8>, last: u8)
    ensures
        le_value(Seq::empty()) == 0,
        le_value(bytes.push(last)) == le_value(bytes) + pow2(8 * bytes.len()) * last,
    decreases bytes.len(),
{
    lemma2_to64();
    if bytes.len() == 0 {
        assert(bytes.push(last).skip(1) =~= Seq::empty());
        assert(8 * bytes.len() == 0);
        assert(pow2(0) * last == last) by (nonlinear_arith)
            requires
                pow2(0) == 1,
        ;
        assert(le_value(bytes.push(last)) == last + 256 * le_value(bytes.push(last).skip(1)));
    } else {
        let rest = bytes.skip(1);
        lemma_value_of_bytes(rest, last);
        assert(bytes.push(last).skip(1) =~= rest.push(last));
        vstd::arithmetic::power2::lemma_pow2_adds(8, 8 * rest.len());
        assert(8 + 8 * rest.len() == 8 * bytes.len());
        let power = pow2(8 * rest.len());
        assert(256 * (power * last) == (256 * power) * last) by (nonlinear_arith);
    }
}

/// The bytes that a seed is stored as: its number in four bytes, the least significant first.
pub proof fn lemma_bytes_of_seed(log_stripes: u32, stripe: u32)
    requires
        log_stripes <= 7,
        1 <= stripe <= pow2(log_stripes as nat),
    ensures
        ({
            let number = (128 * log_stripes + stripe - 1) as nat;
            seed_bytes(
                PruningSeed::Pruned(DecompressedPruningSeed { log_stripes, stripe }),
            ) == seq![(number % 256) as u8, (number / 256) as u8, 0u8, 0u8]
        }),
{
    lemma_number_of_seed(log_stripes, stripe);
    reveal_with_fuel(le_bytes, 5);
    let number = (128 * log_stripes + stripe - 1) as nat;
    assert(number / 256 < 256);
    assert(seed_bytes(PruningSeed::Pruned(DecompressedPruningSeed { log_stripes, stripe }))
        =~= seq![(number % 256) as u8, (number / 256) as u8, 0u8, 0u8]);
}

/// What four stored bytes stand for as a seed. Other bytes than four stand for none.
pub proof fn lemma_seed_of_stored_bytes(bytes: Seq<u8>)
    ensures
        bytes.len() != 4 ==> seed_of_bytes(bytes) is None,
        bytes.len() == 4 ==> {
            let number = bytes[0] + 256 * bytes[1] + 65536 * bytes[2] + 16777216 * bytes[3];
            let index = number % 128;
            let log_stripes = (number / 128) % 8;
            seed_of_bytes(bytes) == if number == 0 {
                Some(PruningSeed::NotPruned)
            } else if index >= pow2(log_stripes as nat) {
                None
            } else {
                Some(
                    PruningSeed::Pruned(
                        DecompressedPruningSeed {
                            log_stripes: log_stripes as u32,
                            stripe: (index + 1) as u32,
                        },
                    ),
                )
            }
        },
{
    if bytes.len() == 4 {
        reveal_with_fuel(le_value, 5);
        assert(bytes.skip(1).skip(1) =~= bytes.skip(2));
        assert(bytes.skip(2).skip(1) =~= bytes.skip(3));
        assert(bytes.skip(3).skip(1) =~= bytes.skip(4));
        lemma_seed_of_number(le_value(bytes) as u32);
    }
}

/// The key of a transaction in `prunable_tip` is its ID in eight bytes, the least significant
/// first.
pub proof fn lemma_digits_of_tip_key(tx_id: u64, index: nat)
    requires
        index < 8,
    ensures
        tip_key_bytes(tx_id).len() == 8,
        tip_key_bytes(tx_id)[index as int] == (tx_id as nat / pow2(8 * index)) % 256,
{
    lemma_bytes_are_digits(tx_id as nat, 8, index);
}

/// A node that is not pruned keeps every prunable tape, and one that is keeps the tape that is
/// before its stripe, counting the tapes from zero and the stripes from one.
pub proof fn lemma_kept_tapes(seed: PruningSeed, index: int)
    ensures
        keeps_tape(seed, index) <==> match seed {
            PruningSeed::NotPruned => true,
            PruningSeed::Pruned(pruned) => pruned.stripe == index + 1,
        },
{
}

/// A prunable tape is open unless the node is pruned, the tape is not that of its stripe, and the
/// deletion has got past it.
pub proof fn lemma_open_tapes(db: BlockchainDatabase, index: int)
    ensures
        !db.tape_open(index) <==> {
            &&& db.pruning_seed matches PruningSeed::Pruned(pruned)
            &&& pruned.stripe != index + 1
            &&& index < db.closed_below
        },
{
}

} // verus!
