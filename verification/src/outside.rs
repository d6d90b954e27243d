//! The outside functions that the database calls, each with what is claimed of it.

use vstd::prelude::*;

use monero_oxide::block::Block;
use monero_oxide::transaction::{Pruned, Transaction};
use rand::Rng;

verus! {

/// Whether `blob` starts with the serialization of a pruned transaction, as
/// [`Transaction::read`] judges it on a machine whose `usize` has so many bits. The height in a
/// transaction that mines a block has to fit in a `usize`.
pub uninterp spec fn reads_as_transaction(blob: Seq<u8>, word_bits: u32) -> bool;

/// The hash of the block whose serialization `blob` starts with, as [`Block::read`] reads it on a
/// machine whose `usize` has so many bits, and [`Block::hash`] computes it. None if there is no
/// such block.
pub uninterp spec fn hash_of_block(blob: Seq<u8>, word_bits: u32) -> Option<[u8; 32]>;

/// How many transactions the block lists whose serialization `blob` starts with, as
/// [`Block::read`] reads it on a machine whose `usize` has so many bits. None if there is no such
/// block.
pub uninterp spec fn tx_count_of_block(blob: Seq<u8>, word_bits: u32) -> Option<usize>;

/// Whether `blob` starts with the serialization of a pruned transaction, on this machine.
pub open spec fn is_transaction(blob: Seq<u8>) -> bool {
    reads_as_transaction(blob, usize::BITS)
}

/// The hash of the block that `blob` holds, on this machine.
pub open spec fn block_hash(blob: Seq<u8>) -> Option<[u8; 32]> {
    hash_of_block(blob, usize::BITS)
}

/// How many transactions the block lists that `blob` holds, on this machine. The one that mined
/// the block is not among them.
pub open spec fn block_tx_count(blob: Seq<u8>) -> Option<usize> {
    tx_count_of_block(blob, usize::BITS)
}

/// Whether [`Transaction::read`] reads a pruned transaction from `blob`.
///
/// The claim is that this depends on the bytes and the size of `usize` alone. Which bytes are a
/// transaction is left to the name.
#[verifier::external_body]
pub(crate) fn transaction_reads(blob: &[u8]) -> (reads: bool)
    ensures
        reads == reads_as_transaction(blob@, usize::BITS),
{
    let mut reader: &[u8] = blob;
    Transaction::<Pruned>::read(&mut reader).is_ok()
}

/// The hash that [`Block::hash`] computes of the block that [`Block::read`] reads from `blob`, if
/// it reads one.
///
/// The claim is that this depends on the bytes and the size of `usize` alone. Which hash it is, is
/// left to the name.
#[verifier::external_body]
pub(crate) fn hash_block(blob: &[u8]) -> (hash: Option<[u8; 32]>)
    ensures
        hash == hash_of_block(blob@, usize::BITS),
{
    let mut reader: &[u8] = blob;
    match Block::read(&mut reader) {
        Ok(block) => Some(block.hash()),
        Err(_) => None,
    }
}

/// The length of [`Block::transactions`], the hashes of the transactions of a block without the
/// one that mined it, for the block that [`Block::read`] reads from `blob`, if it reads one.
///
/// The claim is that this depends on the bytes and the size of `usize` alone. Which number it is,
/// is left to the name.
#[verifier::external_body]
pub(crate) fn count_block_txs(blob: &[u8]) -> (count: Option<usize>)
    ensures
        count == tx_count_of_block(blob@, usize::BITS),
{
    let mut reader: &[u8] = blob;
    match Block::read(&mut reader) {
        Ok(block) => Some(block.transactions.len()),
        Err(_) => None,
    }
}

/// A number that was drawn at random, with the bounds that it was drawn between.
///
/// Only [`random_between`] makes one, so a result that holds one was not chosen otherwise.
#[derive(Clone, Copy, Debug)]
pub struct Drawn {
    low: u32,
    high: u32,
    number: u32,
}

impl Drawn {
    /// The least number that could have been drawn.
    pub closed spec fn low(self) -> u32 {
        self.low
    }

    /// The greatest number that could have been drawn.
    pub closed spec fn high(self) -> u32 {
        self.high
    }

    /// The number that was drawn.
    pub closed spec fn number(self) -> u32 {
        self.number
    }

    /// The number that was drawn.
    pub fn get(&self) -> (number: u32)
        ensures
            number == self.number(),
    {
        self.number
    }
}

/// Two draws between the same bounds differ in nothing but the number.
pub proof fn lemma_draws_differ_by_number(a: Drawn, b: Drawn)
    requires
        a.low() == b.low(),
        a.high() == b.high(),
        a.number() == b.number(),
    ensures
        a == b,
{
}

/// Every number between the bounds is the number of some draw between them.
pub proof fn lemma_every_number_can_be_drawn(low: u32, high: u32, number: u32)
    requires
        low <= number <= high,
    ensures
        exists|drawn: Drawn|
            drawn.low() == low && drawn.high() == high && #[trigger] drawn.number() == number,
{
    let drawn = Drawn { low, high, number };
    assert(drawn.number() == number);
}

/// A random number between two bounds, from [`Rng::gen_range`] with the generator of the thread.
///
/// The claim is that it is one of the numbers from `low` to `high`, both included.
#[verifier::external_body]
pub(crate) fn random_between(low: u32, high: u32) -> (drawn: Drawn)
    requires
        low <= high,
    ensures
        drawn.low() == low,
        drawn.high() == high,
        low <= drawn.number() <= high,
{
    Drawn { low, high, number: rand::thread_rng().gen_range(low..=high) }
}

} // verus!
