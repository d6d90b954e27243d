//! Little-endian byte encodings of the integers that the database stores.

use vstd::prelude::*;

verus! {

/// The `width` least significant bytes of `value`, least significant first.
pub open spec fn le_bytes(value: nat, width: nat) -> Seq<u8>
    decreases width,
{
    if width == 0 {
        Seq::empty()
    } else {
        seq![(value % 256) as u8] + le_bytes(value / 256, (width - 1) as nat)
    }
}

/// The number that `bytes` encodes, least significant byte first.
pub open spec fn le_value(bytes: Seq<u8>) -> nat
    decreases bytes.len(),
{
    if bytes.len() == 0 {
        0
    } else {
        bytes[0] as nat + 256 * le_value(bytes.skip(1))
    }
}

/// How many numbers `width` bytes can encode.
pub open spec fn byte_range(width: nat) -> nat
    decreases width,
{
    if width == 0 {
        1
    } else {
        256 * byte_range((width - 1) as nat)
    }
}

/// Encoding takes exactly the width that was asked for, and decoding gives the number back, for
/// every number that the width can hold.
pub proof fn lemma_le_round_trip(value: nat, width: nat)
    requires
        value < byte_range(width),
    ensures
        le_bytes(value, width).len() == width,
        le_value(le_bytes(value, width)) == value,
    decreases width,
{
    if width > 0 {
        let bytes = le_bytes(value, width);
        lemma_le_round_trip(value / 256, (width - 1) as nat);
        assert(bytes.skip(1) =~= le_bytes(value / 256, (width - 1) as nat));
    }
}

/// Two numbers that the width can hold have the same encoding only if they are equal.
pub proof fn lemma_le_injective(a: nat, b: nat, width: nat)
    requires
        a < byte_range(width),
        b < byte_range(width),
        le_bytes(a, width) == le_bytes(b, width),
    ensures
        a == b,
{
    lemma_le_round_trip(a, width);
    lemma_le_round_trip(b, width);
}

/// The `width` least significant bytes of `value`, least significant first.
pub fn to_le_bytes(value: u64, width: usize) -> (bytes: Vec<u8>)
    ensures
        bytes@ == le_bytes(value as nat, width as nat),
{
    let mut bytes: Vec<u8> = Vec::new();
    let mut rest: u64 = value;
    let mut left: usize = width;
    while left > 0
        invariant
            left <= width,
            bytes@ + le_bytes(rest as nat, left as nat) == le_bytes(value as nat, width as nat),
        decreases left,
    {
        let ghost before = bytes@;
        bytes.push((rest % 256) as u8);
        proof {
            let tail = le_bytes(rest as nat / 256, (left - 1) as nat);
            assert(before + (seq![(rest % 256) as u8] + tail) =~= bytes@ + tail);
        }
        rest = rest / 256;
        left = left - 1;
    }
    proof {
        assert(bytes@ + Seq::<u8>::empty() =~= bytes@);
    }
    bytes
}

/// The number that four bytes encode, least significant byte first.
pub fn u32_from_le_bytes(bytes: &[u8]) -> (value: u32)
    requires
        bytes@.len() == 4,
    ensures
        value == le_value(bytes@),
{
    proof {
        reveal_with_fuel(le_value, 5);
        let s = bytes@;
        assert(s.skip(1).skip(1) =~= s.skip(2));
        assert(s.skip(2).skip(1) =~= s.skip(3));
        assert(s.skip(3).skip(1) =~= s.skip(4));
    }
    bytes[0] as u32 + 256 * (bytes[1] as u32) + 65536 * (bytes[2] as u32) + 16777216 * (
    bytes[3] as u32)
}

} // verus!
