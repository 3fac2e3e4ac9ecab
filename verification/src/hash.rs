//! The 128-bit hash that the chain is built on.
//!
//! Two 64-bit outputs of RapidHash are joined: the low half hashes the data
//! with seed 0, and the high half hashes the little-endian bytes of the low
//! half, seeded with the low half itself.

use vstd::prelude::*;
use vstd::bytes::*;
use vstd::arithmetic::power2::*;
use vstd::std_specs::bits::*;
use std::hash::Hasher;

verus! {

/// A 128-bit hash value.
pub type Hash = u128;

/// What a RapidHash hasher that was created with `seed` returns after the
/// chunks were written to it one after another.
pub uninterp spec fn rapid_hash(seed: u64, chunks: Seq<Seq<u8>>) -> u64;

/// The views of a list of byte chunks.
pub open spec fn chunk_views(chunks: Seq<Vec<u8>>) -> Seq<Seq<u8>> {
    chunks.map_values(|c: Vec<u8>| c@)
}

/// Feeds the chunks, in order, to a fresh `rapidhash::RapidHasher` and
/// returns what it finishes with.
///
/// The hasher starts from `RapidHasher::new(seed)`, takes each chunk by one
/// call of `Hasher::write`, and is read by `Hasher::finish`.  The contract
/// names the result as a function of the seed and the chunks.
#[verifier::external_body]
fn rapid_hash_chunks(seed: u64, chunks: &Vec<Vec<u8>>) -> (h: u64)
    ensures
        h == rapid_hash(seed, chunk_views(chunks@)),
{
    let mut hasher = rapidhash::RapidHasher::new(seed);
    for chunk in chunks.iter() {
        hasher.write(chunk.as_slice());
    }
    hasher.finish()
}

/// The 128-bit value whose upper 64 bits are `high` and lower 64 bits `low`.
pub open spec fn join_halves(high: u64, low: u64) -> u128 {
    (high as u128 * 0x1_0000_0000_0000_0000u128 + low as u128) as u128
}

/// The 128-bit hash of a list of chunks.
pub open spec fn hash128(chunks: Seq<Seq<u8>>) -> Hash {
    let low = rapid_hash(0, chunks);
    let high = rapid_hash(low, seq![spec_u64_to_le_bytes(low)]);
    join_halves(high, low)
}

/// Joins two 64-bit halves into one 128-bit value.
pub fn join(high: u64, low: u64) -> (r: u128)
    ensures
        r == join_halves(high, low),
{
    let r = ((high as u128) << 64) | (low as u128);
    assert(((high as u128) << 64) | (low as u128) == (high as u128 * 0x1_0000_0000_0000_0000u128
        + low as u128) as u128) by (bit_vector);
    r
}

/// Computes the 128-bit hash of a list of chunks.
pub fn hash_chunks(chunks: &Vec<Vec<u8>>) -> (h: Hash)
    ensures
        h == hash128(chunk_views(chunks@)),
{
    let low = rapid_hash_chunks(0, chunks);
    let mut again: Vec<Vec<u8>> = Vec::new();
    again.push(u64_to_le_bytes(low));
    assert(chunk_views(again@) =~= seq![spec_u64_to_le_bytes(low)]);
    let high = rapid_hash_chunks(low, &again);
    join(high, low)
}

/// The number of zero bits above the highest set bit of a 128-bit value;
/// 128 for zero.
pub open spec fn leading_zeros_128(x: u128) -> int
    decreases x,
{
    if x == 0 {
        128
    } else {
        leading_zeros_128(x / 2) - 1
    }
}

/// Whether a hash has at least `difficulty` leading zero bits.
pub open spec fn meets_difficulty(hash: Hash, difficulty: u32) -> bool {
    leading_zeros_128(hash) >= difficulty
}

/// The count of leading zeros lies between 0 and 128, and is 128 only for
/// zero.
pub proof fn lemma_leading_zeros_bounds(x: u128)
    ensures
        0 <= leading_zeros_128(x) <= 128,
        x == 0 <==> leading_zeros_128(x) == 128,
    decreases x,
{
    lemma_leading_zeros_halves(x);
    axiom_u64_leading_zeros((x / 0x1_0000_0000_0000_0000u128) as u64);
    axiom_u64_leading_zeros((x % 0x1_0000_0000_0000_0000u128) as u64);
}

/// A 64-bit value of at least `2^k` has at most `63 - k` leading zeros.
proof fn lemma_leading_zeros_64_upper(y: u64, k: nat)
    requires
        k <= 63,
        y >= pow2(k),
    ensures
        u64_leading_zeros(y) <= 63 - k,
    decreases k,
{
    reveal(u64_leading_zeros);
    lemma2_to64();
    axiom_u64_leading_zeros((y / 2) as u64);
    if k > 0 {
        lemma_pow2_unfold(k);
        lemma_leading_zeros_64_upper((y / 2) as u64, (k - 1) as nat);
    }
}

/// The leading zeros of a 128-bit value are those of its upper half, or,
/// where that is zero, 64 more than those of its lower half.
proof fn lemma_leading_zeros_halves(x: u128)
    ensures
        leading_zeros_128(x) == if x / 0x1_0000_0000_0000_0000u128 != 0 {
            u64_leading_zeros((x / 0x1_0000_0000_0000_0000u128) as u64)
        } else {
            64 + u64_leading_zeros((x % 0x1_0000_0000_0000_0000u128) as u64)
        },
    decreases x,
{
    reveal(u64_leading_zeros);
    let high = (x / 0x1_0000_0000_0000_0000u128) as u64;
    let low = (x % 0x1_0000_0000_0000_0000u128) as u64;
    if x != 0 {
        let half = (x / 2) as u128;
        lemma_leading_zeros_halves(half);
        if high == 1 {
            let rest = (half % 0x1_0000_0000_0000_0000u128) as u64;
            lemma2_to64();
            lemma_pow2_unfold(64);
            lemma_leading_zeros_64_upper(rest, 63);
            axiom_u64_leading_zeros(rest);
            assert(u64_leading_zeros(0) == 64);
            assert(1u64 / 2 == 0);
        }
    }
}

/// Counts the leading zero bits of a 128-bit value.
pub fn leading_zeros(x: u128) -> (r: u32)
    ensures
        r == leading_zeros_128(x),
{
    let high = (x >> 64) as u64;
    let low = (x & 0xffff_ffff_ffff_ffffu128) as u64;
    assert((x >> 64) == x / 0x1_0000_0000_0000_0000u128) by (bit_vector);
    assert((x & 0xffff_ffff_ffff_ffffu128) == x % 0x1_0000_0000_0000_0000u128) by (bit_vector);
    proof {
        lemma_leading_zeros_halves(x);
        axiom_u64_leading_zeros(high);
        axiom_u64_leading_zeros(low);
    }
    if high != 0 {
        high.leading_zeros()
    } else {
        64 + low.leading_zeros()
    }
}

/// Checks that a hash has at least `difficulty` leading zero bits.
pub fn has_leading_zeros(hash: Hash, difficulty: u32) -> (r: bool)
    ensures
        r == meets_difficulty(hash, difficulty),
{
    leading_zeros(hash) >= difficulty
}

} // verus!
