//! Conversion of an IPv4 network mask into a CIDR prefix length.

use vstd::arithmetic::power2::{lemma2_to64, pow2};
use vstd::prelude::*;

verus! {

/// Bit `i` of `v`, counted from the least significant bit, as `0` or `1`.
pub open spec fn bit_at(v: u8, i: int) -> u8 {
    ((v as nat / pow2(i as nat)) % 2) as u8
}

/// The eight bits of `v`, least significant first: element `i` is bit `i`.
pub fn to_bits(v: u8) -> (bits: [u8; 8])
    ensures
        forall|i: int| 0 <= i < 8 ==> bits[i] == bit_at(v, i),
{
    let mut bits: [u8; 8] = [0u8; 8];
    let mut x: usize = 0;
    while x < 8
        invariant
            x <= 8,
            forall|i: int| 8 - x <= i < 8 ==> bits[i] == bit_at(v, i),
        decreases 8 - x,
    {
        let b: u8 = (v << x) >> 7;
        assert(b == bit_at(v, 7 - x)) by {
            lemma_top_bit_after_shift(v, x as u8);
        }
        bits[7 - x] = b;
        x = x + 1;
    }
    bits
}

proof fn lemma_top_bit_after_shift(v: u8, x: u8)
    requires
        x < 8,
    ensures
        ((v << x) >> 7u8) == bit_at(v, 7 - x),
{
    assert(x < 8 ==> ((v << x) >> 7u8) == (v >> (7u8 - x) as u8) & 1u8) by (bit_vector);
    lemma_bit_at_is_shift(v, (7 - x) as u8);
}

/// The arithmetic reading of a bit agrees with the machine's: bit `i` of `v`
/// is `v` shifted right by `i` and masked with `1`.
pub proof fn lemma_bit_at_is_shift(v: u8, i: u8)
    requires
        i < 8,
    ensures
        bit_at(v, i as int) == (v >> i) & 1u8,
{
    lemma2_to64();
    assert(((v >> i) & 1u8) == (v >> i) % 2u8) by (bit_vector);
    assert(v >> 0u8 == v / 1u8) by (bit_vector);
    assert(v >> 1u8 == v / 2u8) by (bit_vector);
    assert(v >> 2u8 == v / 4u8) by (bit_vector);
    assert(v >> 3u8 == v / 8u8) by (bit_vector);
    assert(v >> 4u8 == v / 16u8) by (bit_vector);
    assert(v >> 5u8 == v / 32u8) by (bit_vector);
    assert(v >> 6u8 == v / 64u8) by (bit_vector);
    assert(v >> 7u8 == v / 128u8) by (bit_vector);
}

/// Bit `k` of a four-octet mask in network order: bit `0` is the most
/// significant bit of octet `0`, bit `31` the least significant of octet `3`.
pub open spec fn mask_bit(octets: Seq<u8>, k: int) -> bool {
    bit_at(octets[k / 8], 7 - k % 8) == 1
}

/// `p` is the number of leading one-bits of the mask: every bit before
/// position `p` is set, and bit `p`, where there is one, is clear.
pub open spec fn is_prefix_length(octets: Seq<u8>, p: int) -> bool {
    &&& 0 <= p <= 32
    &&& forall|k: int| 0 <= k < p ==> mask_bit(octets, k)
    &&& p < 32 ==> !mask_bit(octets, p)
}

/// The number of consecutive one-bits of the mask starting at position `k`.
pub open spec fn leading_ones_from(octets: Seq<u8>, k: int) -> nat
    decreases 32 - k,
{
    if k < 0 || k >= 32 || !mask_bit(octets, k) {
        0
    } else {
        1 + leading_ones_from(octets, k + 1)
    }
}

/// The CIDR prefix length of a mask: its count of leading one-bits. Bits
/// after the first zero-bit play no part.
pub open spec fn prefix_length(octets: Seq<u8>) -> nat {
    leading_ones_from(octets, 0)
}

/// Counts the leading one-bits of a network mask, scanning octet `0` first
/// and each octet from its most significant bit; stops at the first zero-bit.
pub fn get_netmask_bit_count(ipv4: [u8; 4]) -> (count: u8)
    ensures
        count == prefix_length(ipv4@),
        is_prefix_length(ipv4@, count as int),
{
    let mut count: u8 = 0;
    let mut i: usize = 0;
    while i < 4
        invariant
            i <= 4,
            count == 8 * i,
            forall|k: int| 0 <= k < 8 * i ==> mask_bit(ipv4@, k),
        decreases 4 - i,
    {
        let bits: [u8; 8] = to_bits(ipv4[i]);
        let mut j: usize = 0;
        while j < 8
            invariant
                i < 4,
                j <= 8,
                count == 8 * i + j,
                forall|b: int| 0 <= b < 8 ==> bits[b] == bit_at(ipv4@[i as int], b),
                forall|k: int| 0 <= k < 8 * i + j ==> mask_bit(ipv4@, k),
            decreases 8 - j,
        {
            let ghost k: int = 8 * i + j;
            assert(k / 8 == i && k % 8 == j);
            if bits[7 - j] == 1 {
                count = count + 1;
            } else {
                proof {
                    lemma_prefix_length_unique(ipv4@, k);
                }
                return count;
            }
            j = j + 1;
        }
        i = i + 1;
    }
    proof {
        lemma_prefix_length_unique(ipv4@, 32);
    }
    count
}

proof fn lemma_leading_ones_to_first_zero(octets: Seq<u8>, p: int, k: int)
    requires
        is_prefix_length(octets, p),
        0 <= k <= p,
    ensures
        leading_ones_from(octets, k) == p - k,
    decreases p - k,
{
    if k < p {
        lemma_leading_ones_to_first_zero(octets, p, k + 1);
    }
}

/// A mask has exactly one prefix length: whatever position satisfies
/// `is_prefix_length` is the value of `prefix_length`.
pub proof fn lemma_prefix_length_unique(octets: Seq<u8>, p: int)
    requires
        is_prefix_length(octets, p),
    ensures
        prefix_length(octets) == p,
{
    lemma_leading_ones_to_first_zero(octets, p, 0);
}

/// Every mask has a prefix length, and it is at most 32.
pub proof fn lemma_prefix_length_exists(octets: Seq<u8>)
    ensures
        is_prefix_length(octets, prefix_length(octets) as int),
{
    lemma_leading_ones_spec(octets, 0);
}

proof fn lemma_leading_ones_spec(octets: Seq<u8>, k: int)
    requires
        0 <= k <= 32,
    ensures
        k + leading_ones_from(octets, k) <= 32,
        forall|m: int| k <= m < k + leading_ones_from(octets, k) ==> mask_bit(octets, m),
        k + leading_ones_from(octets, k) < 32 ==> !mask_bit(
            octets,
            k + leading_ones_from(octets, k),
        ),
    decreases 32 - k,
{
    if k < 32 && mask_bit(octets, k) {
        lemma_leading_ones_spec(octets, k + 1);
    }
}

/// A contiguous mask of prefix length `p`, that is one whose bit `k` is set
/// exactly when `k < p`, converts to `p`, for every `p` from 0 to 32.
pub proof fn lemma_contiguous_mask_gives_its_prefix(octets: Seq<u8>, p: int)
    requires
        0 <= p <= 32,
        forall|k: int| 0 <= k < 32 ==> (mask_bit(octets, k) <==> k < p),
    ensures
        prefix_length(octets) == p,
{
    lemma_prefix_length_unique(octets, p);
}

/// The conversion truncates at the first zero-bit: two masks that agree up to
/// and including the first zero-bit of one of them have the same prefix
/// length, whatever bits follow.
pub proof fn lemma_bits_after_first_zero_ignored(a: Seq<u8>, b: Seq<u8>)
    requires
        forall|k: int| 0 <= k <= prefix_length(a) && k < 32 ==> mask_bit(a, k) == mask_bit(b, k),
    ensures
        prefix_length(b) == prefix_length(a),
{
    lemma_prefix_length_exists(a);
    lemma_prefix_length_unique(b, prefix_length(a) as int);
}

} // verus!
