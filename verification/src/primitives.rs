//! Byte strings, 256-bit integers, hashing and the block identifiers shared by every module.

use vstd::prelude::*;

verus! {

/// A 256-bit hash.
pub type B256 = [u8; 32];

/// A 160-bit account address.
pub type Address = [u8; 20];

/// A 2048-bit log filter.
pub type Bloom = [u8; 256];

/// The hash whose bytes are all zero.
pub const ZERO_HASH: B256 = [
    0, 0, 0, 0, 0, 0, 0, 0, 0, 0, 0, 0, 0, 0, 0, 0, 0, 0, 0, 0, 0, 0, 0, 0, 0, 0, 0, 0, 0, 0, 0, 0,
];

/// The bytes of each member of a list of byte strings.
pub open spec fn bytes_of(items: Seq<Vec<u8>>) -> Seq<Seq<u8>> {
    items.map_values(|item: Vec<u8>| item@)
}

/// The bytes of an optional hash.
pub open spec fn opt_bytes(hash: Option<B256>) -> Option<Seq<u8>> {
    match hash {
        Some(h) => Some(h@),
        None => None,
    }
}

/// The big-endian representation of `n` in `width` bytes; the bytes that do not fit are dropped.
pub open spec fn be_bytes(n: nat, width: nat) -> Seq<u8>
    decreases width,
{
    if width == 0 {
        Seq::empty()
    } else {
        be_bytes(n / 256, (width - 1) as nat).push((n % 256) as u8)
    }
}

/// The number that a big-endian byte string stands for.
pub open spec fn be_value(bytes: Seq<u8>) -> nat
    decreases bytes.len(),
{
    if bytes.len() == 0 {
        0
    } else {
        be_value(bytes.drop_last()) * 256 + bytes.last() as nat
    }
}

/// The number of values that `width` bytes can hold.
pub open spec fn byte_range(width: nat) -> nat
    decreases width,
{
    if width == 0 {
        1
    } else {
        256 * byte_range((width - 1) as nat)
    }
}

/// A big-endian representation has the width that was asked for.
pub proof fn lemma_be_bytes_len(n: nat, width: nat)
    ensures
        be_bytes(n, width).len() == width,
    decreases width,
{
    if width > 0 {
        lemma_be_bytes_len(n / 256, (width - 1) as nat);
    }
}

/// Reading back a big-endian representation gives the number, if it fits the width.
pub proof fn law_be_value_reads_be_bytes(n: nat, width: nat)
    requires
        n < byte_range(width),
    ensures
        be_value(be_bytes(n, width)) == n,
    decreases width,
{
    if width > 0 {
        let shorter = (width - 1) as nat;
        assert(n / 256 < byte_range(shorter));
        law_be_value_reads_be_bytes(n / 256, shorter);
        assert(be_bytes(n, width).drop_last() =~= be_bytes(n / 256, shorter));
    }
}

/// Every byte string is the big-endian representation of the number that it stands for.
pub proof fn law_be_bytes_of_be_value(bytes: Seq<u8>)
    ensures
        be_bytes(be_value(bytes), bytes.len()) == bytes,
    decreases bytes.len(),
{
    if bytes.len() > 0 {
        let shorter = bytes.drop_last();
        law_be_bytes_of_be_value(shorter);
        assert((be_value(shorter) * 256 + bytes.last() as nat) / 256 == be_value(shorter));
        assert(be_bytes(be_value(bytes), bytes.len()) =~= bytes);
    } else {
        assert(bytes =~= Seq::empty());
    }
}

/// A big-endian representation is that of the high part followed by that of the low part.
pub proof fn lemma_be_bytes_split(high: nat, low: nat, width: nat, k: nat)
    requires
        low < byte_range(k),
    ensures
        be_bytes(high * byte_range(k) + low, width + k) == be_bytes(high, width) + be_bytes(low, k),
    decreases k,
{
    if k == 0 {
        assert(be_bytes(high, width) + be_bytes(low, 0) =~= be_bytes(high, width));
    } else {
        let shorter = (k - 1) as nat;
        let r = byte_range(shorter);
        let n = high * byte_range(k) + low;
        assert(high * (256 * r) == 256 * (high * r)) by (nonlinear_arith);
        assert(n / 256 == high * r + low / 256);
        assert(n % 256 == low % 256);
        lemma_be_bytes_split(high, low / 256, width, shorter);
        assert(be_bytes(n, width + k) =~= be_bytes(high, width) + be_bytes(low, k));
    }
}

/// Only the part of a number that fits the width is represented.
pub proof fn lemma_be_bytes_mod(n: nat, width: nat)
    ensures
        be_bytes(n, width) == be_bytes(n % byte_range(width), width),
    decreases width,
{
    lemma_byte_range_positive(width);
    let range = byte_range(width);
    let high = n / range;
    let low = n % range;
    assert(n == high * range + low) by (nonlinear_arith)
        requires
            range > 0,
            high == n / range,
            low == n % range,
    ;
    if width > 0 {
        let shorter = (width - 1) as nat;
        let r = byte_range(shorter);
        assert(high * (256 * r) == 256 * (high * r)) by (nonlinear_arith);
        assert(n % 256 == low % 256);
        assert(n / 256 == high * r + low / 256);
        lemma_be_bytes_mod(n / 256, shorter);
        lemma_byte_range_positive(shorter);
        assert(high * r == r * high) by (nonlinear_arith);
        vstd::arithmetic::div_mod::lemma_mod_multiples_vanish(
            high as int,
            (low / 256) as int,
            r as int,
        );
        lemma_be_bytes_mod(low / 256, shorter);
    }
}

/// A width holds at least one value.
pub proof fn lemma_byte_range_positive(width: nat)
    ensures
        byte_range(width) > 0,
    decreases width,
{
    if width > 0 {
        lemma_byte_range_positive((width - 1) as nat);
    }
}

/// The four big-endian bytes of `x`.
pub fn u32_to_be_bytes(x: u32) -> (r: [u8; 4])
    ensures
        r@ == be_bytes(x as nat, 4),
{
    let r: [u8; 4] = [
        (x / 0x1000000) as u8,
        ((x / 0x10000) % 256) as u8,
        ((x / 0x100) % 256) as u8,
        (x % 256) as u8,
    ];
    proof {
        reveal_with_fuel(be_bytes, 5);
        let n = x as nat;
        assert(n / 256 / 256 == n / 0x10000);
        assert(n / 256 / 256 / 256 == n / 0x1000000);
        assert(r@ =~= be_bytes(n, 4));
    }
    r
}

/// The eight big-endian bytes of `x`.
pub fn u64_to_be_bytes(x: u64) -> (r: [u8; 8])
    ensures
        r@ == be_bytes(x as nat, 8),
{
    let high: u32 = (x / 0x1_0000_0000) as u32;
    let low: u32 = (x % 0x1_0000_0000) as u32;
    let h = u32_to_be_bytes(high);
    let l = u32_to_be_bytes(low);
    let r: [u8; 8] = [h[0], h[1], h[2], h[3], l[0], l[1], l[2], l[3]];
    proof {
        assert(byte_range(4) == 0x1_0000_0000) by {
            reveal_with_fuel(byte_range, 5);
        }
        lemma_be_bytes_split(high as nat, low as nat, 4, 4);
        assert(r@ =~= h@ + l@);
    }
    r
}

/// The number that four big-endian bytes stand for.
pub fn u32_from_be_bytes(bytes: [u8; 4]) -> (r: u32)
    ensures
        r == be_value(bytes@),
{
    proof {
        reveal_with_fuel(be_value, 5);
        let s = bytes@;
        assert(s.drop_last() =~= seq![s[0], s[1], s[2]]);
        assert(s.drop_last().drop_last() =~= seq![s[0], s[1]]);
        assert(s.drop_last().drop_last().drop_last() =~= seq![s[0]]);
    }
    ((bytes[0] as u32 * 256 + bytes[1] as u32) * 256 + bytes[2] as u32) * 256 + bytes[3] as u32
}

/// A copy of a byte string.
pub fn copy_bytes(bytes: &Vec<u8>) -> (r: Vec<u8>)
    ensures
        r@ == bytes@,
{
    vstd::slice::slice_to_vec(bytes.as_slice())
}

/// A copy of a list of byte strings.
pub fn copy_all(items: &Vec<Vec<u8>>) -> (r: Vec<Vec<u8>>)
    ensures
        bytes_of(r@) == bytes_of(items@),
{
    let mut r: Vec<Vec<u8>> = Vec::new();
    for i in 0..items.len()
        invariant
            r@.len() == i,
            forall|j: int| 0 <= j < i ==> (#[trigger] r@[j])@ == items@[j]@,
    {
        r.push(copy_bytes(&items[i]));
    }
    assert(bytes_of(r@) =~= bytes_of(items@));
    r
}

/// Appends `more` to `bytes`.
pub fn append_slice(bytes: &mut Vec<u8>, more: &[u8])
    ensures
        final(bytes)@ == old(bytes)@ + more@,
{
    bytes.extend_from_slice(more);
    assert(bytes@ =~= old(bytes)@ + more@);
}

/// An unsigned 256-bit integer, as four 64-bit limbs with the least significant one first.
#[derive(Clone, Copy, Debug, PartialEq, Eq)]
pub struct U256 {
    pub limbs: [u64; 4],
}

impl U256 {
    /// The number that the limbs stand for.
    pub open spec fn value(self) -> nat {
        let base: nat = 0x1_0000_0000_0000_0000;
        ((self.limbs@[3] as nat * base + self.limbs@[2] as nat) * base + self.limbs@[1] as nat) * base
            + self.limbs@[0] as nat
    }

    /// The number zero.
    pub fn zero() -> (r: U256)
        ensures
            r.value() == 0,
            r.limbs@ == seq![0u64, 0u64, 0u64, 0u64],
    {
        let r = U256 { limbs: [0, 0, 0, 0] };
        assert(r.limbs@ =~= seq![0u64, 0u64, 0u64, 0u64]);
        r
    }

    /// The number `x`.
    pub fn from_u64(x: u64) -> (r: U256)
        ensures
            r.value() == x,
    {
        U256 { limbs: [x, 0, 0, 0] }
    }

    /// The number, or the largest `u64` if the number is larger than that.
    pub fn saturating_to_u64(&self) -> (r: u64)
        ensures
            r == saturate(self.value()),
    {
        if self.limbs[1] != 0 || self.limbs[2] != 0 || self.limbs[3] != 0 {
            u64::MAX
        } else {
            self.limbs[0]
        }
    }

    /// The 32 big-endian bytes of the number.
    pub fn to_be_bytes(&self) -> (r: Vec<u8>)
        ensures
            r@ == be_bytes(self.value(), 32),
    {
        let mut r: Vec<u8> = Vec::new();
        append_slice(&mut r, u64_to_be_bytes(self.limbs[3]).as_slice());
        append_slice(&mut r, u64_to_be_bytes(self.limbs[2]).as_slice());
        append_slice(&mut r, u64_to_be_bytes(self.limbs[1]).as_slice());
        append_slice(&mut r, u64_to_be_bytes(self.limbs[0]).as_slice());
        proof {
            let base: nat = 0x1_0000_0000_0000_0000;
            assert(byte_range(8) == base) by {
                reveal_with_fuel(byte_range, 9);
            }
            let a = self.limbs@[3] as nat;
            let b = a * base + self.limbs@[2] as nat;
            let c = b * base + self.limbs@[1] as nat;
            lemma_be_bytes_split(a, self.limbs@[2] as nat, 8, 8);
            lemma_be_bytes_split(b, self.limbs@[1] as nat, 16, 8);
            lemma_be_bytes_split(c, self.limbs@[0] as nat, 24, 8);
            assert(r@ =~= be_bytes(self.value(), 32));
        }
        r
    }
}

/// The largest `u64` that is at most `n`.
pub open spec fn saturate(n: nat) -> nat {
    if n > u64::MAX {
        u64::MAX as nat
    } else {
        n
    }
}

/// A block number together with the hash of the block.
#[derive(Clone, Copy, Debug, PartialEq, Eq)]
pub struct BlockNumHash {
    pub number: u64,
    pub hash: B256,
}

/// What identifies a block and places it in its chain.
#[derive(Clone, Copy, Debug, PartialEq, Eq)]
pub struct BlockInfo {
    pub hash: B256,
    pub number: u64,
    pub parent_hash: B256,
    pub timestamp: u64,
}

/// An L2 block together with the L1 block that it was derived from.
#[derive(Clone, Copy, Debug, PartialEq, Eq)]
pub struct L2BlockInfo {
    pub block_info: BlockInfo,
    pub l1_origin: BlockNumHash,
    pub seq_num: u64,
}

/// The name of the Keccak-256 digest of a byte string.
pub uninterp spec fn keccak256_digest(data: Seq<u8>) -> Seq<u8>;

/// The Keccak-256 digest of `data`, by `alloy_primitives::keccak256`.
///
/// Claimed of the outside function: the digest is a function of the bytes alone.
#[verifier::external_body]
pub(crate) fn keccak256(data: &Vec<u8>) -> (r: B256)
    ensures
        r@ == keccak256_digest(data@),
{
    alloy_primitives::keccak256(data).0
}

/// A width of `n` bytes holds 256 to the power of `n` values.
pub proof fn law_byte_range_is_a_power(width: nat)
    ensures
        byte_range(width) == vstd::arithmetic::power::pow(256, width),
    decreases width,
{
    reveal(vstd::arithmetic::power::pow);
    if width > 0 {
        law_byte_range_is_a_power((width - 1) as nat);
    }
}

/// The byte at each place of a big-endian representation is the digit of the number to the base 256
/// that as many lower digits follow as there are bytes behind it.
pub proof fn law_be_bytes_are_digits(n: nat, width: nat, i: int)
    requires
        0 <= i < width,
    ensures
        be_bytes(n, width).len() == width,
        be_bytes(n, width)[i] == (n as int / vstd::arithmetic::power::pow(
            256,
            (width - 1 - i) as nat,
        )) % 256,
    decreases width,
{
    reveal(vstd::arithmetic::power::pow);
    lemma_be_bytes_len(n, width);
    let shorter = (width - 1) as nat;
    lemma_be_bytes_len(n / 256, shorter);
    if i < shorter {
        law_be_bytes_are_digits(n / 256, shorter, i);
        let place = (shorter - 1 - i) as nat;
        law_byte_range_is_a_power(place);
        lemma_byte_range_positive(place);
        let p = vstd::arithmetic::power::pow(256, place);
        vstd::arithmetic::div_mod::lemma_div_denominator(n as int, 256, p);
    }
}

/// The number that a byte string stands for is that of its first part, moved up by the length of
/// the second part, and that of the second part. A single byte stands for itself.
pub proof fn law_be_value_is_positional(high: Seq<u8>, low: Seq<u8>, byte: u8)
    ensures
        be_value(high + low) == be_value(high) * vstd::arithmetic::power::pow(256, low.len())
            + be_value(low),
        be_value(seq![byte]) == byte,
        be_value(Seq::empty()) == 0,
    decreases low.len(),
{
    reveal(vstd::arithmetic::power::pow);
    assert(seq![byte].drop_last() =~= Seq::empty());
    reveal_with_fuel(be_value, 2);
    if low.len() == 0 {
        assert(high + low =~= high);
    } else {
        let shorter = low.drop_last();
        law_be_value_is_positional(high, shorter, byte);
        assert((high + low).drop_last() =~= high + shorter);
        let p = vstd::arithmetic::power::pow(256, shorter.len());
        let h = be_value(high) as int;
        assert((h * p) * 256 == h * (256 * p)) by (nonlinear_arith);
    }
}

/// A number is cut off at the largest 64-bit number, and only there.
pub proof fn law_saturate_is_the_minimum(n: nat)
    ensures
        saturate(n) <= n,
        saturate(n) <= 0xffff_ffff_ffff_ffff,
        saturate(n) == n || saturate(n) == 0xffff_ffff_ffff_ffff,
{
}

/// Each limb of a 256-bit integer counts 2 to the power of 64 times as much as the one before it.
pub proof fn law_limbs_are_digits(x: U256)
    ensures
        x.value() == x.limbs@[0] + x.limbs@[1] * 0x1_0000_0000_0000_0000 + x.limbs@[2]
            * 0x1_0000_0000_0000_0000_0000_0000_0000_0000 + x.limbs@[3]
            * 0x1_0000_0000_0000_0000_0000_0000_0000_0000_0000_0000_0000_0000,
{
}

/// The bytes of a list are those of each of its members, at its place.
pub proof fn law_bytes_of_keeps_places(items: Seq<Vec<u8>>, hash: B256)
    ensures
        bytes_of(items).len() == items.len(),
        forall|i: int| 0 <= i < items.len() ==> #[trigger] bytes_of(items)[i] == items[i]@,
        opt_bytes(Some(hash)) == Some(hash@),
        opt_bytes(None) is None,
{
}

} // verus!
