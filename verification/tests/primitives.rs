//! Byte strings and 256-bit integers.

use kona::primitives::{
    append_slice, copy_all, copy_bytes, u32_from_be_bytes, u32_to_be_bytes, u64_to_be_bytes, U256,
    ZERO_HASH,
};

#[test]
fn big_endian_bytes() {
    for x in [0u32, 1, 255, 256, 0x0102_0304, u32::MAX] {
        assert_eq!(u32_to_be_bytes(x), x.to_be_bytes());
        assert_eq!(u32_from_be_bytes(x.to_be_bytes()), x);
    }
    for x in [0u64, 1, 0x0102_0304_0506_0708, 0xffff_ffff, 0x1_0000_0000, u64::MAX] {
        assert_eq!(u64_to_be_bytes(x), x.to_be_bytes());
    }
}

#[test]
fn u256_bytes_are_those_of_alloy() {
    for limbs in [[0u64, 0, 0, 0], [1, 0, 0, 0], [1, 2, 3, 4], [u64::MAX; 4]] {
        let ours = U256 { limbs };
        let theirs = alloy_primitives::U256::from_limbs(limbs);
        assert_eq!(ours.to_be_bytes(), theirs.to_be_bytes::<32>());
        assert_eq!(ours.saturating_to_u64(), theirs.saturating_to::<u64>());
    }
}

#[test]
fn u256_saturates() {
    assert_eq!(U256::zero().saturating_to_u64(), 0);
    assert_eq!(U256::from_u64(u64::MAX).saturating_to_u64(), u64::MAX);
    assert_eq!(U256 { limbs: [5, 1, 0, 0] }.saturating_to_u64(), u64::MAX);
    assert_eq!(U256 { limbs: [5, 0, 0, 1] }.saturating_to_u64(), u64::MAX);
}

#[test]
fn copies_hold_the_same_bytes() {
    let items = vec![vec![], vec![1, 2], vec![3]];
    assert_eq!(copy_all(&items), items);
    assert_eq!(copy_bytes(&items[1]), [1, 2]);
    let mut bytes = vec![1];
    append_slice(&mut bytes, &[2, 3]);
    assert_eq!(bytes, [1, 2, 3]);
    assert_eq!(ZERO_HASH, [0; 32]);
}
