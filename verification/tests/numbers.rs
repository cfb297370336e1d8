use settlx::address_map::AddressMap;
use settlx::primitives::{Address, Digest, U256};

#[test]
fn zero_values() {
    assert!(Address::zero().is_zero());
    assert!(!Address::new(0, 1).is_zero());
    assert!(!Address::new(1, 0).is_zero());
    assert_eq!(Address::zero(), Address::new(0, 0));
    assert!(U256::zero().is_zero());
    assert!(!U256::new(0, 1).is_zero());
    assert!(!U256::new(1, 0).is_zero());
    assert_eq!(Digest::zero(), Digest::new([0u8; 32]));
}

#[test]
fn conversions() {
    assert_eq!(U256::from_u64(7), U256::new(0, 7));
    assert_eq!(U256::from_u128(u128::MAX), U256::new(0, u128::MAX));
    assert_eq!(U256::from_u64(7).to_usize(), Some(7));
    assert_eq!(U256::zero().to_usize(), Some(0));
    assert_eq!(U256::from_u128(usize::MAX as u128).to_usize(), Some(usize::MAX));
    assert_eq!(U256::from_u128(usize::MAX as u128 + 1).to_usize(), None);
    assert_eq!(U256::new(1, 0).to_usize(), None);
    assert_eq!(U256::new(1, 5).to_usize(), None);
}

#[test]
fn checked_add_carries_and_overflows() {
    let one = U256::from_u64(1);
    assert_eq!(U256::from_u64(2).checked_add(&U256::from_u64(3)), Some(U256::from_u64(5)));
    assert_eq!(U256::zero().checked_add(&U256::zero()), Some(U256::zero()));
    assert_eq!(U256::new(0, u128::MAX).checked_add(&one), Some(U256::new(1, 0)));
    assert_eq!(
        U256::new(3, u128::MAX).checked_add(&U256::new(4, u128::MAX)),
        Some(U256::new(8, u128::MAX - 1))
    );
    assert_eq!(U256::new(u128::MAX, u128::MAX).checked_add(&one), None);
    assert_eq!(U256::new(u128::MAX, 0).checked_add(&U256::new(1, 0)), None);
    assert_eq!(U256::new(u128::MAX - 1, u128::MAX).checked_add(&one), Some(U256::new(u128::MAX, 0)));
    assert_eq!(
        U256::new(u128::MAX, u128::MAX).checked_add(&U256::zero()),
        Some(U256::new(u128::MAX, u128::MAX))
    );
}

#[test]
fn checked_add_agrees_with_wide_integers() {
    let samples = [
        U256::zero(),
        U256::from_u64(1),
        U256::new(0, u128::MAX),
        U256::new(1, 0),
        U256::new(u128::MAX, u128::MAX - 5),
        U256::new(0x1234, 0xFFFF_FFFF_FFFF_FFFF_0000_0000_0000_0001),
    ];
    let wide = |x: &U256| {
        alloy_primitives::U256::from(x.hi) * (alloy_primitives::U256::from(u128::MAX) + alloy_primitives::U256::from(1u8))
            + alloy_primitives::U256::from(x.lo)
    };
    for a in samples.iter() {
        for b in samples.iter() {
            let expected = wide(a).checked_add(wide(b));
            assert_eq!(a.checked_add(b).map(|s| wide(&s)), expected);
        }
    }
}

#[test]
fn address_map_insert_get_remove() {
    let mut m: AddressMap<u64> = AddressMap::new();
    let a = Address::new(1, 5);
    let b = Address::new(2, 5);
    let c = Address::new(1, 6);
    assert_eq!(m.get(a), None);
    m.insert(a, 10);
    m.insert(b, 20);
    m.insert(c, 30);
    assert_eq!(m.get(a), Some(&10));
    assert_eq!(m.get(b), Some(&20));
    assert_eq!(m.get(c), Some(&30));
    m.insert(a, 11);
    assert_eq!(m.get(a), Some(&11));
    assert_eq!(m.remove(a), Some(11));
    assert_eq!(m.remove(a), None);
    assert_eq!(m.get(a), None);
    assert_eq!(m.get(b), Some(&20));
    assert_eq!(m.remove(Address::new(7, 7)), None);
    assert_eq!(m.get(c), Some(&30));
}
