use pallet_template::u256::U256;

const MAX: u64 = u64::MAX;

#[test]
fn zero_and_from_u64() {
    assert_eq!(U256::zero(), U256::from_words(0, 0, 0, 0));
    assert_eq!(U256::from_u64(7), U256::from_words(7, 0, 0, 0));
}

#[test]
fn add_without_carry() {
    let a = U256::from_u64(200);
    let b = U256::from_u64(50);
    assert_eq!(a.checked_add(b), Some(U256::from_u64(250)));
}

#[test]
fn add_carries_across_all_words() {
    let a = U256::from_words(MAX, MAX, MAX, 0);
    let one = U256::from_u64(1);
    assert_eq!(a.checked_add(one), Some(U256::from_words(0, 0, 0, 1)));
}

#[test]
fn add_overflow_is_none() {
    let max = U256::from_words(MAX, MAX, MAX, MAX);
    assert_eq!(max.checked_add(U256::from_u64(1)), None);
    assert_eq!(max.checked_add(max), None);
}

#[test]
fn add_of_max_and_zero_fits() {
    let max = U256::from_words(MAX, MAX, MAX, MAX);
    assert_eq!(max.checked_add(U256::zero()), Some(max));
}

#[test]
fn sub_without_borrow() {
    let a = U256::from_u64(250);
    let b = U256::from_u64(50);
    assert_eq!(a.checked_sub(b), Some(U256::from_u64(200)));
}

#[test]
fn sub_borrows_across_all_words() {
    let a = U256::from_words(0, 0, 0, 1);
    let one = U256::from_u64(1);
    assert_eq!(a.checked_sub(one), Some(U256::from_words(MAX, MAX, MAX, 0)));
}

#[test]
fn sub_underflow_is_none() {
    let a = U256::from_u64(50);
    let b = U256::from_u64(51);
    assert_eq!(a.checked_sub(b), None);
    assert_eq!(U256::zero().checked_sub(U256::from_u64(1)), None);
}

#[test]
fn sub_of_equal_values_is_zero() {
    let a = U256::from_words(5, 6, 7, 8);
    assert_eq!(a.checked_sub(a), Some(U256::zero()));
}

#[test]
fn add_then_sub_round_trips() {
    let a = U256::from_words(MAX, 3, 0, 9);
    let b = U256::from_words(12, MAX, MAX, 2);
    let s = a.checked_add(b).unwrap();
    assert_eq!(s.checked_sub(b), Some(a));
    assert_eq!(s.checked_sub(a), Some(b));
}
