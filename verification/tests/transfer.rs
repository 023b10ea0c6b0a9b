use real_estate::error::Rejection;
use real_estate::transfer::transfer;

#[test]
fn transfer_moves_the_amount() {
    let mut from = 100u64;
    let mut to = 5u64;
    assert_eq!(transfer(&mut from, &mut to, 30), Ok(()));
    assert_eq!((from, to), (70, 35));
}

#[test]
fn transfer_of_everything_empties_the_source() {
    let mut from = 100u64;
    let mut to = 0u64;
    assert_eq!(transfer(&mut from, &mut to, 100), Ok(()));
    assert_eq!((from, to), (0, 100));
}

#[test]
fn transfer_of_nothing_changes_nothing() {
    let mut from = 0u64;
    let mut to = u64::MAX;
    assert_eq!(transfer(&mut from, &mut to, 0), Ok(()));
    assert_eq!((from, to), (0, u64::MAX));
}

#[test]
fn transfer_is_refused_when_the_source_holds_less() {
    let mut from = 29u64;
    let mut to = 5u64;
    assert_eq!(transfer(&mut from, &mut to, 30), Err(Rejection::InsufficientLamports));
    assert_eq!((from, to), (29, 5));
}

#[test]
fn transfer_is_refused_when_the_target_cannot_take_it() {
    let mut from = 10u64;
    let mut to = u64::MAX - 5;
    assert_eq!(transfer(&mut from, &mut to, 6), Err(Rejection::ArithmeticOverflow));
    assert_eq!((from, to), (10, u64::MAX - 5));
    assert_eq!(transfer(&mut from, &mut to, 5), Ok(()));
    assert_eq!((from, to), (5, u64::MAX));
}

#[test]
fn a_short_source_is_reported_before_a_full_target() {
    let mut from = 1u64;
    let mut to = u64::MAX;
    assert_eq!(transfer(&mut from, &mut to, 2), Err(Rejection::InsufficientLamports));
}
