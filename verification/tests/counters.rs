use spotify_dapp::counter::{
    apply_delta, apply_paired_delta, checked_paired_step, checked_raise, checked_step, Delta,
};
use spotify_dapp::errors::SpotifyError;

#[test]
fn counter_at_maximum_refuses_an_increment_and_keeps_its_value() {
    let mut counter = u64::MAX;
    assert_eq!(apply_delta(&mut counter, Delta::Increment), Err(SpotifyError::ArithmeticOverflow));
    assert_eq!(counter, u64::MAX);
}

#[test]
fn counter_at_zero_refuses_a_decrement_and_keeps_its_value() {
    let mut counter = 0u64;
    assert_eq!(apply_delta(&mut counter, Delta::Decrement), Err(SpotifyError::ArithmeticUnderflow));
    assert_eq!(counter, 0);
}

#[test]
fn counter_steps_by_one() {
    let mut counter = 41u64;
    assert_eq!(apply_delta(&mut counter, Delta::Increment), Ok(42));
    assert_eq!(counter, 42);
    assert_eq!(apply_delta(&mut counter, Delta::Decrement), Ok(41));
    assert_eq!(counter, 41);
    let mut last = u64::MAX - 1;
    assert_eq!(apply_delta(&mut last, Delta::Increment), Ok(u64::MAX));
    let mut first = 1u64;
    assert_eq!(apply_delta(&mut first, Delta::Decrement), Ok(0));
}

#[test]
fn checked_step_changes_nothing() {
    assert_eq!(checked_step(7, Delta::Increment), Ok(8));
    assert_eq!(checked_step(7, Delta::Decrement), Ok(6));
    assert_eq!(checked_step(u64::MAX, Delta::Increment), Err(SpotifyError::ArithmeticOverflow));
    assert_eq!(checked_step(0, Delta::Decrement), Err(SpotifyError::ArithmeticUnderflow));
}

#[test]
fn checked_raise_adds_or_overflows() {
    assert_eq!(checked_raise(10, 32), Ok(42));
    assert_eq!(checked_raise(u64::MAX - 3, 3), Ok(u64::MAX));
    assert_eq!(checked_raise(u64::MAX - 3, 4), Err(SpotifyError::ArithmeticOverflow));
    assert_eq!(checked_raise(0, 0), Ok(0));
}

#[test]
fn paired_counters_move_together_or_not_at_all() {
    let mut a = 5u64;
    let mut b = 9u64;
    assert_eq!(apply_paired_delta(&mut a, &mut b, Delta::Increment), Ok((6, 10)));
    assert_eq!((a, b), (6, 10));
    let mut full = u64::MAX;
    assert_eq!(
        apply_paired_delta(&mut a, &mut full, Delta::Increment),
        Err(SpotifyError::ArithmeticOverflow)
    );
    assert_eq!((a, full), (6, u64::MAX));
    let mut zero = 0u64;
    assert_eq!(
        apply_paired_delta(&mut zero, &mut b, Delta::Decrement),
        Err(SpotifyError::ArithmeticUnderflow)
    );
    assert_eq!((zero, b), (0, 10));
    assert_eq!(apply_paired_delta(&mut a, &mut b, Delta::Decrement), Ok((5, 9)));
}

#[test]
fn checked_paired_step_checks_the_first_counter_first() {
    assert_eq!(checked_paired_step(1, 2, Delta::Increment), Ok((2, 3)));
    assert_eq!(checked_paired_step(1, 2, Delta::Decrement), Ok((0, 1)));
    assert_eq!(
        checked_paired_step(u64::MAX, 2, Delta::Increment),
        Err(SpotifyError::ArithmeticOverflow)
    );
    assert_eq!(
        checked_paired_step(1, 0, Delta::Decrement),
        Err(SpotifyError::ArithmeticUnderflow)
    );
}
