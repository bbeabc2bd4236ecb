//! Checked counters.
//!
//! Every count on the platform is a `u64` that moves by checked steps only.
//! A step that would leave the range is refused and the counter keeps its
//! value.

use crate::errors::SpotifyError;
use vstd::prelude::*;

verus! {

/// One step up or one step down.
#[derive(Clone, Copy, Debug, PartialEq, Eq, Structural)]
pub enum Delta {
    Increment,
    Decrement,
}

/// The value after `delta`, or the reason there is none.
pub open spec fn stepped(value: u64, delta: Delta) -> Result<u64, SpotifyError> {
    match delta {
        Delta::Increment => if value < u64::MAX {
            Ok((value + 1) as u64)
        } else {
            Err(SpotifyError::ArithmeticOverflow)
        },
        Delta::Decrement => if value > 0 {
            Ok((value - 1) as u64)
        } else {
            Err(SpotifyError::ArithmeticUnderflow)
        },
    }
}

/// The value after adding `amount`, or overflow.
pub open spec fn raised(value: u64, amount: u64) -> Result<u64, SpotifyError> {
    if value + amount <= u64::MAX {
        Ok((value + amount) as u64)
    } else {
        Err(SpotifyError::ArithmeticOverflow)
    }
}

/// Two mirrored counters after the same `delta`, both or neither. The first
/// counter is checked first.
pub open spec fn paired(first: u64, second: u64, delta: Delta) -> Result<(u64, u64), SpotifyError> {
    match (stepped(first, delta), stepped(second, delta)) {
        (Ok(a), Ok(b)) => Ok((a, b)),
        (Err(e), _) => Err(e),
        (_, Err(e)) => Err(e),
    }
}

/// What `delta` would make of `value`, without changing anything.
pub fn checked_step(value: u64, delta: Delta) -> (r: Result<u64, SpotifyError>)
    ensures
        r == stepped(value, delta),
{
    match delta {
        Delta::Increment => match value.checked_add(1) {
            Some(v) => Ok(v),
            None => Err(SpotifyError::ArithmeticOverflow),
        },
        Delta::Decrement => match value.checked_sub(1) {
            Some(v) => Ok(v),
            None => Err(SpotifyError::ArithmeticUnderflow),
        },
    }
}

/// What adding `amount` would make of `value`, without changing anything.
pub fn checked_raise(value: u64, amount: u64) -> (r: Result<u64, SpotifyError>)
    ensures
        r == raised(value, amount),
{
    match value.checked_add(amount) {
        Some(v) => Ok(v),
        None => Err(SpotifyError::ArithmeticOverflow),
    }
}

/// What `delta` would make of two mirrored counters, without changing
/// anything.
pub fn checked_paired_step(first: u64, second: u64, delta: Delta) -> (r: Result<
    (u64, u64),
    SpotifyError,
>)
    ensures
        r == paired(first, second, delta),
{
    let a = checked_step(first, delta)?;
    let b = checked_step(second, delta)?;
    Ok((a, b))
}

/// Moves `counter` by `delta` and returns the new value. A refused step
/// leaves the counter as it was.
pub fn apply_delta(counter: &mut u64, delta: Delta) -> (r: Result<u64, SpotifyError>)
    ensures
        r == stepped(*old(counter), delta),
        *final(counter) == match r {
            Ok(v) => v,
            Err(_) => *old(counter),
        },
{
    let next = checked_step(*counter, delta)?;
    *counter = next;
    Ok(next)
}

/// Moves two mirrored counters by the same `delta`, both or neither. The
/// first counter is checked first.
pub fn apply_paired_delta(first: &mut u64, second: &mut u64, delta: Delta) -> (r: Result<
    (u64, u64),
    SpotifyError,
>)
    ensures
        r == paired(*old(first), *old(second), delta),
        (*final(first), *final(second)) == match r {
            Ok(pair) => pair,
            Err(_) => (*old(first), *old(second)),
        },
{
    let (a, b) = checked_paired_step(*first, *second, delta)?;
    *first = a;
    *second = b;
    Ok((a, b))
}

/// A counter at its maximum refuses one more increment and keeps its value;
/// a counter at zero refuses a decrement.
pub proof fn law_counter_bounds()
    ensures
        stepped(u64::MAX, Delta::Increment) == Err::<u64, SpotifyError>(
            SpotifyError::ArithmeticOverflow,
        ),
        stepped(0, Delta::Decrement) == Err::<u64, SpotifyError>(
            SpotifyError::ArithmeticUnderflow,
        ),
        forall|v: u64| v < u64::MAX ==> stepped(v, Delta::Increment) == Ok::<u64, SpotifyError>(
            (v + 1) as u64,
        ),
        forall|v: u64| v > 0 ==> stepped(v, Delta::Decrement) == Ok::<u64, SpotifyError>(
            (v - 1) as u64,
        ),
{
}

/// An increment followed by a decrement restores the counter.
pub proof fn law_step_back_restores(value: u64)
    requires
        value < u64::MAX,
    ensures
        stepped(stepped(value, Delta::Increment)->Ok_0, Delta::Decrement) == Ok::<
            u64,
            SpotifyError,
        >(value),
{
}

} // verus!
