//! Moving value from one holding to another.

use crate::error::{verdict, Rejection};
use vstd::prelude::*;

verus! {

/// Why `amount` cannot move from a holding of `from` to a holding of `to`, if it
/// cannot: the first holds less, or the second cannot take it.
pub open spec fn transfer_refusal(from: u64, to: u64, amount: u64) -> Option<Rejection> {
    if from < amount {
        Some(Rejection::InsufficientLamports)
    } else if to + amount > u64::MAX {
        Some(Rejection::ArithmeticOverflow)
    } else {
        None
    }
}

/// Moves `amount` from one holding to the other, or leaves both as they are.
pub fn transfer(from: &mut u64, to: &mut u64, amount: u64) -> (moved: Result<(), Rejection>)
    ensures
        moved == verdict(transfer_refusal(*old(from), *old(to), amount)),
        moved is Ok ==> *final(from) == *old(from) - amount && *final(to) == *old(to) + amount,
        moved is Err ==> *final(from) == *old(from) && *final(to) == *old(to),
        *final(from) + *final(to) == *old(from) + *old(to),
{
    if *from < amount {
        return Err(Rejection::InsufficientLamports);
    }
    match (*to).checked_add(amount) {
        None => Err(Rejection::ArithmeticOverflow),
        Some(credited) => {
            *from = *from - amount;
            *to = credited;
            Ok(())
        },
    }
}

} // verus!
