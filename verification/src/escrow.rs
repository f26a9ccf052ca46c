use crate::error::LaunchpadError;
use vstd::prelude::*;

verus! {

/// The balances of the paying and of the receiving holder after `amount` units
/// have moved from the one to the other, or why they cannot move: the payer
/// has too few, or the receiver's balance would no longer fit 64 bits.
pub open spec fn transfer_outcome(from: nat, to: nat, amount: nat) -> Result<
    (nat, nat),
    LaunchpadError,
> {
    if amount > from {
        Err(LaunchpadError::InsufficientFunds)
    } else if to + amount > u64::MAX {
        Err(LaunchpadError::Overflow)
    } else {
        Ok(((from - amount) as nat, to + amount))
    }
}

/// Moves `amount` units from one balance to another, all of them or none.
pub fn transfer(from: &mut u64, to: &mut u64, amount: u64) -> (r: Result<(), LaunchpadError>)
    ensures
        match transfer_outcome(*old(from) as nat, *old(to) as nat, amount as nat) {
            Ok((from_after, to_after)) => r is Ok && *final(from) == from_after && *final(to)
                == to_after,
            Err(e) => r == Err::<(), LaunchpadError>(e) && *final(from) == *old(from) && *final(to)
                == *old(to),
        },
        *final(from) + *final(to) == *old(from) + *old(to),
{
    if amount > *from {
        return Err(LaunchpadError::InsufficientFunds);
    }
    match to.checked_add(amount) {
        None => Err(LaunchpadError::Overflow),
        Some(credited) => {
            *from = *from - amount;
            *to = credited;
            Ok(())
        },
    }
}

} // verus!
