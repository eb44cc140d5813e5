//! Arithmetic for a treasury that keeps balances as plain integers.
//!
//! The library holds no balances: it says which funds have to move and is
//! told whether they did. A treasury that carries out such a movement on two
//! integer balances finds here what they become.

use vstd::prelude::*;

verus! {

/// The balances of a payer and a payee after `amount` has gone from the one
/// to the other; `None` if the payer holds less than `amount`, or if the
/// payee would hold more than a balance can.
pub open spec fn spec_move_funds(payer: u64, payee: u64, amount: u64) -> Option<(u64, u64)> {
    if amount <= payer && payee + amount <= u64::MAX {
        Some(((payer - amount) as u64, (payee + amount) as u64))
    } else {
        None
    }
}

/// A movement of funds neither makes nor loses any: the two balances add up
/// to what they did before.
pub proof fn lemma_move_funds_conserves(payer: u64, payee: u64, amount: u64)
    requires
        spec_move_funds(payer, payee, amount) is Some,
    ensures
        ({
            let (rest, sum) = spec_move_funds(payer, payee, amount).unwrap();
            rest + sum == payer + payee
        }),
{
}

/// Computes the balances after `amount` has gone from `payer` to `payee`.
pub fn move_funds(payer: u64, payee: u64, amount: u64) -> (r: Option<(u64, u64)>)
    ensures
        r == spec_move_funds(payer, payee, amount),
{
    match payer.checked_sub(amount) {
        None => None,
        Some(rest) => match payee.checked_add(amount) {
            None => None,
            Some(sum) => Some((rest, sum)),
        },
    }
}

} // verus!
