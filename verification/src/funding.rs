//! The funding precheck: what it takes to bring the loaded identity up to the
//! balance that the operator asked for.

use vstd::prelude::*;
use crate::units::{credits_of_dash, dash_to_credits, duffs_of_credits, CREDITS_PER_DUFF};

verus! {

/// What the precheck decides once the balance of the loaded identity is known.
#[derive(Clone, Copy, Debug, PartialEq, Eq, Structural)]
pub enum TopUpDecision {
    /// The balance meets the floor: nothing is submitted.
    NotNeeded,
    /// The balance is below the floor: top up by this many duffs.
    TopUp(u64),
    /// The balance is below the floor by more duffs than 64 bits hold.
    OutOfRange,
}

/// The least balance, in credits, that an identity should have when the
/// operator asked for `start_dash` whole coins.
pub open spec fn floor_credits(start_dash: u64) -> int {
    credits_of_dash(start_dash as int)
}

/// By how many duffs a balance of `balance` credits falls short of the floor.
/// A shortfall of less than one duff counts as zero duffs.
pub open spec fn shortfall_duffs(balance: u64, start_dash: u64) -> int {
    duffs_of_credits(floor_credits(start_dash) - balance)
}

/// The decision for a balance of `balance` credits and a floor of
/// `start_dash` whole coins.
pub open spec fn top_up_for(balance: u64, start_dash: u64) -> TopUpDecision {
    if balance >= floor_credits(start_dash) {
        TopUpDecision::NotNeeded
    } else if shortfall_duffs(balance, start_dash) <= u64::MAX {
        TopUpDecision::TopUp(shortfall_duffs(balance, start_dash) as u64)
    } else {
        TopUpDecision::OutOfRange
    }
}

/// Decides whether an identity with `balance` credits needs a top-up to reach
/// `start_dash` whole coins, and of how many duffs.
pub fn top_up_decision(balance: u64, start_dash: u64) -> (decision: TopUpDecision)
    ensures
        decision == top_up_for(balance, start_dash),
        balance >= floor_credits(start_dash) ==> decision == TopUpDecision::NotNeeded,
{
    let floor: u128 = dash_to_credits(start_dash);
    let held: u128 = balance as u128;
    if held >= floor {
        TopUpDecision::NotNeeded
    } else {
        let duffs: u128 = (floor - held) / (CREDITS_PER_DUFF as u128);
        if duffs <= u64::MAX as u128 {
            TopUpDecision::TopUp(duffs as u64)
        } else {
            TopUpDecision::OutOfRange
        }
    }
}

/// An identity whose balance meets the floor is never topped up, and a
/// top-up, where one is decided, covers the shortfall to within one duff.
pub proof fn top_up_only_below_floor(balance: u64, start_dash: u64)
    ensures
        balance >= floor_credits(start_dash) <==> top_up_for(balance, start_dash)
            == TopUpDecision::NotNeeded,
        top_up_for(balance, start_dash) matches TopUpDecision::TopUp(duffs) ==> {
            &&& balance < floor_credits(start_dash)
            &&& duffs * 1_000 <= floor_credits(start_dash) - balance
            &&& floor_credits(start_dash) - balance < (duffs + 1) * 1_000
        },
{
}

} // verus!
