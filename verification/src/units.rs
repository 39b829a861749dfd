//! Currency units: whole Dash, duffs (the smallest coin unit, in which the
//! amount of an asset lock transaction is given) and credits (the ledger unit
//! of identity balances).

use vstd::prelude::*;

verus! {

/// Duffs in one Dash.
pub const DUFFS_PER_DASH: u64 = 100_000_000;

/// Credits in one duff.
pub const CREDITS_PER_DUFF: u64 = 1_000;

/// Credits in one Dash.
pub const CREDITS_PER_DASH: u64 = 100_000_000_000;

/// The number of duffs in `dash` whole coins.
pub open spec fn duffs_of_dash(dash: int) -> int {
    dash * 100_000_000
}

/// The number of credits in `dash` whole coins.
pub open spec fn credits_of_dash(dash: int) -> int {
    dash * 100_000_000_000
}

/// The whole number of duffs in `credits` credits; what is left of a duff is
/// dropped.
pub open spec fn duffs_of_credits(credits: int) -> int {
    credits / 1_000
}

/// Converts whole coins to duffs; `None` exactly when the amount does not fit
/// in 64 bits.
pub fn dash_to_duffs(dash: u64) -> (duffs: Option<u64>)
    ensures
        duffs_of_dash(dash as int) <= u64::MAX ==> duffs == Some(duffs_of_dash(dash as int) as u64),
        duffs_of_dash(dash as int) > u64::MAX ==> duffs.is_none(),
{
    dash.checked_mul(DUFFS_PER_DASH)
}

/// Converts whole coins to credits. The result always fits in 128 bits.
pub fn dash_to_credits(dash: u64) -> (credits: u128)
    ensures
        credits == credits_of_dash(dash as int),
{
    let per_dash: u128 = CREDITS_PER_DASH as u128;
    assert(per_dash == 100_000_000_000);
    assert(dash * per_dash <= u128::MAX) by (nonlinear_arith)
        requires
            dash <= u64::MAX,
            per_dash == 100_000_000_000,
    ;
    (dash as u128) * per_dash
}

} // verus!
