use vstd::prelude::*;

verus! {

/// Milli-units in one whole unit of currency.
pub const MSAT_PER_SAT: u64 = 1000;

/// Converts an amount in whole units to the milli-units that requests carry,
/// or `None` when the product does not fit in 64 bits.
pub fn sat_to_msat(amount_sat: u64) -> (r: Option<u64>)
    ensures
        amount_sat * MSAT_PER_SAT <= u64::MAX ==> r == Some((amount_sat * MSAT_PER_SAT) as u64),
        amount_sat * MSAT_PER_SAT > u64::MAX ==> r is None,
{
    amount_sat.checked_mul(MSAT_PER_SAT)
}

} // verus!
