//! The execution budget of a deployment transaction.

use vstd::prelude::*;

verus! {

/// The most that the chain may consume while it executes a deployment: a
/// bound on computation and a bound on the size of the state proof.
#[derive(Clone, Copy, Debug, PartialEq, Eq, Structural)]
pub struct WeightLimit {
    pub compute_units: u64,
    pub proof_size: u64,
}

impl WeightLimit {
    /// The limit with the given bounds.
    pub fn from_parts(compute_units: u64, proof_size: u64) -> (limit: WeightLimit)
        ensures
            limit.compute_units == compute_units,
            limit.proof_size == proof_size,
    {
        WeightLimit { compute_units, proof_size }
    }
}

/// Where the weight limit of a request comes from. A request either carries
/// both bounds or leaves the limit to a dry run; there is no request with one
/// bound only.
#[derive(Clone, Copy, Debug, PartialEq, Eq, Structural)]
pub enum WeightBudget {
    /// The caller supplied both bounds.
    Fixed(WeightLimit),
    /// The limit is measured by a dry run before the submission.
    ToBeEstimated,
}

impl WeightBudget {
    /// The budget that two optional overrides stand for: fixed when both are
    /// given, to be estimated when either is missing.
    pub open spec fn of(gas_limit: Option<u64>, proof_size: Option<u64>) -> WeightBudget {
        match (gas_limit, proof_size) {
            (Some(compute_units), Some(proof_size)) => WeightBudget::Fixed(
                WeightLimit { compute_units, proof_size },
            ),
            _ => WeightBudget::ToBeEstimated,
        }
    }

    /// Turns the caller's two optional overrides into a budget. An override
    /// that comes without the other one is not used.
    pub fn from_overrides(gas_limit: Option<u64>, proof_size: Option<u64>) -> (budget: WeightBudget)
        ensures
            budget == WeightBudget::of(gas_limit, proof_size),
    {
        match (gas_limit, proof_size) {
            (Some(compute_units), Some(proof_size)) => WeightBudget::Fixed(
                WeightLimit::from_parts(compute_units, proof_size),
            ),
            _ => WeightBudget::ToBeEstimated,
        }
    }
}

} // verus!
