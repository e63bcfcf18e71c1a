//! Gas and size policy: the process-wide numeric bounds a transaction's gas
//! parameters must respect, and the pure comparisons against them. All
//! bounds are inclusive; only a strict overshoot or undershoot fails.

use vstd::prelude::*;
use crate::status::StatusCode;

verus! {

/// The largest serialized transaction the pipeline admits, in bytes.
pub const MAX_TRANSACTION_SIZE_IN_BYTES: usize = 4096;

/// Policy-wide gas bounds, loaded once at startup and immutable for the
/// pipeline's lifetime.
#[derive(Clone, Copy, Debug, PartialEq, Eq, Structural)]
pub struct GasConstants {
    /// The floor on the gas allowance: any transaction needs at least this
    /// much to run at all.
    pub min_transaction_gas_units: u64,
    /// The ceiling on the gas allowance.
    pub maximum_number_of_gas_units: u64,
    /// The least price per gas unit the ledger accepts.
    pub min_price_per_gas_unit: u64,
    /// The greatest price per gas unit the ledger accepts.
    pub max_price_per_gas_unit: u64,
}

impl Default for GasConstants {
    /// The bounds a ledger runs with unless reconfigured.
    fn default() -> (r: Self)
        ensures
            r == (GasConstants {
                min_transaction_gas_units: 600u64,
                maximum_number_of_gas_units: 4_000_000u64,
                min_price_per_gas_unit: 0u64,
                max_price_per_gas_unit: 10_000u64,
            }),
    {
        GasConstants {
            min_transaction_gas_units: 600,
            maximum_number_of_gas_units: 4_000_000,
            min_price_per_gas_unit: 0,
            max_price_per_gas_unit: 10_000,
        }
    }
}

/// The verdict on a gas unit price: inside the inclusive bounds, or the code
/// naming the bound it breaks.
pub open spec fn spec_check_gas_price(gas: GasConstants, unit_price: u64) -> Option<StatusCode> {
    if unit_price > gas.max_price_per_gas_unit {
        Some(StatusCode::GasUnitPriceAboveMaxBound)
    } else if unit_price < gas.min_price_per_gas_unit {
        Some(StatusCode::GasUnitPriceBelowMinBound)
    } else {
        None
    }
}

/// The verdict on a gas allowance: the floor is tested before the ceiling.
pub open spec fn spec_check_max_gas_units(gas: GasConstants, max_gas_amount: u64) -> Option<
    StatusCode,
> {
    if max_gas_amount < gas.min_transaction_gas_units {
        Some(StatusCode::MaxGasUnitsBelowMinTransactionGasUnits)
    } else if max_gas_amount > gas.maximum_number_of_gas_units {
        Some(StatusCode::MaxGasUnitsExceedsMaxGasUnitsBound)
    } else {
        None
    }
}

/// The verdict on a serialized transaction's byte length.
pub open spec fn spec_check_size(serialized_len: nat) -> Option<StatusCode> {
    if serialized_len > MAX_TRANSACTION_SIZE_IN_BYTES {
        Some(StatusCode::ExceededMaxTransactionSize)
    } else {
        None
    }
}

impl GasConstants {
    /// Checks a gas unit price against the configured bounds. Both bounds
    /// are inclusive: a price equal to either passes.
    pub fn check_gas_price(&self, unit_price: u64) -> (r: Option<StatusCode>)
        ensures
            r == spec_check_gas_price(*self, unit_price),
    {
        if unit_price > self.max_price_per_gas_unit {
            Some(StatusCode::GasUnitPriceAboveMaxBound)
        } else if unit_price < self.min_price_per_gas_unit {
            Some(StatusCode::GasUnitPriceBelowMinBound)
        } else {
            None
        }
    }

    /// Checks a gas allowance against the configured floor and ceiling, the
    /// floor first. Both are inclusive.
    pub fn check_max_gas_units(&self, max_gas_amount: u64) -> (r: Option<StatusCode>)
        ensures
            r == spec_check_max_gas_units(*self, max_gas_amount),
    {
        if max_gas_amount < self.min_transaction_gas_units {
            Some(StatusCode::MaxGasUnitsBelowMinTransactionGasUnits)
        } else if max_gas_amount > self.maximum_number_of_gas_units {
            Some(StatusCode::MaxGasUnitsExceedsMaxGasUnitsBound)
        } else {
            None
        }
    }
}

/// Checks a serialized transaction's byte length against the size cap,
/// which is inclusive.
pub fn check_size(serialized_len: usize) -> (r: Option<StatusCode>)
    ensures
        r == spec_check_size(serialized_len as nat),
{
    if serialized_len > MAX_TRANSACTION_SIZE_IN_BYTES {
        Some(StatusCode::ExceededMaxTransactionSize)
    } else {
        None
    }
}

} // verus!
