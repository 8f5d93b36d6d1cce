//! Effective-rent calculator.
//!
//! Given a set of itemized dwelling fees, each billed under its own schedule
//! (monthly, one-time, per contract term, per contract renewal, or a plain
//! month count), this library normalizes every fee to its total over a chosen
//! tenancy length and aggregates the results into an effective monthly rent
//! figure that can be compared across listings.
//!
//! The library is pure: it receives plain fee records and returns computed
//! totals. Rendering forms, reading inputs and import/export of fee records
//! belong to the surrounding application.

use vstd::prelude::*;

pub mod calculator;
pub mod constants;
pub mod form_info;
pub mod form_items;
pub mod utils;

verus! {

/// Failure of billing-unit decoding or of the cost aggregation.
#[derive(Clone, Copy, Debug, PartialEq, Eq, Structural)]
pub enum CalcError {
    /// The given integer is not the code of any billing unit.
    InvalidUnit(i32),
    /// The lease period or the contract period is zero or negative, so the
    /// aggregation's divisions are undefined. Carries both observed values.
    InvalidDuration { lease_period: i32, contract_period: i32 },
}

} // verus!
