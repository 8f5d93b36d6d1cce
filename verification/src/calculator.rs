//! The fee-normalization and aggregation engine: resolves each fee's billing
//! unit into a total over the tenancy, and nets the totals into an effective
//! monthly rent.

use vstd::prelude::*;

use vstd::arithmetic::div_mod::{lemma_basic_div, lemma_div_nonincreasing, lemma_div_pos_is_pos};
use vstd::arithmetic::mul::{lemma_mul_is_distributive_add, lemma_mul_nonnegative};

use crate::CalcError;
use crate::constants::UnitId;

verus! {

/// Total contribution of a fee of `value` yen billed under `unit`, over a
/// tenancy of `lease_period` months with contracts of `contract_period`
/// months. For the `Month` unit the value is a month count, not yen, and is
/// handed back unchanged.
pub open spec fn resolve_spec(value: int, unit: UnitId, lease_period: int, contract_period: int) -> int {
    match unit {
        UnitId::MonthlyYen => value * lease_period,
        UnitId::OneShotYen => value,
        UnitId::EveryContractYen => value * (1 + (lease_period - 1) / contract_period),
        UnitId::EveryContractUpdateYen => vstd::math::max(0, value * ((lease_period - 1) / contract_period)),
        UnitId::Month => value,
    }
}

/// The machine-width side conditions under which the resolver's `i32`
/// arithmetic is defined: the divisor is positive where the formula divides,
/// and the product stays within `i32`.
pub open spec fn resolve_fits(value: int, unit: UnitId, lease_period: int, contract_period: int) -> bool {
    match unit {
        UnitId::MonthlyYen => i32::MIN <= value * lease_period <= i32::MAX,
        UnitId::OneShotYen => true,
        UnitId::EveryContractYen => lease_period >= 1 && contract_period >= 1
            && i32::MIN <= value * (1 + (lease_period - 1) / contract_period) <= i32::MAX,
        UnitId::EveryContractUpdateYen => lease_period >= 1 && contract_period >= 1
            && i32::MIN <= value * ((lease_period - 1) / contract_period) <= i32::MAX,
        UnitId::Month => true,
    }
}

/// One fee slot: a nominal value and the billing unit that says how the
/// value accrues over the tenancy.
#[derive(Clone, Copy, Debug, PartialEq, Eq, Structural)]
pub struct RentItem {
    pub value: i32,
    pub unit: UnitId,
}

impl RentItem {
    /// Resolves this fee into its total over the tenancy, following the
    /// formula of its billing unit.
    pub fn get(&self, lease_period: i32, contract_period: i32) -> (r: i32)
        requires
            resolve_fits(self.value as int, self.unit, lease_period as int, contract_period as int),
        ensures
            r == resolve_spec(self.value as int, self.unit, lease_period as int, contract_period as int),
    {
        match self.unit {
            UnitId::MonthlyYen => self.value * lease_period,
            UnitId::OneShotYen => self.value,
            UnitId::EveryContractYen => {
                proof {
                    lemma_div_pos_is_pos((lease_period - 1) as int, contract_period as int);
                    lemma_div_nonincreasing((lease_period - 1) as int, contract_period as int);
                }
                let q: i32 = (lease_period - 1) / contract_period;
                self.value * (1 + q)
            },
            UnitId::EveryContractUpdateYen => {
                proof {
                    lemma_div_pos_is_pos((lease_period - 1) as int, contract_period as int);
                    lemma_div_nonincreasing((lease_period - 1) as int, contract_period as int);
                }
                let q: i32 = (lease_period - 1) / contract_period;
                let p: i32 = self.value * q;
                if p < 0 {
                    0
                } else {
                    p
                }
            },
            UnitId::Month => self.value,
        }
    }
}

/// Integer division truncating toward zero, as the executable `/` computes
/// it on a positive divisor. It differs from the mathematical `/` (which
/// rounds toward negative infinity) only on negative dividends.
pub open spec fn div_trunc(a: int, b: int) -> int {
    if a >= 0 {
        a / b
    } else {
        -((-a) / b)
    }
}

/// Divides truncating toward zero. The quotient never exceeds the dividend
/// in magnitude.
fn div_trunc_i64(a: i64, b: i64) -> (r: i64)
    requires
        1 <= b,
        i64::MIN < a,
    ensures
        r == div_trunc(a as int, b as int),
        a >= 0 ==> 0 <= r <= a,
        a < 0 ==> a <= r <= 0,
{
    if a >= 0 {
        proof {
            lemma_div_pos_is_pos(a as int, b as int);
            lemma_div_nonincreasing(a as int, b as int);
        }
        a / b
    } else {
        let n: i64 = -a;
        proof {
            lemma_div_pos_is_pos(n as int, b as int);
            lemma_div_nonincreasing(n as int, b as int);
        }
        -(n / b)
    }
}

/// The fee record of one tenancy: an ordered, fixed set of named fee slots.
/// The two duration slots, `contract_period` and `lease_period`, are month
/// counts rather than currency: they supply the tenancy length and the
/// renewal period that the other slots are resolved against, and contribute
/// nothing to the cost sum themselves.
#[derive(Clone, Copy, Debug, PartialEq, Eq, Structural)]
pub struct RentElements {
    pub rent: RentItem,
    pub management_fee: RentItem,
    pub free_rent_period: RentItem,
    pub guarantee_fee: RentItem,
    pub support_fee: RentItem,
    pub association_membership_fee: RentItem,
    pub key_money: RentItem,
    pub brokerage_fee: RentItem,
    pub guarantee_administrative_fee: RentItem,
    pub insurance_fee: RentItem,
    pub bicycle_space_fee: RentItem,
    pub car_space_fee: RentItem,
    pub key_change_fee: RentItem,
    pub cleaning_fee: RentItem,
    pub contract_update_fee: RentItem,
    pub contract_period: RentItem,
    pub lease_period: RentItem,
}

impl RentElements {
    /// The intended occupancy, in months.
    pub open spec fn lease_months(self) -> int {
        self.lease_period.value as int
    }

    /// The contract renewal period, in months.
    pub open spec fn contract_months(self) -> int {
        self.contract_period.value as int
    }

    /// The two duration slots are tagged as month counts, as the data model
    /// fixes them: a duration billed like currency has no meaning here.
    pub open spec fn durations_tagged(self) -> bool {
        self.lease_period.unit is Month && self.contract_period.unit is Month
    }

    /// Resolution of one slot against this record's durations.
    pub open spec fn resolved(self, item: RentItem) -> int {
        resolve_spec(item.value as int, item.unit, self.lease_months(), self.contract_months())
    }

    /// The per-month value of the resolved rent: deliberately the resolved
    /// total divided back down, not the nominal monthly figure. It is the
    /// basis of the free-rent discount.
    pub open spec fn monthly_rent_basis(self) -> int {
        div_trunc(self.resolved(self.rent), self.lease_months())
    }

    /// The full cost of the tenancy: every currency slot resolved over the
    /// tenancy, minus one month of rent for each free-rent month. The
    /// support fee, though part of the record, is left out of the sum; so
    /// are the two duration slots, which are not currency.
    pub open spec fn total_spec(self) -> int {
        self.resolved(self.rent)
            + self.resolved(self.management_fee)
            + self.resolved(self.guarantee_fee)
            + self.resolved(self.association_membership_fee)
            - self.monthly_rent_basis() * self.resolved(self.free_rent_period)
            + self.resolved(self.key_money)
            + self.resolved(self.brokerage_fee)
            + self.resolved(self.guarantee_administrative_fee)
            + self.resolved(self.insurance_fee)
            + self.resolved(self.bicycle_space_fee)
            + self.resolved(self.car_space_fee)
            + self.resolved(self.key_change_fee)
            + self.resolved(self.cleaning_fee)
            + self.resolved(self.contract_update_fee)
    }

    /// The baseline figure: only the headline rent and the management fee,
    /// for comparison against the full total.
    pub open spec fn nominal_total_spec(self) -> int {
        self.resolved(self.rent) + self.resolved(self.management_fee)
    }

    /// The resolution of `item` against this record's durations stays
    /// within `i32`.
    pub open spec fn slot_fits(self, item: RentItem) -> bool {
        resolve_fits(item.value as int, item.unit, self.lease_months(), self.contract_months())
    }

    /// The machine-width side conditions of the aggregation: each resolved
    /// slot and both totals stay within `i32`.
    pub open spec fn fits(self) -> bool {
        &&& self.slot_fits(self.rent)
        &&& self.slot_fits(self.management_fee)
        &&& self.slot_fits(self.free_rent_period)
        &&& self.slot_fits(self.guarantee_fee)
        &&& self.slot_fits(self.association_membership_fee)
        &&& self.slot_fits(self.key_money)
        &&& self.slot_fits(self.brokerage_fee)
        &&& self.slot_fits(self.guarantee_administrative_fee)
        &&& self.slot_fits(self.insurance_fee)
        &&& self.slot_fits(self.bicycle_space_fee)
        &&& self.slot_fits(self.car_space_fee)
        &&& self.slot_fits(self.key_change_fee)
        &&& self.slot_fits(self.cleaning_fee)
        &&& self.slot_fits(self.contract_update_fee)
        &&& i32::MIN <= self.total_spec() <= i32::MAX
        &&& i32::MIN <= self.nominal_total_spec() <= i32::MAX
    }
}

/// The computed cost of one tenancy, all fields derived and in whole yen
/// (but `lease_period`, in months).
#[derive(Clone, Copy, Debug, PartialEq, Eq, Structural)]
pub struct RentResult {
    pub lease_period: i32,
    pub total: i32,
    pub monthly: i32,
    pub original_total: i32,
    pub original_monthly: i32,
}

/// The cost aggregator: resolves every fee slot of a record and nets the
/// results into totals and monthly averages.
pub struct RentCalculator {}

impl RentCalculator {
    /// The full cost of the tenancy, as `RentElements::total_spec` states it.
    fn total(&self, e: &RentElements) -> (r: i32)
        requires
            e.durations_tagged(),
            e.lease_months() >= 1,
            e.contract_months() >= 1,
            e.fits(),
        ensures
            r == e.total_spec(),
    {
        let lease_period = e.lease_period.get(0, 0);
        let contract_period = e.contract_period.get(0, 0);

        let rent_sum: i64 = e.rent.get(lease_period, contract_period) as i64;
        let rent: i64 = div_trunc_i64(rent_sum, lease_period as i64);
        let free_months: i64 = e.free_rent_period.get(lease_period, contract_period) as i64;
        proof {
            assert(-0x4000_0000_0000_0000 <= rent * free_months <= 0x4000_0000_0000_0000)
                by (nonlinear_arith)
                requires
                    -0x8000_0000 <= rent <= 0x8000_0000,
                    -0x8000_0000 <= free_months <= 0x8000_0000,
            ;
        }
        let discount: i64 = rent * free_months;

        let sum: i64 = rent_sum
            + (e.management_fee.get(lease_period, contract_period) as i64)
            + (e.guarantee_fee.get(lease_period, contract_period) as i64)
            + (e.association_membership_fee.get(lease_period, contract_period) as i64)
            - discount
            + (e.key_money.get(lease_period, contract_period) as i64)
            + (e.brokerage_fee.get(lease_period, contract_period) as i64)
            + (e.guarantee_administrative_fee.get(lease_period, contract_period) as i64)
            + (e.insurance_fee.get(lease_period, contract_period) as i64)
            + (e.bicycle_space_fee.get(lease_period, contract_period) as i64)
            + (e.car_space_fee.get(lease_period, contract_period) as i64)
            + (e.key_change_fee.get(lease_period, contract_period) as i64)
            + (e.cleaning_fee.get(lease_period, contract_period) as i64)
            + (e.contract_update_fee.get(lease_period, contract_period) as i64);

        sum as i32
    }

    /// Computes the cost of the tenancy described by `e`.
    ///
    /// Succeeds exactly when both durations are at least one month; a zero
    /// or negative duration comes back as `InvalidDuration` carrying the
    /// offending values. On success, every field of the result is pinned:
    /// the total and the nominal baseline as their spec functions state
    /// them, and the monthly averages as the totals divided by the lease
    /// period, truncating toward zero.
    pub fn calc(&self, e: RentElements) -> (r: Result<RentResult, CalcError>)
        requires
            e.durations_tagged(),
            e.lease_months() >= 1 && e.contract_months() >= 1 ==> e.fits(),
        ensures
            r is Ok <==> e.lease_months() >= 1 && e.contract_months() >= 1,
            r is Err ==> r->Err_0 == (CalcError::InvalidDuration {
                lease_period: e.lease_period.value,
                contract_period: e.contract_period.value,
            }),
            r is Ok ==> r->Ok_0.lease_period == e.lease_months(),
            r is Ok ==> r->Ok_0.total == e.total_spec(),
            r is Ok ==> r->Ok_0.monthly == div_trunc(e.total_spec(), e.lease_months()),
            r is Ok ==> r->Ok_0.original_total == e.nominal_total_spec(),
            r is Ok ==> r->Ok_0.original_monthly == div_trunc(
                e.nominal_total_spec(),
                e.lease_months(),
            ),
    {
        let lease_period = e.lease_period.get(0, 0);
        let contract_period = e.contract_period.get(0, 0);
        if lease_period < 1 || contract_period < 1 {
            return Err(CalcError::InvalidDuration { lease_period, contract_period });
        }

        let total = self.total(&e);

        let original_total_wide: i64 = e.rent.get(lease_period, contract_period) as i64
            + e.management_fee.get(lease_period, contract_period) as i64;
        let original_total: i32 = original_total_wide as i32;

        let monthly: i64 = div_trunc_i64(total as i64, lease_period as i64);
        let original_monthly: i64 = div_trunc_i64(original_total as i64, lease_period as i64);

        Ok(
            RentResult {
                lease_period,
                total,
                monthly: monthly as i32,
                original_total,
                original_monthly: original_monthly as i32,
            },
        )
    }
}

/// Over any tenancy, a fee billed per contract term totals exactly one
/// payment more than the same fee billed per contract renewal: the tenant
/// pays for the term they start in, and renewals trail the terms by one.
pub proof fn lemma_term_exceeds_renewal_by_one_payment(amount: int, lease_period: int, contract_period: int)
    requires
        amount >= 0,
        lease_period >= 1,
        contract_period >= 1,
    ensures
        resolve_spec(amount, UnitId::EveryContractYen, lease_period, contract_period)
            - resolve_spec(amount, UnitId::EveryContractUpdateYen, lease_period, contract_period)
            == amount,
{
    let q = (lease_period - 1) / contract_period;
    lemma_div_pos_is_pos(lease_period - 1, contract_period);
    lemma_mul_nonnegative(amount, q);
    lemma_mul_is_distributive_add(amount, 1, q);
}

/// A tenancy that exactly fills one contract term pays a per-term fee once
/// and a per-renewal fee not at all.
pub proof fn lemma_single_term(amount: int, months: int)
    requires
        amount >= 0,
        months >= 1,
    ensures
        resolve_spec(amount, UnitId::EveryContractYen, months, months) == amount,
        resolve_spec(amount, UnitId::EveryContractUpdateYen, months, months) == 0,
{
    lemma_basic_div(months - 1, months);
}

/// A one-shot fee contributes the same total over every tenancy: its
/// resolution is constant in the lease period and the contract period.
pub proof fn lemma_one_shot_constant(
    amount: int,
    lease_a: int,
    contract_a: int,
    lease_b: int,
    contract_b: int,
)
    ensures
        resolve_spec(amount, UnitId::OneShotYen, lease_a, contract_a)
            == resolve_spec(amount, UnitId::OneShotYen, lease_b, contract_b),
{
}

/// A monthly fee's total over the tenancy is its amount times the number of
/// months of occupancy.
pub proof fn lemma_monthly_scales_with_lease(amount: int, lease_period: int, contract_period: int)
    ensures
        resolve_spec(amount, UnitId::MonthlyYen, lease_period, contract_period)
            == amount * lease_period,
{
}

} // verus!
