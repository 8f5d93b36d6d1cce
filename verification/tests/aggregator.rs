//! The cost aggregation end to end, on concrete fee records.

use true_rent::CalcError;
use true_rent::calculator::{RentCalculator, RentElements, RentItem};
use true_rent::constants::UnitId;

fn record(rent: i32, management: i32, lease: i32, contract: i32) -> RentElements {
    let zero = RentItem { value: 0, unit: UnitId::OneShotYen };
    RentElements {
        rent: RentItem { value: rent, unit: UnitId::MonthlyYen },
        management_fee: RentItem { value: management, unit: UnitId::MonthlyYen },
        free_rent_period: RentItem { value: 0, unit: UnitId::Month },
        guarantee_fee: zero,
        support_fee: zero,
        association_membership_fee: zero,
        key_money: zero,
        brokerage_fee: zero,
        guarantee_administrative_fee: zero,
        insurance_fee: zero,
        bicycle_space_fee: zero,
        car_space_fee: zero,
        key_change_fee: zero,
        cleaning_fee: zero,
        contract_update_fee: zero,
        contract_period: RentItem { value: contract, unit: UnitId::Month },
        lease_period: RentItem { value: lease, unit: UnitId::Month },
    }
}

#[test]
fn rent_and_management_only() {
    let e = record(50000, 2000, 24, 24);
    let result = RentCalculator {}.calc(e).unwrap();
    assert_eq!(result.lease_period, 24);
    assert_eq!(result.total, 1_248_000);
    assert_eq!(result.monthly, 52_000);
    assert_eq!(result.original_total, 1_248_000);
    assert_eq!(result.original_monthly, 52_000);
}

#[test]
fn one_shot_fees_spread_over_the_lease() {
    let mut e = record(50000, 2000, 24, 24);
    e.key_money = RentItem { value: 50000, unit: UnitId::OneShotYen };
    e.brokerage_fee = RentItem { value: 50000, unit: UnitId::OneShotYen };
    let result = RentCalculator {}.calc(e).unwrap();
    // 52000 yen per month plus 100000 yen once over 24 months.
    assert_eq!(result.total, 1_348_000);
    assert_eq!(result.monthly, 56_166);
    assert_eq!(result.original_total, 1_248_000);
    assert_eq!(result.original_monthly, 52_000);
}

#[test]
fn free_rent_discounts_resolved_monthly_rent() {
    let mut e = record(60000, 3000, 24, 24);
    e.free_rent_period = RentItem { value: 2, unit: UnitId::Month };
    let result = RentCalculator {}.calc(e).unwrap();
    // Two free months take away 2 * (1440000 / 24) = 120000 yen.
    assert_eq!(result.total, 60000 * 24 + 3000 * 24 - 120000);
}

#[test]
fn renewal_fee_charged_from_the_second_term() {
    let mut e = record(50000, 0, 36, 24);
    e.contract_update_fee = RentItem { value: 50000, unit: UnitId::EveryContractUpdateYen };
    let result = RentCalculator {}.calc(e).unwrap();
    // 36 months span two 24-month terms: one renewal.
    assert_eq!(result.total, 50000 * 36 + 50000);
}

#[test]
fn support_fee_left_out_of_the_total() {
    let mut e = record(50000, 2000, 24, 24);
    e.support_fee = RentItem { value: 1000, unit: UnitId::MonthlyYen };
    let result = RentCalculator {}.calc(e).unwrap();
    assert_eq!(result.total, 1_248_000);
}

#[test]
fn average_truncates_toward_zero() {
    let mut e = record(100, 0, 3, 3);
    e.key_money = RentItem { value: 50, unit: UnitId::OneShotYen };
    let result = RentCalculator {}.calc(e).unwrap();
    assert_eq!(result.total, 350);
    assert_eq!(result.monthly, 116);
}

#[test]
fn zero_lease_is_an_invalid_duration() {
    let e = record(50000, 2000, 0, 24);
    let result = RentCalculator {}.calc(e);
    assert_eq!(result, Err(CalcError::InvalidDuration { lease_period: 0, contract_period: 24 }));
}

#[test]
fn zero_contract_is_an_invalid_duration() {
    let e = record(50000, 2000, 24, 0);
    let result = RentCalculator {}.calc(e);
    assert_eq!(result, Err(CalcError::InvalidDuration { lease_period: 24, contract_period: 0 }));
}

#[test]
fn negative_lease_is_an_invalid_duration() {
    let e = record(50000, 2000, -3, 24);
    let result = RentCalculator {}.calc(e);
    assert_eq!(result, Err(CalcError::InvalidDuration { lease_period: -3, contract_period: 24 }));
}
