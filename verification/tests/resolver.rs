//! The per-unit resolution formulas, on concrete values.

use true_rent::calculator::RentItem;
use true_rent::constants::UnitId;

#[test]
fn every_contract_update() {
    let e = RentItem { value: 111, unit: UnitId::EveryContractUpdateYen };
    assert_eq!(e.get(1, 1), 0);
    assert_eq!(e.get(10, 11), 0);
    assert_eq!(e.get(11, 11), 0);
    assert_eq!(e.get(12, 11), 111);
    assert_eq!(e.get(22, 11), 111);
    assert_eq!(e.get(23, 11), 222);
}

#[test]
fn one_shot() {
    let e = RentItem { value: 111, unit: UnitId::OneShotYen };
    assert_eq!(e.get(1, 1), 111);
    assert_eq!(e.get(10, 11), 111);
    assert_eq!(e.get(11, 11), 111);
    assert_eq!(e.get(12, 11), 111);
    assert_eq!(e.get(22, 11), 111);
    assert_eq!(e.get(23, 11), 111);
}

#[test]
fn every_contract() {
    let e = RentItem { value: 111, unit: UnitId::EveryContractYen };
    assert_eq!(e.get(1, 1), 111);
    assert_eq!(e.get(10, 11), 111);
    assert_eq!(e.get(11, 11), 111);
    assert_eq!(e.get(12, 11), 222);
    assert_eq!(e.get(22, 11), 222);
    assert_eq!(e.get(23, 11), 333);
}

#[test]
fn monthly_scales_with_lease() {
    let e = RentItem { value: 111, unit: UnitId::MonthlyYen };
    assert_eq!(e.get(1, 1), 111);
    assert_eq!(e.get(10, 11), 1110);
    assert_eq!(e.get(24, 24), 2664);
}

#[test]
fn month_count_is_handed_back_unchanged() {
    let e = RentItem { value: 7, unit: UnitId::Month };
    assert_eq!(e.get(0, 0), 7);
    assert_eq!(e.get(23, 11), 7);
}

#[test]
fn single_term_bills_once() {
    let e = RentItem { value: 111, unit: UnitId::EveryContractYen };
    assert_eq!(e.get(24, 24), 111);
    let u = RentItem { value: 111, unit: UnitId::EveryContractUpdateYen };
    assert_eq!(u.get(24, 24), 0);
}

#[test]
fn term_exceeds_renewal_by_one_payment() {
    for &(lease, contract) in &[(1, 1), (10, 11), (11, 11), (12, 11), (22, 11), (23, 11), (24, 24)]
    {
        let term = RentItem { value: 111, unit: UnitId::EveryContractYen };
        let renewal = RentItem { value: 111, unit: UnitId::EveryContractUpdateYen };
        assert_eq!(term.get(lease, contract) - renewal.get(lease, contract), 111);
    }
}
