//! The billing-unit encoding: codes, labels, and the fallible decode.

use true_rent::CalcError;
use true_rent::constants::{InputId, UnitId};

const ALL_UNITS: [UnitId; 5] = [
    UnitId::MonthlyYen,
    UnitId::OneShotYen,
    UnitId::EveryContractYen,
    UnitId::EveryContractUpdateYen,
    UnitId::Month,
];

#[test]
fn codes_run_from_zero_to_four() {
    for (i, unit) in ALL_UNITS.iter().enumerate() {
        assert_eq!(unit.code(), i as i32);
    }
}

#[test]
fn decode_inverts_encode() {
    for unit in ALL_UNITS {
        assert_eq!(UnitId::try_from(unit.code()), Ok(unit));
    }
    for code in 0..=4 {
        assert_eq!(UnitId::try_from(code).unwrap().code(), code);
    }
}

#[test]
fn out_of_range_codes_are_rejected() {
    for code in [-1, 5, 99, i32::MIN, i32::MAX] {
        assert_eq!(UnitId::try_from(code), Err(CalcError::InvalidUnit(code)));
    }
}

#[test]
fn unit_labels() {
    assert_eq!(UnitId::MonthlyYen.to_string(), "円 / 月");
    assert_eq!(UnitId::OneShotYen.to_string(), "円（初回のみ）");
    assert_eq!(UnitId::EveryContractYen.to_string(), "円 / 契約");
    assert_eq!(UnitId::EveryContractUpdateYen.to_string(), "円 / 契約更新");
    assert_eq!(UnitId::Month.to_string(), "か月");
}

#[test]
fn input_ids_are_the_variant_names() {
    assert_eq!(InputId::Rent.to_string(), "Rent");
    assert_eq!(InputId::RentUnit.to_string(), "RentUnit");
    assert_eq!(InputId::LeasePeriod.to_string(), "LeasePeriod");
    assert_eq!(InputId::JsonExportTextArea.to_string(), "JsonExportTextArea");
}
