//! The form description: row order, element ids, unit choices and defaults.

use true_rent::constants::UnitId;
use true_rent::form_info::create_form;
use true_rent::form_items::{InputValidation, RentItem};

#[test]
fn form_has_seventeen_rows() {
    let forms = create_form();
    assert_eq!(forms.items.len(), 17);
}

#[test]
fn first_row_is_the_rent() {
    let forms = create_form();
    let row = &forms.items[0];
    assert_eq!(row.input.id.0, "Rent");
    assert_eq!(row.label.input_id.0, "Rent");
    assert_eq!(row.unit_info.1.0, "RentUnit");
    assert_eq!(row.unit_info.0, vec![UnitId::MonthlyYen]);
    assert_eq!(row.input.input_validation.default_value, Some(50000));
    assert_eq!(row.label.text, "賃料");
}

#[test]
fn detail_note_id_derives_from_the_input_id() {
    let forms = create_form();
    let row = &forms.items[0];
    assert_eq!(row.detail.id.0, "Rent_detail");
    assert_eq!(row.input.detail_id.0, "Rent_detail");
    assert_eq!(row.label.detail_id.0, "Rent_detail");
}

#[test]
fn duration_rows_are_month_counts() {
    let forms = create_form();
    let contract = &forms.items[15];
    assert_eq!(contract.input.id.0, "ContractPeriod");
    assert_eq!(contract.unit_info.0, vec![UnitId::Month]);
    assert_eq!(contract.input.input_validation.default_value, Some(24));
    let lease = &forms.items[16];
    assert_eq!(lease.input.id.0, "LeasePeriod");
    assert_eq!(lease.unit_info.0, vec![UnitId::Month]);
    assert_eq!(lease.input.input_validation.default_value, Some(24));
}

#[test]
fn guarantee_fee_offers_three_units() {
    let forms = create_form();
    let row = &forms.items[5];
    assert_eq!(row.input.id.0, "GuaranteeFee");
    assert_eq!(
        row.unit_info.0,
        vec![UnitId::OneShotYen, UnitId::MonthlyYen, UnitId::EveryContractYen]
    );
}

#[test]
fn every_row_requires_a_non_negative_value() {
    let forms = create_form();
    for row in &forms.items {
        assert_eq!(row.input.input_validation.min, Some(0));
        assert_eq!(row.input.input_validation.required, Some(true));
    }
}

#[test]
fn row_construction_pins_every_field() {
    let row = RentItem::new(
        "label",
        vec![UnitId::OneShotYen],
        "UnitSel",
        "detail",
        "Value",
        InputValidation::default(),
    );
    assert_eq!(row.label.text, "label");
    assert_eq!(row.label.input_id.0, "Value");
    assert_eq!(row.label.detail_id.0, "Value_detail");
    assert_eq!(row.input.id.0, "Value");
    assert_eq!(row.input.detail_id.0, "Value_detail");
    assert_eq!(row.input.input_validation, InputValidation::default());
    assert_eq!(row.unit_info.0, vec![UnitId::OneShotYen]);
    assert_eq!(row.unit_info.1.0, "UnitSel");
    assert_eq!(row.detail.id.0, "Value_detail");
    assert_eq!(row.detail.text, "detail");
}

#[test]
fn default_validation_is_zero_and_required() {
    let v = InputValidation::default();
    assert_eq!(v.default_value, Some(0));
    assert_eq!(v.min, Some(0));
    assert_eq!(v.required, Some(true));
}
