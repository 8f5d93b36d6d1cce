//! The data behind the fee form: one row per fee, each with a caption, a
//! numeric input, a selector of admissible billing units, and a folded
//! detail note. The surrounding application renders these rows as HTML;
//! here they are plain values.

use vstd::prelude::*;

use vstd::string::StringExecFns;

use crate::constants::UnitId;

verus! {

/// The id of one HTML element of the form.
#[derive(Clone, Debug, PartialEq, Eq)]
pub struct HtmlId(pub String);

/// What the numeric input of one form row accepts, and its initial value.
#[derive(Clone, Copy, Debug, PartialEq, Eq, Structural)]
pub struct InputValidation {
    pub default_value: Option<u32>,
    pub min: Option<u32>,
    pub required: Option<bool>,
}

impl Default for InputValidation {
    /// Zero as the initial value, nothing below zero, and required.
    fn default() -> (r: Self)
        ensures
            r == (InputValidation {
                default_value: Some(0u32),
                min: Some(0u32),
                required: Some(true),
            }),
    {
        InputValidation { default_value: Some(0), min: Some(0), required: Some(true) }
    }
}

/// The caption of one form row, tied to its input and its detail note.
pub struct LabelForInputItem {
    pub text: String,
    pub input_id: HtmlId,
    pub detail_id: HtmlId,
}

/// The numeric input of one form row.
pub struct InputItem {
    pub id: HtmlId,
    pub detail_id: HtmlId,
    pub input_validation: InputValidation,
}

/// The folded explanatory note of one form row.
pub struct DetailForInputItem {
    pub id: HtmlId,
    pub text: String,
}

/// One row of the fee form. The detail note's id is the input's id with
/// `_detail` appended, so the caption can toggle the note.
pub struct RentItem {
    pub label: LabelForInputItem,
    pub input: InputItem,
    pub unit_info: (Vec<UnitId>, HtmlId),
    pub detail: DetailForInputItem,
}

impl RentItem {
    /// Builds one form row. Every id of the row derives from the two raw
    /// ids given: the input and its caption use `input_id_raw`, the unit
    /// selector uses `unit_id_raw`, and the detail note uses `input_id_raw`
    /// with `_detail` appended.
    pub fn new(
        item_text: &str,
        unit: Vec<UnitId>,
        unit_id_raw: &str,
        detail_text: &str,
        input_id_raw: &str,
        input_validation: InputValidation,
    ) -> (r: Self)
        ensures
            r.label.text@ == item_text@,
            r.label.input_id.0@ == input_id_raw@,
            r.label.detail_id.0@ == input_id_raw@ + "_detail"@,
            r.input.id.0@ == input_id_raw@,
            r.input.detail_id.0@ == input_id_raw@ + "_detail"@,
            r.input.input_validation == input_validation,
            r.unit_info.0@ == unit@,
            r.unit_info.1.0@ == unit_id_raw@,
            r.detail.id.0@ == input_id_raw@ + "_detail"@,
            r.detail.text@ == detail_text@,
    {
        RentItem {
            label: LabelForInputItem {
                text: String::from_str(item_text),
                input_id: HtmlId(String::from_str(input_id_raw)),
                detail_id: HtmlId(String::from_str(input_id_raw).concat("_detail")),
            },
            input: InputItem {
                id: HtmlId(String::from_str(input_id_raw)),
                detail_id: HtmlId(String::from_str(input_id_raw).concat("_detail")),
                input_validation,
            },
            unit_info: (unit, HtmlId(String::from_str(unit_id_raw))),
            detail: DetailForInputItem {
                id: HtmlId(String::from_str(input_id_raw).concat("_detail")),
                text: String::from_str(detail_text),
            },
        }
    }
}

/// The whole fee form: its rows, in display order.
pub struct Forms {
    pub items: Vec<RentItem>,
}

impl Forms {
    pub fn new(items: Vec<RentItem>) -> (r: Forms)
        ensures
            r.items@ == items@,
    {
        Forms { items }
    }
}

} // verus!
