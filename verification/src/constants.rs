//! Identifiers shared by the calculator and the form description: the closed
//! set of billing units and the ids of the form's input slots.

use vstd::prelude::*;

use crate::CalcError;

verus! {

/// The HTML id of each element of the form that the application reads or
/// writes: one per fee value input, one per billing-unit selector, and a few
/// for the result and import/export areas.
#[derive(Clone, Copy, Debug, PartialEq, Eq, Structural)]
pub enum InputId {
    Rent,
    RentUnit,
    ManagementFee,
    ManagementFeeUnit,
    FreeRentPeriod,
    FreeRentPeriodUnit,
    SupportFee,
    SupportFeeUnit,
    GuaranteeFee,
    GuaranteeFeeUnit,
    AssociationMembershipFee,
    AssociationMembershipFeeUnit,
    KeyMoney,
    KeyMoneyUnit,
    BrokerageFee,
    BrokerageFeeUnit,
    GuaranteeAdministrativeFee,
    GuaranteeAdministrativeFeeUnit,
    InsuranceFee,
    InsuranceFeeUnit,
    BicycleSpaceFee,
    BicycleSpaceFeeUnit,
    CarSpaceFee,
    CarSpaceFeeUnit,
    KeyChangeFee,
    KeyChangeFeeUnit,
    CleaningFee,
    CleaningFeeUnit,
    ContractUpdateFee,
    ContractUpdateFeeUnit,
    ContractPeriod,
    ContractPeriodUnit,
    LeasePeriod,
    LeasePeriodUnit,
    CalcResultTitle,
    CalcResultBody,
    JsonExportTextArea,
    JsonImportTextArea,
}

impl InputId {
    /// The id string of this element: the bare name of the variant.
    pub open spec fn spec_str(self) -> Seq<char> {
        match self {
            InputId::Rent => "Rent"@,
            InputId::RentUnit => "RentUnit"@,
            InputId::ManagementFee => "ManagementFee"@,
            InputId::ManagementFeeUnit => "ManagementFeeUnit"@,
            InputId::FreeRentPeriod => "FreeRentPeriod"@,
            InputId::FreeRentPeriodUnit => "FreeRentPeriodUnit"@,
            InputId::SupportFee => "SupportFee"@,
            InputId::SupportFeeUnit => "SupportFeeUnit"@,
            InputId::GuaranteeFee => "GuaranteeFee"@,
            InputId::GuaranteeFeeUnit => "GuaranteeFeeUnit"@,
            InputId::AssociationMembershipFee => "AssociationMembershipFee"@,
            InputId::AssociationMembershipFeeUnit => "AssociationMembershipFeeUnit"@,
            InputId::KeyMoney => "KeyMoney"@,
            InputId::KeyMoneyUnit => "KeyMoneyUnit"@,
            InputId::BrokerageFee => "BrokerageFee"@,
            InputId::BrokerageFeeUnit => "BrokerageFeeUnit"@,
            InputId::GuaranteeAdministrativeFee => "GuaranteeAdministrativeFee"@,
            InputId::GuaranteeAdministrativeFeeUnit => "GuaranteeAdministrativeFeeUnit"@,
            InputId::InsuranceFee => "InsuranceFee"@,
            InputId::InsuranceFeeUnit => "InsuranceFeeUnit"@,
            InputId::BicycleSpaceFee => "BicycleSpaceFee"@,
            InputId::BicycleSpaceFeeUnit => "BicycleSpaceFeeUnit"@,
            InputId::CarSpaceFee => "CarSpaceFee"@,
            InputId::CarSpaceFeeUnit => "CarSpaceFeeUnit"@,
            InputId::KeyChangeFee => "KeyChangeFee"@,
            InputId::KeyChangeFeeUnit => "KeyChangeFeeUnit"@,
            InputId::CleaningFee => "CleaningFee"@,
            InputId::CleaningFeeUnit => "CleaningFeeUnit"@,
            InputId::ContractUpdateFee => "ContractUpdateFee"@,
            InputId::ContractUpdateFeeUnit => "ContractUpdateFeeUnit"@,
            InputId::ContractPeriod => "ContractPeriod"@,
            InputId::ContractPeriodUnit => "ContractPeriodUnit"@,
            InputId::LeasePeriod => "LeasePeriod"@,
            InputId::LeasePeriodUnit => "LeasePeriodUnit"@,
            InputId::CalcResultTitle => "CalcResultTitle"@,
            InputId::CalcResultBody => "CalcResultBody"@,
            InputId::JsonExportTextArea => "JsonExportTextArea"@,
            InputId::JsonImportTextArea => "JsonImportTextArea"@,
        }
    }

    /// The id string of this element, for building and querying the page.
    pub fn to_string(&self) -> (r: &'static str)
        ensures
            r@ == self.spec_str(),
    {
        match self {
            InputId::Rent => "Rent",
            InputId::RentUnit => "RentUnit",
            InputId::ManagementFee => "ManagementFee",
            InputId::ManagementFeeUnit => "ManagementFeeUnit",
            InputId::FreeRentPeriod => "FreeRentPeriod",
            InputId::FreeRentPeriodUnit => "FreeRentPeriodUnit",
            InputId::SupportFee => "SupportFee",
            InputId::SupportFeeUnit => "SupportFeeUnit",
            InputId::GuaranteeFee => "GuaranteeFee",
            InputId::GuaranteeFeeUnit => "GuaranteeFeeUnit",
            InputId::AssociationMembershipFee => "AssociationMembershipFee",
            InputId::AssociationMembershipFeeUnit => "AssociationMembershipFeeUnit",
            InputId::KeyMoney => "KeyMoney",
            InputId::KeyMoneyUnit => "KeyMoneyUnit",
            InputId::BrokerageFee => "BrokerageFee",
            InputId::BrokerageFeeUnit => "BrokerageFeeUnit",
            InputId::GuaranteeAdministrativeFee => "GuaranteeAdministrativeFee",
            InputId::GuaranteeAdministrativeFeeUnit => "GuaranteeAdministrativeFeeUnit",
            InputId::InsuranceFee => "InsuranceFee",
            InputId::InsuranceFeeUnit => "InsuranceFeeUnit",
            InputId::BicycleSpaceFee => "BicycleSpaceFee",
            InputId::BicycleSpaceFeeUnit => "BicycleSpaceFeeUnit",
            InputId::CarSpaceFee => "CarSpaceFee",
            InputId::CarSpaceFeeUnit => "CarSpaceFeeUnit",
            InputId::KeyChangeFee => "KeyChangeFee",
            InputId::KeyChangeFeeUnit => "KeyChangeFeeUnit",
            InputId::CleaningFee => "CleaningFee",
            InputId::CleaningFeeUnit => "CleaningFeeUnit",
            InputId::ContractUpdateFee => "ContractUpdateFee",
            InputId::ContractUpdateFeeUnit => "ContractUpdateFeeUnit",
            InputId::ContractPeriod => "ContractPeriod",
            InputId::ContractPeriodUnit => "ContractPeriodUnit",
            InputId::LeasePeriod => "LeasePeriod",
            InputId::LeasePeriodUnit => "LeasePeriodUnit",
            InputId::CalcResultTitle => "CalcResultTitle",
            InputId::CalcResultBody => "CalcResultBody",
            InputId::JsonExportTextArea => "JsonExportTextArea",
            InputId::JsonImportTextArea => "JsonImportTextArea",
        }
    }
}

/// The schedule under which a fee is billed. A closed enumeration: the
/// resolver matches on it exhaustively, so a new unit cannot silently fall
/// through to a default formula.
#[derive(Clone, Copy, Debug, PartialEq, Eq, Structural)]
pub enum UnitId {
    /// Yen billed every month of occupancy.
    MonthlyYen,
    /// Yen billed exactly once, regardless of duration.
    OneShotYen,
    /// Yen billed once per contract term, the starting term included.
    EveryContractYen,
    /// Yen billed at each contract renewal only; the first term is free.
    EveryContractUpdateYen,
    /// Not a currency amount: the value is itself a number of months.
    Month,
}

impl UnitId {
    /// The integer code of this unit in the wire encoding of a fee record.
    pub open spec fn spec_code(self) -> int {
        match self {
            UnitId::MonthlyYen => 0,
            UnitId::OneShotYen => 1,
            UnitId::EveryContractYen => 2,
            UnitId::EveryContractUpdateYen => 3,
            UnitId::Month => 4,
        }
    }

    /// The user-facing label of this unit.
    pub open spec fn spec_label(self) -> Seq<char> {
        match self {
            UnitId::MonthlyYen => "円 / 月"@,
            UnitId::OneShotYen => "円（初回のみ）"@,
            UnitId::EveryContractYen => "円 / 契約"@,
            UnitId::EveryContractUpdateYen => "円 / 契約更新"@,
            UnitId::Month => "か月"@,
        }
    }

    /// Encodes this unit as its integer code.
    pub fn code(&self) -> (r: i32)
        ensures
            r == self.spec_code(),
    {
        match self {
            UnitId::MonthlyYen => 0,
            UnitId::OneShotYen => 1,
            UnitId::EveryContractYen => 2,
            UnitId::EveryContractUpdateYen => 3,
            UnitId::Month => 4,
        }
    }

    /// Decodes a unit from an untrusted integer code. Every code from 0 to 4
    /// decodes to the unit bearing that code; everything else is rejected.
    pub fn try_from(value: i32) -> (r: Result<UnitId, CalcError>)
        ensures
            0 <= value <= 4 ==> r is Ok && r->Ok_0.spec_code() == value,
            !(0 <= value <= 4) ==> r == Err::<UnitId, CalcError>(CalcError::InvalidUnit(value)),
    {
        if value == 0 {
            Ok(UnitId::MonthlyYen)
        } else if value == 1 {
            Ok(UnitId::OneShotYen)
        } else if value == 2 {
            Ok(UnitId::EveryContractYen)
        } else if value == 3 {
            Ok(UnitId::EveryContractUpdateYen)
        } else if value == 4 {
            Ok(UnitId::Month)
        } else {
            Err(CalcError::InvalidUnit(value))
        }
    }

    /// The label under which this unit is shown in the form.
    pub fn to_string(&self) -> (r: &'static str)
        ensures
            r@ == self.spec_label(),
    {
        match self {
            UnitId::MonthlyYen => "円 / 月",
            UnitId::OneShotYen => "円（初回のみ）",
            UnitId::EveryContractYen => "円 / 契約",
            UnitId::EveryContractUpdateYen => "円 / 契約更新",
            UnitId::Month => "か月",
        }
    }
}

/// No two billing units share an integer code, so a decoded unit re-encodes
/// to the code it came from and an encoded unit decodes back to itself.
pub proof fn lemma_unit_code_injective(a: UnitId, b: UnitId)
    requires
        a.spec_code() == b.spec_code(),
    ensures
        a == b,
{
}

} // verus!
