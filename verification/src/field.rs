//! The fields that a text frame of the serial protocol can carry: the label
//! under which each arrives, the kind of value it holds, and the key under
//! which it is published.

use vstd::prelude::*;

verus! {

/// Number of distinct fields of a text frame.
pub const FIELD_COUNT: usize = 59;

/// Number of fields whose values are averaged over a publishing period.
pub const AVERAGED_COUNT: usize = 17;

/// The kind of value that a field carries.
#[derive(Clone, Copy, Debug, PartialEq, Eq, Structural)]
pub enum FieldKind {
    /// A decimal integer that must fit in an `isize`.
    Int,
    /// Free text, kept as it arrived.
    Text,
    /// A floating-point literal; the published value is ten times the number.
    Float,
}

/// One field of a text frame.
#[derive(Clone, Copy, Debug, PartialEq, Eq, Structural)]
pub enum Field {
    MainBatteryVoltage,
    Channel2BatteryVoltage,
    Channel3BatteryVoltage,
    AuxiliaryStarterVoltage,
    BatteryBankMidpointVoltage,
    BatteryBankMidpointDeviation,
    PanelVoltage,
    PanelPower,
    MainBatteryCurrent,
    Channel2BatteryCurrent,
    Channel3BatteryCurrent,
    LoadCurrent,
    LoadOutputState,
    BatteryTemperature,
    InstantaneousPower,
    ConsumedAmpHours,
    StateOfCharge,
    TimeToGo,
    AlarmActive,
    RelayState,
    AlarmReason,
    OffReason,
    DischargeDepthDeepest,
    DischargeDepthLast,
    DischargeDepthAverage,
    NumberOfChargeCycles,
    NumberOfFullDischarges,
    CumulativeAmpHoursDrawn,
    MainBatteryVoltageMin,
    MainBatteryVoltageMax,
    SecondsSinceLastFullCharge,
    NumberOfAutomaticSynchronizations,
    NumberOfAlarmsMainVoltageLow,
    NumberOfAlarmsMainVoltageHigh,
    NumberOfAlarmsAuxiliaryVoltageLow,
    NumberOfAlarmsAuxliaryVoltageHigh,
    AuxiliaryBatteryVoltageMin,
    AuxiliaryBatteryVoltageMax,
    EnergyDischargedOrProduced,
    EnergyChargedOrConsumed,
    YieldTotal,
    YieldToday,
    PowerTodayMax,
    YieldYesterday,
    PowerYesterdayMax,
    ErrorCode,
    StateOfOperation,
    FirmwareVersion16bit,
    FirmwareVersion24bit,
    ProductId,
    SerialNumber,
    DaySequenceNumber,
    DeviceMode,
    AcOutputVoltage,
    AcOutputCurrent,
    AcOutputApparentPower,
    WarningReason,
    TrackerModeOperation,
    DcMonitorMode,
}

impl Field {
    /// The label (the bytes before the tab) under which the field arrives.
    pub open spec fn label(self) -> Seq<u8> {
        match self {
            Field::MainBatteryVoltage => seq![86u8],
            Field::Channel2BatteryVoltage => seq![86u8, 50u8],
            Field::Channel3BatteryVoltage => seq![86u8, 51u8],
            Field::AuxiliaryStarterVoltage => seq![86u8, 83u8],
            Field::BatteryBankMidpointVoltage => seq![86u8, 77u8],
            Field::BatteryBankMidpointDeviation => seq![68u8, 77u8],
            Field::PanelVoltage => seq![86u8, 80u8, 86u8],
            Field::PanelPower => seq![80u8, 80u8, 86u8],
            Field::MainBatteryCurrent => seq![73u8],
            Field::Channel2BatteryCurrent => seq![73u8, 50u8],
            Field::Channel3BatteryCurrent => seq![73u8, 51u8],
            Field::LoadCurrent => seq![73u8, 76u8],
            Field::LoadOutputState => seq![76u8, 79u8, 65u8, 68u8],
            Field::BatteryTemperature => seq![84u8],
            Field::InstantaneousPower => seq![80u8],
            Field::ConsumedAmpHours => seq![67u8, 69u8],
            Field::StateOfCharge => seq![83u8, 79u8, 67u8],
            Field::TimeToGo => seq![84u8, 84u8, 71u8],
            Field::AlarmActive => seq![65u8, 108u8, 97u8, 114u8, 109u8],
            Field::RelayState => seq![82u8, 101u8, 108u8, 97u8, 121u8],
            Field::AlarmReason => seq![65u8, 82u8],
            Field::OffReason => seq![79u8, 82u8],
            Field::DischargeDepthDeepest => seq![72u8, 49u8],
            Field::DischargeDepthLast => seq![72u8, 50u8],
            Field::DischargeDepthAverage => seq![72u8, 51u8],
            Field::NumberOfChargeCycles => seq![72u8, 52u8],
            Field::NumberOfFullDischarges => seq![72u8, 53u8],
            Field::CumulativeAmpHoursDrawn => seq![72u8, 54u8],
            Field::MainBatteryVoltageMin => seq![72u8, 55u8],
            Field::MainBatteryVoltageMax => seq![72u8, 56u8],
            Field::SecondsSinceLastFullCharge => seq![72u8, 57u8],
            Field::NumberOfAutomaticSynchronizations => seq![72u8, 49u8, 48u8],
            Field::NumberOfAlarmsMainVoltageLow => seq![72u8, 49u8, 49u8],
            Field::NumberOfAlarmsMainVoltageHigh => seq![72u8, 49u8, 50u8],
            Field::NumberOfAlarmsAuxiliaryVoltageLow => seq![72u8, 49u8, 51u8],
            Field::NumberOfAlarmsAuxliaryVoltageHigh => seq![72u8, 49u8, 52u8],
            Field::AuxiliaryBatteryVoltageMin => seq![72u8, 49u8, 53u8],
            Field::AuxiliaryBatteryVoltageMax => seq![72u8, 49u8, 54u8],
            Field::EnergyDischargedOrProduced => seq![72u8, 49u8, 55u8],
            Field::EnergyChargedOrConsumed => seq![72u8, 49u8, 56u8],
            Field::YieldTotal => seq![72u8, 49u8, 57u8],
            Field::YieldToday => seq![72u8, 50u8, 48u8],
            Field::PowerTodayMax => seq![72u8, 50u8, 49u8],
            Field::YieldYesterday => seq![72u8, 50u8, 50u8],
            Field::PowerYesterdayMax => seq![72u8, 50u8, 51u8],
            Field::ErrorCode => seq![69u8, 82u8, 82u8],
            Field::StateOfOperation => seq![67u8, 83u8],
            Field::FirmwareVersion16bit => seq![70u8, 87u8],
            Field::FirmwareVersion24bit => seq![70u8, 87u8, 69u8],
            Field::ProductId => seq![80u8, 73u8, 68u8],
            Field::SerialNumber => seq![83u8, 69u8, 82u8, 35u8],
            Field::DaySequenceNumber => seq![72u8, 83u8, 68u8, 83u8],
            Field::DeviceMode => seq![77u8, 79u8, 68u8, 69u8],
            Field::AcOutputVoltage => seq![65u8, 67u8, 95u8, 79u8, 85u8, 84u8, 95u8, 86u8],
            Field::AcOutputCurrent => seq![65u8, 67u8, 95u8, 79u8, 85u8, 84u8, 95u8, 73u8],
            Field::AcOutputApparentPower => seq![65u8, 67u8, 95u8, 79u8, 85u8, 84u8, 95u8, 83u8],
            Field::WarningReason => seq![87u8, 65u8, 82u8, 78u8],
            Field::TrackerModeOperation => seq![77u8, 80u8, 80u8, 84u8],
            Field::DcMonitorMode => seq![77u8, 79u8, 78u8],
        }
    }

    /// The kind of value that the field carries.
    pub open spec fn spec_kind(self) -> FieldKind {
        match self {
            Field::MainBatteryVoltage => FieldKind::Int,
            Field::Channel2BatteryVoltage => FieldKind::Int,
            Field::Channel3BatteryVoltage => FieldKind::Int,
            Field::AuxiliaryStarterVoltage => FieldKind::Int,
            Field::BatteryBankMidpointVoltage => FieldKind::Int,
            Field::BatteryBankMidpointDeviation => FieldKind::Int,
            Field::PanelVoltage => FieldKind::Int,
            Field::PanelPower => FieldKind::Int,
            Field::MainBatteryCurrent => FieldKind::Int,
            Field::Channel2BatteryCurrent => FieldKind::Int,
            Field::Channel3BatteryCurrent => FieldKind::Int,
            Field::LoadCurrent => FieldKind::Int,
            Field::LoadOutputState => FieldKind::Text,
            Field::BatteryTemperature => FieldKind::Int,
            Field::InstantaneousPower => FieldKind::Int,
            Field::ConsumedAmpHours => FieldKind::Int,
            Field::StateOfCharge => FieldKind::Int,
            Field::TimeToGo => FieldKind::Int,
            Field::AlarmActive => FieldKind::Text,
            Field::RelayState => FieldKind::Text,
            Field::AlarmReason => FieldKind::Int,
            Field::OffReason => FieldKind::Text,
            Field::DischargeDepthDeepest => FieldKind::Int,
            Field::DischargeDepthLast => FieldKind::Int,
            Field::DischargeDepthAverage => FieldKind::Int,
            Field::NumberOfChargeCycles => FieldKind::Int,
            Field::NumberOfFullDischarges => FieldKind::Int,
            Field::CumulativeAmpHoursDrawn => FieldKind::Int,
            Field::MainBatteryVoltageMin => FieldKind::Int,
            Field::MainBatteryVoltageMax => FieldKind::Int,
            Field::SecondsSinceLastFullCharge => FieldKind::Int,
            Field::NumberOfAutomaticSynchronizations => FieldKind::Int,
            Field::NumberOfAlarmsMainVoltageLow => FieldKind::Int,
            Field::NumberOfAlarmsMainVoltageHigh => FieldKind::Int,
            Field::NumberOfAlarmsAuxiliaryVoltageLow => FieldKind::Int,
            Field::NumberOfAlarmsAuxliaryVoltageHigh => FieldKind::Int,
            Field::AuxiliaryBatteryVoltageMin => FieldKind::Int,
            Field::AuxiliaryBatteryVoltageMax => FieldKind::Int,
            Field::EnergyDischargedOrProduced => FieldKind::Float,
            Field::EnergyChargedOrConsumed => FieldKind::Float,
            Field::YieldTotal => FieldKind::Float,
            Field::YieldToday => FieldKind::Float,
            Field::PowerTodayMax => FieldKind::Int,
            Field::YieldYesterday => FieldKind::Float,
            Field::PowerYesterdayMax => FieldKind::Int,
            Field::ErrorCode => FieldKind::Int,
            Field::StateOfOperation => FieldKind::Int,
            Field::FirmwareVersion16bit => FieldKind::Text,
            Field::FirmwareVersion24bit => FieldKind::Text,
            Field::ProductId => FieldKind::Text,
            Field::SerialNumber => FieldKind::Text,
            Field::DaySequenceNumber => FieldKind::Int,
            Field::DeviceMode => FieldKind::Int,
            Field::AcOutputVoltage => FieldKind::Int,
            Field::AcOutputCurrent => FieldKind::Int,
            Field::AcOutputApparentPower => FieldKind::Int,
            Field::WarningReason => FieldKind::Int,
            Field::TrackerModeOperation => FieldKind::Int,
            Field::DcMonitorMode => FieldKind::Int,
        }
    }

    /// The kind of value that the field carries.
    #[verifier::when_used_as_spec(spec_kind)]
    pub fn kind(self) -> (k: FieldKind)
        ensures
            k == self.spec_kind(),
    {
        match self {
            Field::MainBatteryVoltage => FieldKind::Int,
            Field::Channel2BatteryVoltage => FieldKind::Int,
            Field::Channel3BatteryVoltage => FieldKind::Int,
            Field::AuxiliaryStarterVoltage => FieldKind::Int,
            Field::BatteryBankMidpointVoltage => FieldKind::Int,
            Field::BatteryBankMidpointDeviation => FieldKind::Int,
            Field::PanelVoltage => FieldKind::Int,
            Field::PanelPower => FieldKind::Int,
            Field::MainBatteryCurrent => FieldKind::Int,
            Field::Channel2BatteryCurrent => FieldKind::Int,
            Field::Channel3BatteryCurrent => FieldKind::Int,
            Field::LoadCurrent => FieldKind::Int,
            Field::LoadOutputState => FieldKind::Text,
            Field::BatteryTemperature => FieldKind::Int,
            Field::InstantaneousPower => FieldKind::Int,
            Field::ConsumedAmpHours => FieldKind::Int,
            Field::StateOfCharge => FieldKind::Int,
            Field::TimeToGo => FieldKind::Int,
            Field::AlarmActive => FieldKind::Text,
            Field::RelayState => FieldKind::Text,
            Field::AlarmReason => FieldKind::Int,
            Field::OffReason => FieldKind::Text,
            Field::DischargeDepthDeepest => FieldKind::Int,
            Field::DischargeDepthLast => FieldKind::Int,
            Field::DischargeDepthAverage => FieldKind::Int,
            Field::NumberOfChargeCycles => FieldKind::Int,
            Field::NumberOfFullDischarges => FieldKind::Int,
            Field::CumulativeAmpHoursDrawn => FieldKind::Int,
            Field::MainBatteryVoltageMin => FieldKind::Int,
            Field::MainBatteryVoltageMax => FieldKind::Int,
            Field::SecondsSinceLastFullCharge => FieldKind::Int,
            Field::NumberOfAutomaticSynchronizations => FieldKind::Int,
            Field::NumberOfAlarmsMainVoltageLow => FieldKind::Int,
            Field::NumberOfAlarmsMainVoltageHigh => FieldKind::Int,
            Field::NumberOfAlarmsAuxiliaryVoltageLow => FieldKind::Int,
            Field::NumberOfAlarmsAuxliaryVoltageHigh => FieldKind::Int,
            Field::AuxiliaryBatteryVoltageMin => FieldKind::Int,
            Field::AuxiliaryBatteryVoltageMax => FieldKind::Int,
            Field::EnergyDischargedOrProduced => FieldKind::Float,
            Field::EnergyChargedOrConsumed => FieldKind::Float,
            Field::YieldTotal => FieldKind::Float,
            Field::YieldToday => FieldKind::Float,
            Field::PowerTodayMax => FieldKind::Int,
            Field::YieldYesterday => FieldKind::Float,
            Field::PowerYesterdayMax => FieldKind::Int,
            Field::ErrorCode => FieldKind::Int,
            Field::StateOfOperation => FieldKind::Int,
            Field::FirmwareVersion16bit => FieldKind::Text,
            Field::FirmwareVersion24bit => FieldKind::Text,
            Field::ProductId => FieldKind::Text,
            Field::SerialNumber => FieldKind::Text,
            Field::DaySequenceNumber => FieldKind::Int,
            Field::DeviceMode => FieldKind::Int,
            Field::AcOutputVoltage => FieldKind::Int,
            Field::AcOutputCurrent => FieldKind::Int,
            Field::AcOutputApparentPower => FieldKind::Int,
            Field::WarningReason => FieldKind::Int,
            Field::TrackerModeOperation => FieldKind::Int,
            Field::DcMonitorMode => FieldKind::Int,
        }
    }

    /// The position of the field in frame order.
    pub open spec fn spec_index(self) -> usize {
        match self {
            Field::MainBatteryVoltage => 0,
            Field::Channel2BatteryVoltage => 1,
            Field::Channel3BatteryVoltage => 2,
            Field::AuxiliaryStarterVoltage => 3,
            Field::BatteryBankMidpointVoltage => 4,
            Field::BatteryBankMidpointDeviation => 5,
            Field::PanelVoltage => 6,
            Field::PanelPower => 7,
            Field::MainBatteryCurrent => 8,
            Field::Channel2BatteryCurrent => 9,
            Field::Channel3BatteryCurrent => 10,
            Field::LoadCurrent => 11,
            Field::LoadOutputState => 12,
            Field::BatteryTemperature => 13,
            Field::InstantaneousPower => 14,
            Field::ConsumedAmpHours => 15,
            Field::StateOfCharge => 16,
            Field::TimeToGo => 17,
            Field::AlarmActive => 18,
            Field::RelayState => 19,
            Field::AlarmReason => 20,
            Field::OffReason => 21,
            Field::DischargeDepthDeepest => 22,
            Field::DischargeDepthLast => 23,
            Field::DischargeDepthAverage => 24,
            Field::NumberOfChargeCycles => 25,
            Field::NumberOfFullDischarges => 26,
            Field::CumulativeAmpHoursDrawn => 27,
            Field::MainBatteryVoltageMin => 28,
            Field::MainBatteryVoltageMax => 29,
            Field::SecondsSinceLastFullCharge => 30,
            Field::NumberOfAutomaticSynchronizations => 31,
            Field::NumberOfAlarmsMainVoltageLow => 32,
            Field::NumberOfAlarmsMainVoltageHigh => 33,
            Field::NumberOfAlarmsAuxiliaryVoltageLow => 34,
            Field::NumberOfAlarmsAuxliaryVoltageHigh => 35,
            Field::AuxiliaryBatteryVoltageMin => 36,
            Field::AuxiliaryBatteryVoltageMax => 37,
            Field::EnergyDischargedOrProduced => 38,
            Field::EnergyChargedOrConsumed => 39,
            Field::YieldTotal => 40,
            Field::YieldToday => 41,
            Field::PowerTodayMax => 42,
            Field::YieldYesterday => 43,
            Field::PowerYesterdayMax => 44,
            Field::ErrorCode => 45,
            Field::StateOfOperation => 46,
            Field::FirmwareVersion16bit => 47,
            Field::FirmwareVersion24bit => 48,
            Field::ProductId => 49,
            Field::SerialNumber => 50,
            Field::DaySequenceNumber => 51,
            Field::DeviceMode => 52,
            Field::AcOutputVoltage => 53,
            Field::AcOutputCurrent => 54,
            Field::AcOutputApparentPower => 55,
            Field::WarningReason => 56,
            Field::TrackerModeOperation => 57,
            Field::DcMonitorMode => 58,
        }
    }

    /// The field at position `i` in frame order.
    pub open spec fn at(i: int) -> Field {
        if i == 0 {
            Field::MainBatteryVoltage
        } else if i == 1 {
            Field::Channel2BatteryVoltage
        } else if i == 2 {
            Field::Channel3BatteryVoltage
        } else if i == 3 {
            Field::AuxiliaryStarterVoltage
        } else if i == 4 {
            Field::BatteryBankMidpointVoltage
        } else if i == 5 {
            Field::BatteryBankMidpointDeviation
        } else if i == 6 {
            Field::PanelVoltage
        } else if i == 7 {
            Field::PanelPower
        } else if i == 8 {
            Field::MainBatteryCurrent
        } else if i == 9 {
            Field::Channel2BatteryCurrent
        } else if i == 10 {
            Field::Channel3BatteryCurrent
        } else if i == 11 {
            Field::LoadCurrent
        } else if i == 12 {
            Field::LoadOutputState
        } else if i == 13 {
            Field::BatteryTemperature
        } else if i == 14 {
            Field::InstantaneousPower
        } else if i == 15 {
            Field::ConsumedAmpHours
        } else if i == 16 {
            Field::StateOfCharge
        } else if i == 17 {
            Field::TimeToGo
        } else if i == 18 {
            Field::AlarmActive
        } else if i == 19 {
            Field::RelayState
        } else if i == 20 {
            Field::AlarmReason
        } else if i == 21 {
            Field::OffReason
        } else if i == 22 {
            Field::DischargeDepthDeepest
        } else if i == 23 {
            Field::DischargeDepthLast
        } else if i == 24 {
            Field::DischargeDepthAverage
        } else if i == 25 {
            Field::NumberOfChargeCycles
        } else if i == 26 {
            Field::NumberOfFullDischarges
        } else if i == 27 {
            Field::CumulativeAmpHoursDrawn
        } else if i == 28 {
            Field::MainBatteryVoltageMin
        } else if i == 29 {
            Field::MainBatteryVoltageMax
        } else if i == 30 {
            Field::SecondsSinceLastFullCharge
        } else if i == 31 {
            Field::NumberOfAutomaticSynchronizations
        } else if i == 32 {
            Field::NumberOfAlarmsMainVoltageLow
        } else if i == 33 {
            Field::NumberOfAlarmsMainVoltageHigh
        } else if i == 34 {
            Field::NumberOfAlarmsAuxiliaryVoltageLow
        } else if i == 35 {
            Field::NumberOfAlarmsAuxliaryVoltageHigh
        } else if i == 36 {
            Field::AuxiliaryBatteryVoltageMin
        } else if i == 37 {
            Field::AuxiliaryBatteryVoltageMax
        } else if i == 38 {
            Field::EnergyDischargedOrProduced
        } else if i == 39 {
            Field::EnergyChargedOrConsumed
        } else if i == 40 {
            Field::YieldTotal
        } else if i == 41 {
            Field::YieldToday
        } else if i == 42 {
            Field::PowerTodayMax
        } else if i == 43 {
            Field::YieldYesterday
        } else if i == 44 {
            Field::PowerYesterdayMax
        } else if i == 45 {
            Field::ErrorCode
        } else if i == 46 {
            Field::StateOfOperation
        } else if i == 47 {
            Field::FirmwareVersion16bit
        } else if i == 48 {
            Field::FirmwareVersion24bit
        } else if i == 49 {
            Field::ProductId
        } else if i == 50 {
            Field::SerialNumber
        } else if i == 51 {
            Field::DaySequenceNumber
        } else if i == 52 {
            Field::DeviceMode
        } else if i == 53 {
            Field::AcOutputVoltage
        } else if i == 54 {
            Field::AcOutputCurrent
        } else if i == 55 {
            Field::AcOutputApparentPower
        } else if i == 56 {
            Field::WarningReason
        } else if i == 57 {
            Field::TrackerModeOperation
        } else {
            Field::DcMonitorMode
        }
    }

    /// The field at position `i` in frame order.
    pub fn from_index(i: usize) -> (f: Field)
        requires
            i < FIELD_COUNT,
        ensures
            f == Field::at(i as int),
            f.spec_index() == i,
    {
        if i == 0 {
            Field::MainBatteryVoltage
        } else if i == 1 {
            Field::Channel2BatteryVoltage
        } else if i == 2 {
            Field::Channel3BatteryVoltage
        } else if i == 3 {
            Field::AuxiliaryStarterVoltage
        } else if i == 4 {
            Field::BatteryBankMidpointVoltage
        } else if i == 5 {
            Field::BatteryBankMidpointDeviation
        } else if i == 6 {
            Field::PanelVoltage
        } else if i == 7 {
            Field::PanelPower
        } else if i == 8 {
            Field::MainBatteryCurrent
        } else if i == 9 {
            Field::Channel2BatteryCurrent
        } else if i == 10 {
            Field::Channel3BatteryCurrent
        } else if i == 11 {
            Field::LoadCurrent
        } else if i == 12 {
            Field::LoadOutputState
        } else if i == 13 {
            Field::BatteryTemperature
        } else if i == 14 {
            Field::InstantaneousPower
        } else if i == 15 {
            Field::ConsumedAmpHours
        } else if i == 16 {
            Field::StateOfCharge
        } else if i == 17 {
            Field::TimeToGo
        } else if i == 18 {
            Field::AlarmActive
        } else if i == 19 {
            Field::RelayState
        } else if i == 20 {
            Field::AlarmReason
        } else if i == 21 {
            Field::OffReason
        } else if i == 22 {
            Field::DischargeDepthDeepest
        } else if i == 23 {
            Field::DischargeDepthLast
        } else if i == 24 {
            Field::DischargeDepthAverage
        } else if i == 25 {
            Field::NumberOfChargeCycles
        } else if i == 26 {
            Field::NumberOfFullDischarges
        } else if i == 27 {
            Field::CumulativeAmpHoursDrawn
        } else if i == 28 {
            Field::MainBatteryVoltageMin
        } else if i == 29 {
            Field::MainBatteryVoltageMax
        } else if i == 30 {
            Field::SecondsSinceLastFullCharge
        } else if i == 31 {
            Field::NumberOfAutomaticSynchronizations
        } else if i == 32 {
            Field::NumberOfAlarmsMainVoltageLow
        } else if i == 33 {
            Field::NumberOfAlarmsMainVoltageHigh
        } else if i == 34 {
            Field::NumberOfAlarmsAuxiliaryVoltageLow
        } else if i == 35 {
            Field::NumberOfAlarmsAuxliaryVoltageHigh
        } else if i == 36 {
            Field::AuxiliaryBatteryVoltageMin
        } else if i == 37 {
            Field::AuxiliaryBatteryVoltageMax
        } else if i == 38 {
            Field::EnergyDischargedOrProduced
        } else if i == 39 {
            Field::EnergyChargedOrConsumed
        } else if i == 40 {
            Field::YieldTotal
        } else if i == 41 {
            Field::YieldToday
        } else if i == 42 {
            Field::PowerTodayMax
        } else if i == 43 {
            Field::YieldYesterday
        } else if i == 44 {
            Field::PowerYesterdayMax
        } else if i == 45 {
            Field::ErrorCode
        } else if i == 46 {
            Field::StateOfOperation
        } else if i == 47 {
            Field::FirmwareVersion16bit
        } else if i == 48 {
            Field::FirmwareVersion24bit
        } else if i == 49 {
            Field::ProductId
        } else if i == 50 {
            Field::SerialNumber
        } else if i == 51 {
            Field::DaySequenceNumber
        } else if i == 52 {
            Field::DeviceMode
        } else if i == 53 {
            Field::AcOutputVoltage
        } else if i == 54 {
            Field::AcOutputCurrent
        } else if i == 55 {
            Field::AcOutputApparentPower
        } else if i == 56 {
            Field::WarningReason
        } else if i == 57 {
            Field::TrackerModeOperation
        } else {
            Field::DcMonitorMode
        }
    }

    /// Positions and fields correspond one to one.
    pub proof fn lemma_index(self)
        ensures
            self.spec_index() < FIELD_COUNT,
            Field::at(self.spec_index() as int) == self,
    {
    }

    /// Whether the field's values are averaged over a publishing period.
    pub open spec fn is_averaged(self) -> bool {
        self.average_slot() is Some
    }

    /// For an averaged field, its position among the averaged fields.
    pub open spec fn average_slot(self) -> Option<usize> {
        match self {
            Field::MainBatteryVoltage => Some(0usize),
            Field::Channel2BatteryVoltage => Some(1usize),
            Field::Channel3BatteryVoltage => Some(2usize),
            Field::AuxiliaryStarterVoltage => Some(3usize),
            Field::BatteryBankMidpointVoltage => Some(4usize),
            Field::BatteryBankMidpointDeviation => Some(5usize),
            Field::PanelVoltage => Some(6usize),
            Field::PanelPower => Some(7usize),
            Field::MainBatteryCurrent => Some(8usize),
            Field::Channel2BatteryCurrent => Some(9usize),
            Field::Channel3BatteryCurrent => Some(10usize),
            Field::LoadCurrent => Some(11usize),
            Field::BatteryTemperature => Some(12usize),
            Field::InstantaneousPower => Some(13usize),
            Field::AcOutputVoltage => Some(14usize),
            Field::AcOutputCurrent => Some(15usize),
            Field::AcOutputApparentPower => Some(16usize),
            _ => None,
        }
    }

    /// For an averaged field, its position among the averaged fields.
    pub fn averaged_slot(self) -> (r: Option<usize>)
        ensures
            r == self.average_slot(),
            r matches Some(s) ==> s < AVERAGED_COUNT,
    {
        match self {
            Field::MainBatteryVoltage => Some(0),
            Field::Channel2BatteryVoltage => Some(1),
            Field::Channel3BatteryVoltage => Some(2),
            Field::AuxiliaryStarterVoltage => Some(3),
            Field::BatteryBankMidpointVoltage => Some(4),
            Field::BatteryBankMidpointDeviation => Some(5),
            Field::PanelVoltage => Some(6),
            Field::PanelPower => Some(7),
            Field::MainBatteryCurrent => Some(8),
            Field::Channel2BatteryCurrent => Some(9),
            Field::Channel3BatteryCurrent => Some(10),
            Field::LoadCurrent => Some(11),
            Field::BatteryTemperature => Some(12),
            Field::InstantaneousPower => Some(13),
            Field::AcOutputVoltage => Some(14),
            Field::AcOutputCurrent => Some(15),
            Field::AcOutputApparentPower => Some(16),
            _ => None,
        }
    }

    /// The averaged field at position `s` among the averaged fields.
    pub open spec fn averaged_at(s: int) -> Field {
        if s == 0 {
            Field::MainBatteryVoltage
        } else if s == 1 {
            Field::Channel2BatteryVoltage
        } else if s == 2 {
            Field::Channel3BatteryVoltage
        } else if s == 3 {
            Field::AuxiliaryStarterVoltage
        } else if s == 4 {
            Field::BatteryBankMidpointVoltage
        } else if s == 5 {
            Field::BatteryBankMidpointDeviation
        } else if s == 6 {
            Field::PanelVoltage
        } else if s == 7 {
            Field::PanelPower
        } else if s == 8 {
            Field::MainBatteryCurrent
        } else if s == 9 {
            Field::Channel2BatteryCurrent
        } else if s == 10 {
            Field::Channel3BatteryCurrent
        } else if s == 11 {
            Field::LoadCurrent
        } else if s == 12 {
            Field::BatteryTemperature
        } else if s == 13 {
            Field::InstantaneousPower
        } else if s == 14 {
            Field::AcOutputVoltage
        } else if s == 15 {
            Field::AcOutputCurrent
        } else {
            Field::AcOutputApparentPower
        }
    }

    /// The averaged field at position `s` among the averaged fields.
    pub fn averaged_field(s: usize) -> (f: Field)
        requires
            s < AVERAGED_COUNT,
        ensures
            f == Field::averaged_at(s as int),
            f.average_slot() == Some(s),
    {
        if s == 0 {
            Field::MainBatteryVoltage
        } else if s == 1 {
            Field::Channel2BatteryVoltage
        } else if s == 2 {
            Field::Channel3BatteryVoltage
        } else if s == 3 {
            Field::AuxiliaryStarterVoltage
        } else if s == 4 {
            Field::BatteryBankMidpointVoltage
        } else if s == 5 {
            Field::BatteryBankMidpointDeviation
        } else if s == 6 {
            Field::PanelVoltage
        } else if s == 7 {
            Field::PanelPower
        } else if s == 8 {
            Field::MainBatteryCurrent
        } else if s == 9 {
            Field::Channel2BatteryCurrent
        } else if s == 10 {
            Field::Channel3BatteryCurrent
        } else if s == 11 {
            Field::LoadCurrent
        } else if s == 12 {
            Field::BatteryTemperature
        } else if s == 13 {
            Field::InstantaneousPower
        } else if s == 14 {
            Field::AcOutputVoltage
        } else if s == 15 {
            Field::AcOutputCurrent
        } else {
            Field::AcOutputApparentPower
        }
    }

    /// Averaged fields and their positions correspond one to one.
    pub proof fn lemma_average_slot(self)
        ensures
            self.average_slot() matches Some(s) ==> s < AVERAGED_COUNT && Field::averaged_at(s as int) == self,
    {
    }

    /// The field with label `name` is the one that arrives under it.
    pub proof fn lemma_named_label(self)
        ensures
            Field::named(self.label()) == Some(self),
    {
        match self {
            Field::MainBatteryVoltage => {},
            Field::Channel2BatteryVoltage => {},
            Field::Channel3BatteryVoltage => {},
            Field::AuxiliaryStarterVoltage => {},
            Field::BatteryBankMidpointVoltage => {},
            Field::BatteryBankMidpointDeviation => {},
            Field::PanelVoltage => {},
            Field::PanelPower => {},
            Field::MainBatteryCurrent => {},
            Field::Channel2BatteryCurrent => {},
            Field::Channel3BatteryCurrent => {},
            Field::LoadCurrent => {},
            Field::LoadOutputState => {},
            Field::BatteryTemperature => {},
            Field::InstantaneousPower => {},
            Field::ConsumedAmpHours => {},
            Field::StateOfCharge => {},
            Field::TimeToGo => {},
            Field::AlarmActive => {},
            Field::RelayState => {},
            Field::AlarmReason => {},
            Field::OffReason => {},
            Field::DischargeDepthDeepest => {},
            Field::DischargeDepthLast => {},
            Field::DischargeDepthAverage => {},
            Field::NumberOfChargeCycles => {},
            Field::NumberOfFullDischarges => {},
            Field::CumulativeAmpHoursDrawn => {},
            Field::MainBatteryVoltageMin => {},
            Field::MainBatteryVoltageMax => {},
            Field::SecondsSinceLastFullCharge => {},
            Field::NumberOfAutomaticSynchronizations => {},
            Field::NumberOfAlarmsMainVoltageLow => {},
            Field::NumberOfAlarmsMainVoltageHigh => {},
            Field::NumberOfAlarmsAuxiliaryVoltageLow => {},
            Field::NumberOfAlarmsAuxliaryVoltageHigh => {},
            Field::AuxiliaryBatteryVoltageMin => {},
            Field::AuxiliaryBatteryVoltageMax => {},
            Field::EnergyDischargedOrProduced => {},
            Field::EnergyChargedOrConsumed => {},
            Field::YieldTotal => {},
            Field::YieldToday => {},
            Field::PowerTodayMax => {},
            Field::YieldYesterday => {},
            Field::PowerYesterdayMax => {},
            Field::ErrorCode => {},
            Field::StateOfOperation => {},
            Field::FirmwareVersion16bit => {},
            Field::FirmwareVersion24bit => {},
            Field::ProductId => {},
            Field::SerialNumber => {},
            Field::DaySequenceNumber => {},
            Field::DeviceMode => {},
            Field::AcOutputVoltage => {},
            Field::AcOutputCurrent => {},
            Field::AcOutputApparentPower => {},
            Field::WarningReason => {},
            Field::TrackerModeOperation => {},
            Field::DcMonitorMode => {},
        }
    }

    /// Only a field's own label names it: the label under which a field
    /// arrives is its label.
    pub proof fn lemma_label_of_named(name: Seq<u8>)
        ensures
            Field::named(name) matches Some(f) ==> name == f.label(),
    {
        if let Some(f) = Field::named(name) {
            assert(name =~= f.label());
        }
    }

    /// The field that arrives under `name`, if any: the one whose label is
    /// `name`, tested by length and then byte by byte.
    pub open spec fn named(name: Seq<u8>) -> Option<Field> {
        if name.len() == 1 {
            if name[0] == 86u8 {
                Some(Field::MainBatteryVoltage)
            } else if name[0] == 73u8 {
                Some(Field::MainBatteryCurrent)
            } else if name[0] == 84u8 {
                Some(Field::BatteryTemperature)
            } else if name[0] == 80u8 {
                Some(Field::InstantaneousPower)
            } else {
                None
            }
        } else if name.len() == 2 {
            if name[0] == 86u8 && name[1] == 50u8 {
                Some(Field::Channel2BatteryVoltage)
            } else if name[0] == 86u8 && name[1] == 51u8 {
                Some(Field::Channel3BatteryVoltage)
            } else if name[0] == 86u8 && name[1] == 83u8 {
                Some(Field::AuxiliaryStarterVoltage)
            } else if name[0] == 86u8 && name[1] == 77u8 {
                Some(Field::BatteryBankMidpointVoltage)
            } else if name[0] == 68u8 && name[1] == 77u8 {
                Some(Field::BatteryBankMidpointDeviation)
            } else if name[0] == 73u8 && name[1] == 50u8 {
                Some(Field::Channel2BatteryCurrent)
            } else if name[0] == 73u8 && name[1] == 51u8 {
                Some(Field::Channel3BatteryCurrent)
            } else if name[0] == 73u8 && name[1] == 76u8 {
                Some(Field::LoadCurrent)
            } else if name[0] == 67u8 && name[1] == 69u8 {
                Some(Field::ConsumedAmpHours)
            } else if name[0] == 65u8 && name[1] == 82u8 {
                Some(Field::AlarmReason)
            } else if name[0] == 79u8 && name[1] == 82u8 {
                Some(Field::OffReason)
            } else if name[0] == 72u8 && name[1] == 49u8 {
                Some(Field::DischargeDepthDeepest)
            } else if name[0] == 72u8 && name[1] == 50u8 {
                Some(Field::DischargeDepthLast)
            } else if name[0] == 72u8 && name[1] == 51u8 {
                Some(Field::DischargeDepthAverage)
            } else if name[0] == 72u8 && name[1] == 52u8 {
                Some(Field::NumberOfChargeCycles)
            } else if name[0] == 72u8 && name[1] == 53u8 {
                Some(Field::NumberOfFullDischarges)
            } else if name[0] == 72u8 && name[1] == 54u8 {
                Some(Field::CumulativeAmpHoursDrawn)
            } else if name[0] == 72u8 && name[1] == 55u8 {
                Some(Field::MainBatteryVoltageMin)
            } else if name[0] == 72u8 && name[1] == 56u8 {
                Some(Field::MainBatteryVoltageMax)
            } else if name[0] == 72u8 && name[1] == 57u8 {
                Some(Field::SecondsSinceLastFullCharge)
            } else if name[0] == 67u8 && name[1] == 83u8 {
                Some(Field::StateOfOperation)
            } else if name[0] == 70u8 && name[1] == 87u8 {
                Some(Field::FirmwareVersion16bit)
            } else {
                None
            }
        } else if name.len() == 3 {
            if name[0] == 86u8 && name[1] == 80u8 && name[2] == 86u8 {
                Some(Field::PanelVoltage)
            } else if name[0] == 80u8 && name[1] == 80u8 && name[2] == 86u8 {
                Some(Field::PanelPower)
            } else if name[0] == 83u8 && name[1] == 79u8 && name[2] == 67u8 {
                Some(Field::StateOfCharge)
            } else if name[0] == 84u8 && name[1] == 84u8 && name[2] == 71u8 {
                Some(Field::TimeToGo)
            } else if name[0] == 72u8 && name[1] == 49u8 && name[2] == 48u8 {
                Some(Field::NumberOfAutomaticSynchronizations)
            } else if name[0] == 72u8 && name[1] == 49u8 && name[2] == 49u8 {
                Some(Field::NumberOfAlarmsMainVoltageLow)
            } else if name[0] == 72u8 && name[1] == 49u8 && name[2] == 50u8 {
                Some(Field::NumberOfAlarmsMainVoltageHigh)
            } else if name[0] == 72u8 && name[1] == 49u8 && name[2] == 51u8 {
                Some(Field::NumberOfAlarmsAuxiliaryVoltageLow)
            } else if name[0] == 72u8 && name[1] == 49u8 && name[2] == 52u8 {
                Some(Field::NumberOfAlarmsAuxliaryVoltageHigh)
            } else if name[0] == 72u8 && name[1] == 49u8 && name[2] == 53u8 {
                Some(Field::AuxiliaryBatteryVoltageMin)
            } else if name[0] == 72u8 && name[1] == 49u8 && name[2] == 54u8 {
                Some(Field::AuxiliaryBatteryVoltageMax)
            } else if name[0] == 72u8 && name[1] == 49u8 && name[2] == 55u8 {
                Some(Field::EnergyDischargedOrProduced)
            } else if name[0] == 72u8 && name[1] == 49u8 && name[2] == 56u8 {
                Some(Field::EnergyChargedOrConsumed)
            } else if name[0] == 72u8 && name[1] == 49u8 && name[2] == 57u8 {
                Some(Field::YieldTotal)
            } else if name[0] == 72u8 && name[1] == 50u8 && name[2] == 48u8 {
                Some(Field::YieldToday)
            } else if name[0] == 72u8 && name[1] == 50u8 && name[2] == 49u8 {
                Some(Field::PowerTodayMax)
            } else if name[0] == 72u8 && name[1] == 50u8 && name[2] == 50u8 {
                Some(Field::YieldYesterday)
            } else if name[0] == 72u8 && name[1] == 50u8 && name[2] == 51u8 {
                Some(Field::PowerYesterdayMax)
            } else if name[0] == 69u8 && name[1] == 82u8 && name[2] == 82u8 {
                Some(Field::ErrorCode)
            } else if name[0] == 70u8 && name[1] == 87u8 && name[2] == 69u8 {
                Some(Field::FirmwareVersion24bit)
            } else if name[0] == 80u8 && name[1] == 73u8 && name[2] == 68u8 {
                Some(Field::ProductId)
            } else if name[0] == 77u8 && name[1] == 79u8 && name[2] == 78u8 {
                Some(Field::DcMonitorMode)
            } else {
                None
            }
        } else if name.len() == 4 {
            if name[0] == 76u8 && name[1] == 79u8 && name[2] == 65u8 && name[3] == 68u8 {
                Some(Field::LoadOutputState)
            } else if name[0] == 83u8 && name[1] == 69u8 && name[2] == 82u8 && name[3] == 35u8 {
                Some(Field::SerialNumber)
            } else if name[0] == 72u8 && name[1] == 83u8 && name[2] == 68u8 && name[3] == 83u8 {
                Some(Field::DaySequenceNumber)
            } else if name[0] == 77u8 && name[1] == 79u8 && name[2] == 68u8 && name[3] == 69u8 {
                Some(Field::DeviceMode)
            } else if name[0] == 87u8 && name[1] == 65u8 && name[2] == 82u8 && name[3] == 78u8 {
                Some(Field::WarningReason)
            } else if name[0] == 77u8 && name[1] == 80u8 && name[2] == 80u8 && name[3] == 84u8 {
                Some(Field::TrackerModeOperation)
            } else {
                None
            }
        } else if name.len() == 5 {
            if name[0] == 65u8 && name[1] == 108u8 && name[2] == 97u8 && name[3] == 114u8 && name[4] == 109u8 {
                Some(Field::AlarmActive)
            } else if name[0] == 82u8 && name[1] == 101u8 && name[2] == 108u8 && name[3] == 97u8 && name[4] == 121u8 {
                Some(Field::RelayState)
            } else {
                None
            }
        } else if name.len() == 8 {
            if name[0] == 65u8 && name[1] == 67u8 && name[2] == 95u8 && name[3] == 79u8 && name[4] == 85u8 && name[5] == 84u8 && name[6] == 95u8 && name[7] == 86u8 {
                Some(Field::AcOutputVoltage)
            } else if name[0] == 65u8 && name[1] == 67u8 && name[2] == 95u8 && name[3] == 79u8 && name[4] == 85u8 && name[5] == 84u8 && name[6] == 95u8 && name[7] == 73u8 {
                Some(Field::AcOutputCurrent)
            } else if name[0] == 65u8 && name[1] == 67u8 && name[2] == 95u8 && name[3] == 79u8 && name[4] == 85u8 && name[5] == 84u8 && name[6] == 95u8 && name[7] == 83u8 {
                Some(Field::AcOutputApparentPower)
            } else {
                None
            }
        } else {
            None
        }
    }

    /// The field that arrives under the label `name`, if any.
    pub fn from_label(name: &[u8]) -> (r: Option<Field>)
        ensures
            r == Field::named(name@),
    {
        if name.len() == 1 {
            if name[0] == 86u8 {
                Some(Field::MainBatteryVoltage)
            } else if name[0] == 73u8 {
                Some(Field::MainBatteryCurrent)
            } else if name[0] == 84u8 {
                Some(Field::BatteryTemperature)
            } else if name[0] == 80u8 {
                Some(Field::InstantaneousPower)
            } else {
                None
            }
        } else if name.len() == 2 {
            if name[0] == 86u8 && name[1] == 50u8 {
                Some(Field::Channel2BatteryVoltage)
            } else if name[0] == 86u8 && name[1] == 51u8 {
                Some(Field::Channel3BatteryVoltage)
            } else if name[0] == 86u8 && name[1] == 83u8 {
                Some(Field::AuxiliaryStarterVoltage)
            } else if name[0] == 86u8 && name[1] == 77u8 {
                Some(Field::BatteryBankMidpointVoltage)
            } else if name[0] == 68u8 && name[1] == 77u8 {
                Some(Field::BatteryBankMidpointDeviation)
            } else if name[0] == 73u8 && name[1] == 50u8 {
                Some(Field::Channel2BatteryCurrent)
            } else if name[0] == 73u8 && name[1] == 51u8 {
                Some(Field::Channel3BatteryCurrent)
            } else if name[0] == 73u8 && name[1] == 76u8 {
                Some(Field::LoadCurrent)
            } else if name[0] == 67u8 && name[1] == 69u8 {
                Some(Field::ConsumedAmpHours)
            } else if name[0] == 65u8 && name[1] == 82u8 {
                Some(Field::AlarmReason)
            } else if name[0] == 79u8 && name[1] == 82u8 {
                Some(Field::OffReason)
            } else if name[0] == 72u8 && name[1] == 49u8 {
                Some(Field::DischargeDepthDeepest)
            } else if name[0] == 72u8 && name[1] == 50u8 {
                Some(Field::DischargeDepthLast)
            } else if name[0] == 72u8 && name[1] == 51u8 {
                Some(Field::DischargeDepthAverage)
            } else if name[0] == 72u8 && name[1] == 52u8 {
                Some(Field::NumberOfChargeCycles)
            } else if name[0] == 72u8 && name[1] == 53u8 {
                Some(Field::NumberOfFullDischarges)
            } else if name[0] == 72u8 && name[1] == 54u8 {
                Some(Field::CumulativeAmpHoursDrawn)
            } else if name[0] == 72u8 && name[1] == 55u8 {
                Some(Field::MainBatteryVoltageMin)
            } else if name[0] == 72u8 && name[1] == 56u8 {
                Some(Field::MainBatteryVoltageMax)
            } else if name[0] == 72u8 && name[1] == 57u8 {
                Some(Field::SecondsSinceLastFullCharge)
            } else if name[0] == 67u8 && name[1] == 83u8 {
                Some(Field::StateOfOperation)
            } else if name[0] == 70u8 && name[1] == 87u8 {
                Some(Field::FirmwareVersion16bit)
            } else {
                None
            }
        } else if name.len() == 3 {
            if name[0] == 86u8 && name[1] == 80u8 && name[2] == 86u8 {
                Some(Field::PanelVoltage)
            } else if name[0] == 80u8 && name[1] == 80u8 && name[2] == 86u8 {
                Some(Field::PanelPower)
            } else if name[0] == 83u8 && name[1] == 79u8 && name[2] == 67u8 {
                Some(Field::StateOfCharge)
            } else if name[0] == 84u8 && name[1] == 84u8 && name[2] == 71u8 {
                Some(Field::TimeToGo)
            } else if name[0] == 72u8 && name[1] == 49u8 && name[2] == 48u8 {
                Some(Field::NumberOfAutomaticSynchronizations)
            } else if name[0] == 72u8 && name[1] == 49u8 && name[2] == 49u8 {
                Some(Field::NumberOfAlarmsMainVoltageLow)
            } else if name[0] == 72u8 && name[1] == 49u8 && name[2] == 50u8 {
                Some(Field::NumberOfAlarmsMainVoltageHigh)
            } else if name[0] == 72u8 && name[1] == 49u8 && name[2] == 51u8 {
                Some(Field::NumberOfAlarmsAuxiliaryVoltageLow)
            } else if name[0] == 72u8 && name[1] == 49u8 && name[2] == 52u8 {
                Some(Field::NumberOfAlarmsAuxliaryVoltageHigh)
            } else if name[0] == 72u8 && name[1] == 49u8 && name[2] == 53u8 {
                Some(Field::AuxiliaryBatteryVoltageMin)
            } else if name[0] == 72u8 && name[1] == 49u8 && name[2] == 54u8 {
                Some(Field::AuxiliaryBatteryVoltageMax)
            } else if name[0] == 72u8 && name[1] == 49u8 && name[2] == 55u8 {
                Some(Field::EnergyDischargedOrProduced)
            } else if name[0] == 72u8 && name[1] == 49u8 && name[2] == 56u8 {
                Some(Field::EnergyChargedOrConsumed)
            } else if name[0] == 72u8 && name[1] == 49u8 && name[2] == 57u8 {
                Some(Field::YieldTotal)
            } else if name[0] == 72u8 && name[1] == 50u8 && name[2] == 48u8 {
                Some(Field::YieldToday)
            } else if name[0] == 72u8 && name[1] == 50u8 && name[2] == 49u8 {
                Some(Field::PowerTodayMax)
            } else if name[0] == 72u8 && name[1] == 50u8 && name[2] == 50u8 {
                Some(Field::YieldYesterday)
            } else if name[0] == 72u8 && name[1] == 50u8 && name[2] == 51u8 {
                Some(Field::PowerYesterdayMax)
            } else if name[0] == 69u8 && name[1] == 82u8 && name[2] == 82u8 {
                Some(Field::ErrorCode)
            } else if name[0] == 70u8 && name[1] == 87u8 && name[2] == 69u8 {
                Some(Field::FirmwareVersion24bit)
            } else if name[0] == 80u8 && name[1] == 73u8 && name[2] == 68u8 {
                Some(Field::ProductId)
            } else if name[0] == 77u8 && name[1] == 79u8 && name[2] == 78u8 {
                Some(Field::DcMonitorMode)
            } else {
                None
            }
        } else if name.len() == 4 {
            if name[0] == 76u8 && name[1] == 79u8 && name[2] == 65u8 && name[3] == 68u8 {
                Some(Field::LoadOutputState)
            } else if name[0] == 83u8 && name[1] == 69u8 && name[2] == 82u8 && name[3] == 35u8 {
                Some(Field::SerialNumber)
            } else if name[0] == 72u8 && name[1] == 83u8 && name[2] == 68u8 && name[3] == 83u8 {
                Some(Field::DaySequenceNumber)
            } else if name[0] == 77u8 && name[1] == 79u8 && name[2] == 68u8 && name[3] == 69u8 {
                Some(Field::DeviceMode)
            } else if name[0] == 87u8 && name[1] == 65u8 && name[2] == 82u8 && name[3] == 78u8 {
                Some(Field::WarningReason)
            } else if name[0] == 77u8 && name[1] == 80u8 && name[2] == 80u8 && name[3] == 84u8 {
                Some(Field::TrackerModeOperation)
            } else {
                None
            }
        } else if name.len() == 5 {
            if name[0] == 65u8 && name[1] == 108u8 && name[2] == 97u8 && name[3] == 114u8 && name[4] == 109u8 {
                Some(Field::AlarmActive)
            } else if name[0] == 82u8 && name[1] == 101u8 && name[2] == 108u8 && name[3] == 97u8 && name[4] == 121u8 {
                Some(Field::RelayState)
            } else {
                None
            }
        } else if name.len() == 8 {
            if name[0] == 65u8 && name[1] == 67u8 && name[2] == 95u8 && name[3] == 79u8 && name[4] == 85u8 && name[5] == 84u8 && name[6] == 95u8 && name[7] == 86u8 {
                Some(Field::AcOutputVoltage)
            } else if name[0] == 65u8 && name[1] == 67u8 && name[2] == 95u8 && name[3] == 79u8 && name[4] == 85u8 && name[5] == 84u8 && name[6] == 95u8 && name[7] == 73u8 {
                Some(Field::AcOutputCurrent)
            } else if name[0] == 65u8 && name[1] == 67u8 && name[2] == 95u8 && name[3] == 79u8 && name[4] == 85u8 && name[5] == 84u8 && name[6] == 95u8 && name[7] == 83u8 {
                Some(Field::AcOutputApparentPower)
            } else {
                None
            }
        } else {
            None
        }
    }

    /// The key under which the field is published.
    pub open spec fn spec_key(self) -> Seq<char> {
        match self {
            Field::MainBatteryVoltage => "main_battery_voltage"@,
            Field::Channel2BatteryVoltage => "channel2_battery_voltage"@,
            Field::Channel3BatteryVoltage => "channel3_battery_voltage"@,
            Field::AuxiliaryStarterVoltage => "auxiliary_starter_voltage"@,
            Field::BatteryBankMidpointVoltage => "battery_bank_midpoint_voltage"@,
            Field::BatteryBankMidpointDeviation => "battery_bank_midpoint_deviation"@,
            Field::PanelVoltage => "panel_voltage"@,
            Field::PanelPower => "panel_power"@,
            Field::MainBatteryCurrent => "main_battery_current"@,
            Field::Channel2BatteryCurrent => "channel2_battery_current"@,
            Field::Channel3BatteryCurrent => "channel3_battery_current"@,
            Field::LoadCurrent => "load_current"@,
            Field::LoadOutputState => "load_output_state"@,
            Field::BatteryTemperature => "battery_temperature"@,
            Field::InstantaneousPower => "instantaneous_power"@,
            Field::ConsumedAmpHours => "consumed_amp_hours"@,
            Field::StateOfCharge => "state_of_charge"@,
            Field::TimeToGo => "time_to_go"@,
            Field::AlarmActive => "alarm_active"@,
            Field::RelayState => "relay_state"@,
            Field::AlarmReason => "alarm_reason"@,
            Field::OffReason => "off_reason"@,
            Field::DischargeDepthDeepest => "discharge_depth_deepest"@,
            Field::DischargeDepthLast => "discharge_depth_last"@,
            Field::DischargeDepthAverage => "discharge_depth_average"@,
            Field::NumberOfChargeCycles => "number_of_charge_cycles"@,
            Field::NumberOfFullDischarges => "number_of_full_discharges"@,
            Field::CumulativeAmpHoursDrawn => "cumulative_amp_hours_drawn"@,
            Field::MainBatteryVoltageMin => "main_battery_voltage_min"@,
            Field::MainBatteryVoltageMax => "main_battery_voltage_max"@,
            Field::SecondsSinceLastFullCharge => "seconds_since_last_full_charge"@,
            Field::NumberOfAutomaticSynchronizations => "number_of_automatic_synchronizations"@,
            Field::NumberOfAlarmsMainVoltageLow => "number_of_alarms_main_voltage_low"@,
            Field::NumberOfAlarmsMainVoltageHigh => "number_of_alarms_main_voltage_high"@,
            Field::NumberOfAlarmsAuxiliaryVoltageLow => "number_of_alarms_auxiliary_voltage_low"@,
            Field::NumberOfAlarmsAuxliaryVoltageHigh => "number_of_alarms_auxliary_voltage_high"@,
            Field::AuxiliaryBatteryVoltageMin => "auxiliary_battery_voltage_min"@,
            Field::AuxiliaryBatteryVoltageMax => "auxiliary_battery_voltage_max"@,
            Field::EnergyDischargedOrProduced => "energy_discharged_or_produced"@,
            Field::EnergyChargedOrConsumed => "energy_charged_or_consumed"@,
            Field::YieldTotal => "yield_total"@,
            Field::YieldToday => "yield_today"@,
            Field::PowerTodayMax => "power_today_max"@,
            Field::YieldYesterday => "yield_yesterday"@,
            Field::PowerYesterdayMax => "power_yesterday_max"@,
            Field::ErrorCode => "error_code"@,
            Field::StateOfOperation => "state_of_operation"@,
            Field::FirmwareVersion16bit => "firmware_version_16bit"@,
            Field::FirmwareVersion24bit => "firmware_version_24bit"@,
            Field::ProductId => "product_id"@,
            Field::SerialNumber => "serial_number"@,
            Field::DaySequenceNumber => "day_sequence_number"@,
            Field::DeviceMode => "device_mode"@,
            Field::AcOutputVoltage => "ac_output_voltage"@,
            Field::AcOutputCurrent => "ac_output_current"@,
            Field::AcOutputApparentPower => "ac_output_apparent_power"@,
            Field::WarningReason => "warning_reason"@,
            Field::TrackerModeOperation => "tracker_mode_operation"@,
            Field::DcMonitorMode => "dc_monitor_mode"@,
        }
    }

    /// The key under which the field is published.
    pub fn key(self) -> (k: &'static str)
        ensures
            k@ == self.spec_key(),
    {
        match self {
            Field::MainBatteryVoltage => "main_battery_voltage",
            Field::Channel2BatteryVoltage => "channel2_battery_voltage",
            Field::Channel3BatteryVoltage => "channel3_battery_voltage",
            Field::AuxiliaryStarterVoltage => "auxiliary_starter_voltage",
            Field::BatteryBankMidpointVoltage => "battery_bank_midpoint_voltage",
            Field::BatteryBankMidpointDeviation => "battery_bank_midpoint_deviation",
            Field::PanelVoltage => "panel_voltage",
            Field::PanelPower => "panel_power",
            Field::MainBatteryCurrent => "main_battery_current",
            Field::Channel2BatteryCurrent => "channel2_battery_current",
            Field::Channel3BatteryCurrent => "channel3_battery_current",
            Field::LoadCurrent => "load_current",
            Field::LoadOutputState => "load_output_state",
            Field::BatteryTemperature => "battery_temperature",
            Field::InstantaneousPower => "instantaneous_power",
            Field::ConsumedAmpHours => "consumed_amp_hours",
            Field::StateOfCharge => "state_of_charge",
            Field::TimeToGo => "time_to_go",
            Field::AlarmActive => "alarm_active",
            Field::RelayState => "relay_state",
            Field::AlarmReason => "alarm_reason",
            Field::OffReason => "off_reason",
            Field::DischargeDepthDeepest => "discharge_depth_deepest",
            Field::DischargeDepthLast => "discharge_depth_last",
            Field::DischargeDepthAverage => "discharge_depth_average",
            Field::NumberOfChargeCycles => "number_of_charge_cycles",
            Field::NumberOfFullDischarges => "number_of_full_discharges",
            Field::CumulativeAmpHoursDrawn => "cumulative_amp_hours_drawn",
            Field::MainBatteryVoltageMin => "main_battery_voltage_min",
            Field::MainBatteryVoltageMax => "main_battery_voltage_max",
            Field::SecondsSinceLastFullCharge => "seconds_since_last_full_charge",
            Field::NumberOfAutomaticSynchronizations => "number_of_automatic_synchronizations",
            Field::NumberOfAlarmsMainVoltageLow => "number_of_alarms_main_voltage_low",
            Field::NumberOfAlarmsMainVoltageHigh => "number_of_alarms_main_voltage_high",
            Field::NumberOfAlarmsAuxiliaryVoltageLow => "number_of_alarms_auxiliary_voltage_low",
            Field::NumberOfAlarmsAuxliaryVoltageHigh => "number_of_alarms_auxliary_voltage_high",
            Field::AuxiliaryBatteryVoltageMin => "auxiliary_battery_voltage_min",
            Field::AuxiliaryBatteryVoltageMax => "auxiliary_battery_voltage_max",
            Field::EnergyDischargedOrProduced => "energy_discharged_or_produced",
            Field::EnergyChargedOrConsumed => "energy_charged_or_consumed",
            Field::YieldTotal => "yield_total",
            Field::YieldToday => "yield_today",
            Field::PowerTodayMax => "power_today_max",
            Field::YieldYesterday => "yield_yesterday",
            Field::PowerYesterdayMax => "power_yesterday_max",
            Field::ErrorCode => "error_code",
            Field::StateOfOperation => "state_of_operation",
            Field::FirmwareVersion16bit => "firmware_version_16bit",
            Field::FirmwareVersion24bit => "firmware_version_24bit",
            Field::ProductId => "product_id",
            Field::SerialNumber => "serial_number",
            Field::DaySequenceNumber => "day_sequence_number",
            Field::DeviceMode => "device_mode",
            Field::AcOutputVoltage => "ac_output_voltage",
            Field::AcOutputCurrent => "ac_output_current",
            Field::AcOutputApparentPower => "ac_output_apparent_power",
            Field::WarningReason => "warning_reason",
            Field::TrackerModeOperation => "tracker_mode_operation",
            Field::DcMonitorMode => "dc_monitor_mode",
        }
    }
}

/// Whether two byte strings are equal.
pub fn bytes_equal(a: &[u8], b: &[u8]) -> (r: bool)
    ensures
        r == (a@ == b@),
{
    if a.len() != b.len() {
        return false;
    }
    let mut i: usize = 0;
    while i < a.len()
        invariant
            i <= a.len(),
            a.len() == b.len(),
            forall|j: int| 0 <= j < i ==> a@[j] == b@[j],
        decreases a.len() - i,
    {
        if a[i] != b[i] {
            return false;
        }
        i += 1;
    }
    assert(a@ =~= b@);
    true
}

} // verus!
