//! What the fields of a frame are, in the original's own terms: the label
//! under which each arrives, the key under which it is published, which
//! labels carry floating-point and text values, and which measurements are
//! averaged.

use vstd::prelude::*;

use crate::decoder::{ascii_chars, take_field};
use crate::field::{Field, FieldKind};
use crate::json::JsonKey;
use crate::message::FieldValue;
use crate::number::is_float_literal;

verus! {

/// Labels: each label of the protocol names its field.
pub proof fn lemma_labels()
    ensures
        Field::named(seq![86u8]) == Some(Field::MainBatteryVoltage),
        Field::named(seq![86u8, 50u8]) == Some(Field::Channel2BatteryVoltage),
        Field::named(seq![86u8, 51u8]) == Some(Field::Channel3BatteryVoltage),
        Field::named(seq![86u8, 83u8]) == Some(Field::AuxiliaryStarterVoltage),
        Field::named(seq![86u8, 77u8]) == Some(Field::BatteryBankMidpointVoltage),
        Field::named(seq![68u8, 77u8]) == Some(Field::BatteryBankMidpointDeviation),
        Field::named(seq![86u8, 80u8, 86u8]) == Some(Field::PanelVoltage),
        Field::named(seq![80u8, 80u8, 86u8]) == Some(Field::PanelPower),
        Field::named(seq![73u8]) == Some(Field::MainBatteryCurrent),
        Field::named(seq![73u8, 50u8]) == Some(Field::Channel2BatteryCurrent),
        Field::named(seq![73u8, 51u8]) == Some(Field::Channel3BatteryCurrent),
        Field::named(seq![73u8, 76u8]) == Some(Field::LoadCurrent),
        Field::named(seq![76u8, 79u8, 65u8, 68u8]) == Some(Field::LoadOutputState),
        Field::named(seq![84u8]) == Some(Field::BatteryTemperature),
        Field::named(seq![80u8]) == Some(Field::InstantaneousPower),
        Field::named(seq![67u8, 69u8]) == Some(Field::ConsumedAmpHours),
        Field::named(seq![83u8, 79u8, 67u8]) == Some(Field::StateOfCharge),
        Field::named(seq![84u8, 84u8, 71u8]) == Some(Field::TimeToGo),
        Field::named(seq![65u8, 108u8, 97u8, 114u8, 109u8]) == Some(Field::AlarmActive),
        Field::named(seq![82u8, 101u8, 108u8, 97u8, 121u8]) == Some(Field::RelayState),
        Field::named(seq![65u8, 82u8]) == Some(Field::AlarmReason),
        Field::named(seq![79u8, 82u8]) == Some(Field::OffReason),
        Field::named(seq![72u8, 49u8]) == Some(Field::DischargeDepthDeepest),
        Field::named(seq![72u8, 50u8]) == Some(Field::DischargeDepthLast),
        Field::named(seq![72u8, 51u8]) == Some(Field::DischargeDepthAverage),
        Field::named(seq![72u8, 52u8]) == Some(Field::NumberOfChargeCycles),
        Field::named(seq![72u8, 53u8]) == Some(Field::NumberOfFullDischarges),
        Field::named(seq![72u8, 54u8]) == Some(Field::CumulativeAmpHoursDrawn),
        Field::named(seq![72u8, 55u8]) == Some(Field::MainBatteryVoltageMin),
        Field::named(seq![72u8, 56u8]) == Some(Field::MainBatteryVoltageMax),
        Field::named(seq![72u8, 57u8]) == Some(Field::SecondsSinceLastFullCharge),
        Field::named(seq![72u8, 49u8, 48u8]) == Some(Field::NumberOfAutomaticSynchronizations),
        Field::named(seq![72u8, 49u8, 49u8]) == Some(Field::NumberOfAlarmsMainVoltageLow),
        Field::named(seq![72u8, 49u8, 50u8]) == Some(Field::NumberOfAlarmsMainVoltageHigh),
        Field::named(seq![72u8, 49u8, 51u8]) == Some(Field::NumberOfAlarmsAuxiliaryVoltageLow),
        Field::named(seq![72u8, 49u8, 52u8]) == Some(Field::NumberOfAlarmsAuxliaryVoltageHigh),
        Field::named(seq![72u8, 49u8, 53u8]) == Some(Field::AuxiliaryBatteryVoltageMin),
        Field::named(seq![72u8, 49u8, 54u8]) == Some(Field::AuxiliaryBatteryVoltageMax),
        Field::named(seq![72u8, 49u8, 55u8]) == Some(Field::EnergyDischargedOrProduced),
        Field::named(seq![72u8, 49u8, 56u8]) == Some(Field::EnergyChargedOrConsumed),
        Field::named(seq![72u8, 49u8, 57u8]) == Some(Field::YieldTotal),
        Field::named(seq![72u8, 50u8, 48u8]) == Some(Field::YieldToday),
        Field::named(seq![72u8, 50u8, 49u8]) == Some(Field::PowerTodayMax),
        Field::named(seq![72u8, 50u8, 50u8]) == Some(Field::YieldYesterday),
        Field::named(seq![72u8, 50u8, 51u8]) == Some(Field::PowerYesterdayMax),
        Field::named(seq![69u8, 82u8, 82u8]) == Some(Field::ErrorCode),
        Field::named(seq![67u8, 83u8]) == Some(Field::StateOfOperation),
        Field::named(seq![70u8, 87u8]) == Some(Field::FirmwareVersion16bit),
        Field::named(seq![70u8, 87u8, 69u8]) == Some(Field::FirmwareVersion24bit),
        Field::named(seq![80u8, 73u8, 68u8]) == Some(Field::ProductId),
        Field::named(seq![83u8, 69u8, 82u8, 35u8]) == Some(Field::SerialNumber),
        Field::named(seq![72u8, 83u8, 68u8, 83u8]) == Some(Field::DaySequenceNumber),
        Field::named(seq![77u8, 79u8, 68u8, 69u8]) == Some(Field::DeviceMode),
        Field::named(seq![65u8, 67u8, 95u8, 79u8, 85u8, 84u8, 95u8, 86u8]) == Some(Field::AcOutputVoltage),
        Field::named(seq![65u8, 67u8, 95u8, 79u8, 85u8, 84u8, 95u8, 73u8]) == Some(Field::AcOutputCurrent),
        Field::named(seq![65u8, 67u8, 95u8, 79u8, 85u8, 84u8, 95u8, 83u8]) == Some(Field::AcOutputApparentPower),
        Field::named(seq![87u8, 65u8, 82u8, 78u8]) == Some(Field::WarningReason),
        Field::named(seq![77u8, 80u8, 80u8, 84u8]) == Some(Field::TrackerModeOperation),
        Field::named(seq![77u8, 79u8, 78u8]) == Some(Field::DcMonitorMode),
{
}

/// Keys: each entry of the published message goes under the key that the
/// original publishes it under.
pub proof fn lemma_keys()
    ensures
        JsonKey::Field(Field::MainBatteryVoltage).spec_name() == "main_battery_voltage"@,
        JsonKey::Field(Field::Channel2BatteryVoltage).spec_name() == "channel2_battery_voltage"@,
        JsonKey::Field(Field::Channel3BatteryVoltage).spec_name() == "channel3_battery_voltage"@,
        JsonKey::Field(Field::AuxiliaryStarterVoltage).spec_name() == "auxiliary_starter_voltage"@,
        JsonKey::Field(Field::BatteryBankMidpointVoltage).spec_name() == "battery_bank_midpoint_voltage"@,
        JsonKey::Field(Field::BatteryBankMidpointDeviation).spec_name() == "battery_bank_midpoint_deviation"@,
        JsonKey::Field(Field::PanelVoltage).spec_name() == "panel_voltage"@,
        JsonKey::Field(Field::PanelPower).spec_name() == "panel_power"@,
        JsonKey::Field(Field::MainBatteryCurrent).spec_name() == "main_battery_current"@,
        JsonKey::Field(Field::Channel2BatteryCurrent).spec_name() == "channel2_battery_current"@,
        JsonKey::Field(Field::Channel3BatteryCurrent).spec_name() == "channel3_battery_current"@,
        JsonKey::Field(Field::LoadCurrent).spec_name() == "load_current"@,
        JsonKey::Field(Field::LoadOutputState).spec_name() == "load_output_state"@,
        JsonKey::Field(Field::BatteryTemperature).spec_name() == "battery_temperature"@,
        JsonKey::Field(Field::InstantaneousPower).spec_name() == "instantaneous_power"@,
        JsonKey::Field(Field::ConsumedAmpHours).spec_name() == "consumed_amp_hours"@,
        JsonKey::Field(Field::StateOfCharge).spec_name() == "state_of_charge"@,
        JsonKey::Field(Field::TimeToGo).spec_name() == "time_to_go"@,
        JsonKey::Field(Field::AlarmActive).spec_name() == "alarm_active"@,
        JsonKey::Field(Field::RelayState).spec_name() == "relay_state"@,
        JsonKey::Field(Field::AlarmReason).spec_name() == "alarm_reason"@,
        JsonKey::Field(Field::OffReason).spec_name() == "off_reason"@,
        JsonKey::Field(Field::DischargeDepthDeepest).spec_name() == "discharge_depth_deepest"@,
        JsonKey::Field(Field::DischargeDepthLast).spec_name() == "discharge_depth_last"@,
        JsonKey::Field(Field::DischargeDepthAverage).spec_name() == "discharge_depth_average"@,
        JsonKey::Field(Field::NumberOfChargeCycles).spec_name() == "number_of_charge_cycles"@,
        JsonKey::Field(Field::NumberOfFullDischarges).spec_name() == "number_of_full_discharges"@,
        JsonKey::Field(Field::CumulativeAmpHoursDrawn).spec_name() == "cumulative_amp_hours_drawn"@,
        JsonKey::Field(Field::MainBatteryVoltageMin).spec_name() == "main_battery_voltage_min"@,
        JsonKey::Field(Field::MainBatteryVoltageMax).spec_name() == "main_battery_voltage_max"@,
        JsonKey::Field(Field::SecondsSinceLastFullCharge).spec_name() == "seconds_since_last_full_charge"@,
        JsonKey::Field(Field::NumberOfAutomaticSynchronizations).spec_name() == "number_of_automatic_synchronizations"@,
        JsonKey::Field(Field::NumberOfAlarmsMainVoltageLow).spec_name() == "number_of_alarms_main_voltage_low"@,
        JsonKey::Field(Field::NumberOfAlarmsMainVoltageHigh).spec_name() == "number_of_alarms_main_voltage_high"@,
        JsonKey::Field(Field::NumberOfAlarmsAuxiliaryVoltageLow).spec_name() == "number_of_alarms_auxiliary_voltage_low"@,
        JsonKey::Field(Field::NumberOfAlarmsAuxliaryVoltageHigh).spec_name() == "number_of_alarms_auxliary_voltage_high"@,
        JsonKey::Field(Field::AuxiliaryBatteryVoltageMin).spec_name() == "auxiliary_battery_voltage_min"@,
        JsonKey::Field(Field::AuxiliaryBatteryVoltageMax).spec_name() == "auxiliary_battery_voltage_max"@,
        JsonKey::Field(Field::EnergyDischargedOrProduced).spec_name() == "energy_discharged_or_produced"@,
        JsonKey::Field(Field::EnergyChargedOrConsumed).spec_name() == "energy_charged_or_consumed"@,
        JsonKey::Field(Field::YieldTotal).spec_name() == "yield_total"@,
        JsonKey::Field(Field::YieldToday).spec_name() == "yield_today"@,
        JsonKey::Field(Field::PowerTodayMax).spec_name() == "power_today_max"@,
        JsonKey::Field(Field::YieldYesterday).spec_name() == "yield_yesterday"@,
        JsonKey::Field(Field::PowerYesterdayMax).spec_name() == "power_yesterday_max"@,
        JsonKey::Field(Field::ErrorCode).spec_name() == "error_code"@,
        JsonKey::Field(Field::StateOfOperation).spec_name() == "state_of_operation"@,
        JsonKey::Field(Field::FirmwareVersion16bit).spec_name() == "firmware_version_16bit"@,
        JsonKey::Field(Field::FirmwareVersion24bit).spec_name() == "firmware_version_24bit"@,
        JsonKey::Field(Field::ProductId).spec_name() == "product_id"@,
        JsonKey::Field(Field::SerialNumber).spec_name() == "serial_number"@,
        JsonKey::Field(Field::DaySequenceNumber).spec_name() == "day_sequence_number"@,
        JsonKey::Field(Field::DeviceMode).spec_name() == "device_mode"@,
        JsonKey::Field(Field::AcOutputVoltage).spec_name() == "ac_output_voltage"@,
        JsonKey::Field(Field::AcOutputCurrent).spec_name() == "ac_output_current"@,
        JsonKey::Field(Field::AcOutputApparentPower).spec_name() == "ac_output_apparent_power"@,
        JsonKey::Field(Field::WarningReason).spec_name() == "warning_reason"@,
        JsonKey::Field(Field::TrackerModeOperation).spec_name() == "tracker_mode_operation"@,
        JsonKey::Field(Field::DcMonitorMode).spec_name() == "dc_monitor_mode"@,
        JsonKey::MainBatteryAmpHourTotal.spec_name() == "main_battery_amp_hour_total"@,
        JsonKey::MessageCount.spec_name() == "message_count"@,
        JsonKey::ChecksumErrorCount.spec_name() == "checksum_error_count"@,
{
}

/// The labels of floating-point values: H17, H18, H19, H20, H22.
pub open spec fn float_label(name: Seq<u8>) -> bool {
    name == seq![72u8, 49u8, 55u8]
    || name == seq![72u8, 49u8, 56u8]
    || name == seq![72u8, 49u8, 57u8]
    || name == seq![72u8, 50u8, 48u8]
    || name == seq![72u8, 50u8, 50u8]
}

/// The labels of text values: LOAD, Alarm, Relay, OR, FW, FWE, PID, SER#.
pub open spec fn text_label(name: Seq<u8>) -> bool {
    name == seq![76u8, 79u8, 65u8, 68u8]
    || name == seq![65u8, 108u8, 97u8, 114u8, 109u8]
    || name == seq![82u8, 101u8, 108u8, 97u8, 121u8]
    || name == seq![79u8, 82u8]
    || name == seq![70u8, 87u8]
    || name == seq![70u8, 87u8, 69u8]
    || name == seq![80u8, 73u8, 68u8]
    || name == seq![83u8, 69u8, 82u8, 35u8]
}

/// Kinds: a floating-point field arrives under a label of floating-point
/// values and a text field under a label of text values; every other field
/// is an integer field. (That each of those labels names a field of that
/// kind is `lemma_float_lines` and `lemma_text_lines`.)
pub proof fn lemma_field_kinds(f: Field)
    ensures
        f.spec_kind() == FieldKind::Float ==> float_label(f.label()),
        f.spec_kind() == FieldKind::Text ==> text_label(f.label()),
        !float_label(f.label()) && !text_label(f.label()) ==> f.spec_kind() == FieldKind::Int,
{
    match f {
        Field::MainBatteryVoltage => {},
        Field::Channel2BatteryVoltage => {},
        Field::Channel3BatteryVoltage => {},
        Field::AuxiliaryStarterVoltage => {},
        Field::BatteryBankMidpointVoltage => {},
        Field::BatteryBankMidpointDeviation => {},
        Field::PanelVoltage => {},
        Field::PanelPower => {},
        Field::MainBatteryCurrent => {},
        Field::Channel2BatteryCurrent => {},
        Field::Channel3BatteryCurrent => {},
        Field::LoadCurrent => {},
        Field::LoadOutputState => {},
        Field::BatteryTemperature => {},
        Field::InstantaneousPower => {},
        Field::ConsumedAmpHours => {},
        Field::StateOfCharge => {},
        Field::TimeToGo => {},
        Field::AlarmActive => {},
        Field::RelayState => {},
        Field::AlarmReason => {},
        Field::OffReason => {},
        Field::DischargeDepthDeepest => {},
        Field::DischargeDepthLast => {},
        Field::DischargeDepthAverage => {},
        Field::NumberOfChargeCycles => {},
        Field::NumberOfFullDischarges => {},
        Field::CumulativeAmpHoursDrawn => {},
        Field::MainBatteryVoltageMin => {},
        Field::MainBatteryVoltageMax => {},
        Field::SecondsSinceLastFullCharge => {},
        Field::NumberOfAutomaticSynchronizations => {},
        Field::NumberOfAlarmsMainVoltageLow => {},
        Field::NumberOfAlarmsMainVoltageHigh => {},
        Field::NumberOfAlarmsAuxiliaryVoltageLow => {},
        Field::NumberOfAlarmsAuxliaryVoltageHigh => {},
        Field::AuxiliaryBatteryVoltageMin => {},
        Field::AuxiliaryBatteryVoltageMax => {},
        Field::EnergyDischargedOrProduced => {},
        Field::EnergyChargedOrConsumed => {},
        Field::YieldTotal => {},
        Field::YieldToday => {},
        Field::PowerTodayMax => {},
        Field::YieldYesterday => {},
        Field::PowerYesterdayMax => {},
        Field::ErrorCode => {},
        Field::StateOfOperation => {},
        Field::FirmwareVersion16bit => {},
        Field::FirmwareVersion24bit => {},
        Field::ProductId => {},
        Field::SerialNumber => {},
        Field::DaySequenceNumber => {},
        Field::DeviceMode => {},
        Field::AcOutputVoltage => {},
        Field::AcOutputCurrent => {},
        Field::AcOutputApparentPower => {},
        Field::WarningReason => {},
        Field::TrackerModeOperation => {},
        Field::DcMonitorMode => {},
    }
}

/// A line under a label of floating-point values takes its value when it is
/// a floating-point literal, which the field then holds as that literal (and
/// is published as ten times its number); any other value is refused and
/// changes nothing.
pub proof fn lemma_float_lines(fields: Map<Field, FieldValue>, name: Seq<u8>, value: Seq<u8>)
    requires
        float_label(name),
    ensures
        Field::named(name) matches Some(f) && f.spec_kind() == FieldKind::Float,
        take_field(fields, name, value) == if is_float_literal(value) {
            fields.insert(Field::named(name)->Some_0, FieldValue::Float(ascii_chars(value)))
        } else {
            fields
        },
{
    lemma_labels();
}

/// A line under a label of text values always takes its value as text.
pub proof fn lemma_text_lines(fields: Map<Field, FieldValue>, name: Seq<u8>, value: Seq<u8>)
    requires
        text_label(name),
    ensures
        Field::named(name) matches Some(f) && f.spec_kind() == FieldKind::Text,
        take_field(fields, name, value) == fields.insert(
            Field::named(name)->Some_0,
            FieldValue::Text(ascii_chars(value)),
        ),
{
    lemma_labels();
}

/// The measurements whose values are averaged over a publishing period:
/// V, V2, V3, VS, VM, DM, VPV, PPV, I, I2, I3, IL, T, P, AC_OUT_V, AC_OUT_I, AC_OUT_S.
pub open spec fn is_measurement(f: Field) -> bool {
    match f {
        Field::MainBatteryVoltage
        | Field::Channel2BatteryVoltage
        | Field::Channel3BatteryVoltage
        | Field::AuxiliaryStarterVoltage
        | Field::BatteryBankMidpointVoltage
        | Field::BatteryBankMidpointDeviation
        | Field::PanelVoltage
        | Field::PanelPower
        | Field::MainBatteryCurrent
        | Field::Channel2BatteryCurrent
        | Field::Channel3BatteryCurrent
        | Field::LoadCurrent
        | Field::BatteryTemperature
        | Field::InstantaneousPower
        | Field::AcOutputVoltage
        | Field::AcOutputCurrent
        | Field::AcOutputApparentPower => true,
        _ => false,
    }
}

} // verus!
