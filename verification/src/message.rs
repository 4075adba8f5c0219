//! One text frame, decoded: the value of each field that the frame held.

use vstd::prelude::*;
use vstd::string::StringSliceAdditionalSpecFns;

use crate::field::{Field, FieldKind};
use crate::number::{as_int, float_literal, is_float_literal, parse_isize, IntError};

verus! {

/// The value that a field holds, as the specifications see it.
pub enum FieldValue {
    /// An integer field's value.
    Int(isize),
    /// A text field's text.
    Text(Seq<char>),
    /// A floating-point field's literal.
    Float(Seq<char>),
}

/// Why a field of a frame was not taken into its message.
#[derive(Clone, Debug, PartialEq, Eq)]
pub enum FieldError {
    /// No field arrives under this label.
    UnknownField(String),
    /// The value of an integer field is not a decimal `isize`.
    InvalidInteger(IntError),
    /// The value of a floating-point field is not a floating-point literal.
    InvalidFloat,
}

/// The value of one field, as the program holds it.
#[derive(Clone, Debug, PartialEq, Eq)]
pub enum FieldData {
    /// An integer field's value.
    Int(isize),
    /// A text field's text.
    Text(String),
    /// A floating-point field's literal.
    Float(String),
}

impl View for FieldData {
    type V = FieldValue;

    open spec fn view(&self) -> FieldValue {
        match self {
            FieldData::Int(v) => FieldValue::Int(*v),
            FieldData::Text(t) => FieldValue::Text(t@),
            FieldData::Float(t) => FieldValue::Float(t@),
        }
    }
}

/// The integer that field `f` holds in `fields`, if it holds one.
pub open spec fn int_in(fields: Map<Field, FieldValue>, f: Field) -> Option<isize> {
    if fields.contains_key(f) {
        match fields[f] {
            FieldValue::Int(v) => Some(v),
            _ => None,
        }
    } else {
        None
    }
}

/// The values that one frame carried, one optional value per field.
#[derive(Clone, Debug, Default, PartialEq)]
pub struct Message {
    /// Field `V`.
    pub main_battery_voltage: Option<isize>,
    /// Field `V2`.
    pub channel2_battery_voltage: Option<isize>,
    /// Field `V3`.
    pub channel3_battery_voltage: Option<isize>,
    /// Field `VS`.
    pub auxiliary_starter_voltage: Option<isize>,
    /// Field `VM`.
    pub battery_bank_midpoint_voltage: Option<isize>,
    /// Field `DM`.
    pub battery_bank_midpoint_deviation: Option<isize>,
    /// Field `VPV`.
    pub panel_voltage: Option<isize>,
    /// Field `PPV`.
    pub panel_power: Option<isize>,
    /// Field `I`.
    pub main_battery_current: Option<isize>,
    /// Field `I2`.
    pub channel2_battery_current: Option<isize>,
    /// Field `I3`.
    pub channel3_battery_current: Option<isize>,
    /// Field `IL`.
    pub load_current: Option<isize>,
    /// Field `LOAD`.
    pub load_output_state: Option<String>,
    /// Field `T`.
    pub battery_temperature: Option<isize>,
    /// Field `P`.
    pub instantaneous_power: Option<isize>,
    /// Field `CE`.
    pub consumed_amp_hours: Option<isize>,
    /// Field `SOC`.
    pub state_of_charge: Option<isize>,
    /// Field `TTG`.
    pub time_to_go: Option<isize>,
    /// Field `Alarm`.
    pub alarm_active: Option<String>,
    /// Field `Relay`.
    pub relay_state: Option<String>,
    /// Field `AR`.
    pub alarm_reason: Option<isize>,
    /// Field `OR`.
    pub off_reason: Option<String>,
    /// Field `H1`.
    pub discharge_depth_deepest: Option<isize>,
    /// Field `H2`.
    pub discharge_depth_last: Option<isize>,
    /// Field `H3`.
    pub discharge_depth_average: Option<isize>,
    /// Field `H4`.
    pub number_of_charge_cycles: Option<isize>,
    /// Field `H5`.
    pub number_of_full_discharges: Option<isize>,
    /// Field `H6`.
    pub cumulative_amp_hours_drawn: Option<isize>,
    /// Field `H7`.
    pub main_battery_voltage_min: Option<isize>,
    /// Field `H8`.
    pub main_battery_voltage_max: Option<isize>,
    /// Field `H9`.
    pub seconds_since_last_full_charge: Option<isize>,
    /// Field `H10`.
    pub number_of_automatic_synchronizations: Option<isize>,
    /// Field `H11`.
    pub number_of_alarms_main_voltage_low: Option<isize>,
    /// Field `H12`.
    pub number_of_alarms_main_voltage_high: Option<isize>,
    /// Field `H13`.
    pub number_of_alarms_auxiliary_voltage_low: Option<isize>,
    /// Field `H14`.
    pub number_of_alarms_auxliary_voltage_high: Option<isize>,
    /// Field `H15`.
    pub auxiliary_battery_voltage_min: Option<isize>,
    /// Field `H16`.
    pub auxiliary_battery_voltage_max: Option<isize>,
    /// Field `H17` (the literal as received; the published value is ten times its number).
    pub energy_discharged_or_produced: Option<String>,
    /// Field `H18` (the literal as received; the published value is ten times its number).
    pub energy_charged_or_consumed: Option<String>,
    /// Field `H19` (the literal as received; the published value is ten times its number).
    pub yield_total: Option<String>,
    /// Field `H20` (the literal as received; the published value is ten times its number).
    pub yield_today: Option<String>,
    /// Field `H21`.
    pub power_today_max: Option<isize>,
    /// Field `H22` (the literal as received; the published value is ten times its number).
    pub yield_yesterday: Option<String>,
    /// Field `H23`.
    pub power_yesterday_max: Option<isize>,
    /// Field `ERR`.
    pub error_code: Option<isize>,
    /// Field `CS`.
    pub state_of_operation: Option<isize>,
    /// Field `FW`.
    pub firmware_version_16bit: Option<String>,
    /// Field `FWE`.
    pub firmware_version_24bit: Option<String>,
    /// Field `PID`.
    pub product_id: Option<String>,
    /// Field `SER#`.
    pub serial_number: Option<String>,
    /// Field `HSDS`.
    pub day_sequence_number: Option<isize>,
    /// Field `MODE`.
    pub device_mode: Option<isize>,
    /// Field `AC_OUT_V`.
    pub ac_output_voltage: Option<isize>,
    /// Field `AC_OUT_I`.
    pub ac_output_current: Option<isize>,
    /// Field `AC_OUT_S`.
    pub ac_output_apparent_power: Option<isize>,
    /// Field `WARN`.
    pub warning_reason: Option<isize>,
    /// Field `MPPT`.
    pub tracker_mode_operation: Option<isize>,
    /// Field `MON`.
    pub dc_monitor_mode: Option<isize>,
}

/// An integer field's value, as the specifications see it.
pub open spec fn int_value(v: Option<isize>) -> Option<FieldValue> {
    match v {
        Some(x) => Some(FieldValue::Int(x)),
        None => None,
    }
}

/// A text field's value, as the specifications see it.
pub open spec fn text_value(v: Option<String>) -> Option<FieldValue> {
    match v {
        Some(s) => Some(FieldValue::Text(s@)),
        None => None,
    }
}

/// A floating-point field's value, as the specifications see it.
pub open spec fn float_value(v: Option<String>) -> Option<FieldValue> {
    match v {
        Some(s) => Some(FieldValue::Float(s@)),
        None => None,
    }
}

/// The value that text `t` gives a field of kind `kind` that stores text.
pub open spec fn stored_text(kind: FieldKind, t: Seq<char>) -> FieldValue {
    if kind == FieldKind::Float {
        FieldValue::Float(t)
    } else {
        FieldValue::Text(t)
    }
}

/// Whether `v` is a value that a field of kind `kind` can hold.
pub open spec fn fits_kind(v: FieldValue, kind: FieldKind) -> bool {
    match v {
        FieldValue::Int(_) => kind == FieldKind::Int,
        FieldValue::Text(_) => kind == FieldKind::Text,
        FieldValue::Float(_) => kind == FieldKind::Float,
    }
}

impl Message {
    /// The value of field `f`, if the message holds one.
    pub open spec fn get(&self, f: Field) -> Option<FieldValue> {
        match f {
            Field::MainBatteryVoltage => int_value(self.main_battery_voltage),
            Field::Channel2BatteryVoltage => int_value(self.channel2_battery_voltage),
            Field::Channel3BatteryVoltage => int_value(self.channel3_battery_voltage),
            Field::AuxiliaryStarterVoltage => int_value(self.auxiliary_starter_voltage),
            Field::BatteryBankMidpointVoltage => int_value(self.battery_bank_midpoint_voltage),
            Field::BatteryBankMidpointDeviation => int_value(self.battery_bank_midpoint_deviation),
            Field::PanelVoltage => int_value(self.panel_voltage),
            Field::PanelPower => int_value(self.panel_power),
            Field::MainBatteryCurrent => int_value(self.main_battery_current),
            Field::Channel2BatteryCurrent => int_value(self.channel2_battery_current),
            Field::Channel3BatteryCurrent => int_value(self.channel3_battery_current),
            Field::LoadCurrent => int_value(self.load_current),
            Field::LoadOutputState => text_value(self.load_output_state),
            Field::BatteryTemperature => int_value(self.battery_temperature),
            Field::InstantaneousPower => int_value(self.instantaneous_power),
            Field::ConsumedAmpHours => int_value(self.consumed_amp_hours),
            Field::StateOfCharge => int_value(self.state_of_charge),
            Field::TimeToGo => int_value(self.time_to_go),
            Field::AlarmActive => text_value(self.alarm_active),
            Field::RelayState => text_value(self.relay_state),
            Field::AlarmReason => int_value(self.alarm_reason),
            Field::OffReason => text_value(self.off_reason),
            Field::DischargeDepthDeepest => int_value(self.discharge_depth_deepest),
            Field::DischargeDepthLast => int_value(self.discharge_depth_last),
            Field::DischargeDepthAverage => int_value(self.discharge_depth_average),
            Field::NumberOfChargeCycles => int_value(self.number_of_charge_cycles),
            Field::NumberOfFullDischarges => int_value(self.number_of_full_discharges),
            Field::CumulativeAmpHoursDrawn => int_value(self.cumulative_amp_hours_drawn),
            Field::MainBatteryVoltageMin => int_value(self.main_battery_voltage_min),
            Field::MainBatteryVoltageMax => int_value(self.main_battery_voltage_max),
            Field::SecondsSinceLastFullCharge => int_value(self.seconds_since_last_full_charge),
            Field::NumberOfAutomaticSynchronizations => int_value(self.number_of_automatic_synchronizations),
            Field::NumberOfAlarmsMainVoltageLow => int_value(self.number_of_alarms_main_voltage_low),
            Field::NumberOfAlarmsMainVoltageHigh => int_value(self.number_of_alarms_main_voltage_high),
            Field::NumberOfAlarmsAuxiliaryVoltageLow => int_value(self.number_of_alarms_auxiliary_voltage_low),
            Field::NumberOfAlarmsAuxliaryVoltageHigh => int_value(self.number_of_alarms_auxliary_voltage_high),
            Field::AuxiliaryBatteryVoltageMin => int_value(self.auxiliary_battery_voltage_min),
            Field::AuxiliaryBatteryVoltageMax => int_value(self.auxiliary_battery_voltage_max),
            Field::EnergyDischargedOrProduced => float_value(self.energy_discharged_or_produced),
            Field::EnergyChargedOrConsumed => float_value(self.energy_charged_or_consumed),
            Field::YieldTotal => float_value(self.yield_total),
            Field::YieldToday => float_value(self.yield_today),
            Field::PowerTodayMax => int_value(self.power_today_max),
            Field::YieldYesterday => float_value(self.yield_yesterday),
            Field::PowerYesterdayMax => int_value(self.power_yesterday_max),
            Field::ErrorCode => int_value(self.error_code),
            Field::StateOfOperation => int_value(self.state_of_operation),
            Field::FirmwareVersion16bit => text_value(self.firmware_version_16bit),
            Field::FirmwareVersion24bit => text_value(self.firmware_version_24bit),
            Field::ProductId => text_value(self.product_id),
            Field::SerialNumber => text_value(self.serial_number),
            Field::DaySequenceNumber => int_value(self.day_sequence_number),
            Field::DeviceMode => int_value(self.device_mode),
            Field::AcOutputVoltage => int_value(self.ac_output_voltage),
            Field::AcOutputCurrent => int_value(self.ac_output_current),
            Field::AcOutputApparentPower => int_value(self.ac_output_apparent_power),
            Field::WarningReason => int_value(self.warning_reason),
            Field::TrackerModeOperation => int_value(self.tracker_mode_operation),
            Field::DcMonitorMode => int_value(self.dc_monitor_mode),
        }
    }

    /// Each field holds a value of its own kind.
    pub proof fn lemma_kinds(&self, f: Field)
        ensures
            self.get(f) matches Some(v) ==> fits_kind(v, f.spec_kind()),
    {
    }

    /// A message that holds no value.
    pub fn new() -> (m: Message)
        ensures
            m@ == Map::<Field, FieldValue>::empty(),
    {
        let m = Message {
            main_battery_voltage: None,
            channel2_battery_voltage: None,
            channel3_battery_voltage: None,
            auxiliary_starter_voltage: None,
            battery_bank_midpoint_voltage: None,
            battery_bank_midpoint_deviation: None,
            panel_voltage: None,
            panel_power: None,
            main_battery_current: None,
            channel2_battery_current: None,
            channel3_battery_current: None,
            load_current: None,
            load_output_state: None,
            battery_temperature: None,
            instantaneous_power: None,
            consumed_amp_hours: None,
            state_of_charge: None,
            time_to_go: None,
            alarm_active: None,
            relay_state: None,
            alarm_reason: None,
            off_reason: None,
            discharge_depth_deepest: None,
            discharge_depth_last: None,
            discharge_depth_average: None,
            number_of_charge_cycles: None,
            number_of_full_discharges: None,
            cumulative_amp_hours_drawn: None,
            main_battery_voltage_min: None,
            main_battery_voltage_max: None,
            seconds_since_last_full_charge: None,
            number_of_automatic_synchronizations: None,
            number_of_alarms_main_voltage_low: None,
            number_of_alarms_main_voltage_high: None,
            number_of_alarms_auxiliary_voltage_low: None,
            number_of_alarms_auxliary_voltage_high: None,
            auxiliary_battery_voltage_min: None,
            auxiliary_battery_voltage_max: None,
            energy_discharged_or_produced: None,
            energy_charged_or_consumed: None,
            yield_total: None,
            yield_today: None,
            power_today_max: None,
            yield_yesterday: None,
            power_yesterday_max: None,
            error_code: None,
            state_of_operation: None,
            firmware_version_16bit: None,
            firmware_version_24bit: None,
            product_id: None,
            serial_number: None,
            day_sequence_number: None,
            device_mode: None,
            ac_output_voltage: None,
            ac_output_current: None,
            ac_output_apparent_power: None,
            warning_reason: None,
            tracker_mode_operation: None,
            dc_monitor_mode: None,
        };
        assert(m@ =~= Map::<Field, FieldValue>::empty());
        m
    }

    /// The value of field `f`, if the message holds one.
    pub fn field_data(&self, f: Field) -> (r: Option<FieldData>)
        ensures
            r matches Some(d) ==> self@.contains_key(f) && self@[f] == d@,
            r is None ==> !self@.contains_key(f),
    {
        match f {
            Field::MainBatteryVoltage => match self.main_battery_voltage { Some(v) => Some(FieldData::Int(v)), None => None },
            Field::Channel2BatteryVoltage => match self.channel2_battery_voltage { Some(v) => Some(FieldData::Int(v)), None => None },
            Field::Channel3BatteryVoltage => match self.channel3_battery_voltage { Some(v) => Some(FieldData::Int(v)), None => None },
            Field::AuxiliaryStarterVoltage => match self.auxiliary_starter_voltage { Some(v) => Some(FieldData::Int(v)), None => None },
            Field::BatteryBankMidpointVoltage => match self.battery_bank_midpoint_voltage { Some(v) => Some(FieldData::Int(v)), None => None },
            Field::BatteryBankMidpointDeviation => match self.battery_bank_midpoint_deviation { Some(v) => Some(FieldData::Int(v)), None => None },
            Field::PanelVoltage => match self.panel_voltage { Some(v) => Some(FieldData::Int(v)), None => None },
            Field::PanelPower => match self.panel_power { Some(v) => Some(FieldData::Int(v)), None => None },
            Field::MainBatteryCurrent => match self.main_battery_current { Some(v) => Some(FieldData::Int(v)), None => None },
            Field::Channel2BatteryCurrent => match self.channel2_battery_current { Some(v) => Some(FieldData::Int(v)), None => None },
            Field::Channel3BatteryCurrent => match self.channel3_battery_current { Some(v) => Some(FieldData::Int(v)), None => None },
            Field::LoadCurrent => match self.load_current { Some(v) => Some(FieldData::Int(v)), None => None },
            Field::LoadOutputState => match &self.load_output_state { Some(t) => Some(FieldData::Text(t.clone())), None => None },
            Field::BatteryTemperature => match self.battery_temperature { Some(v) => Some(FieldData::Int(v)), None => None },
            Field::InstantaneousPower => match self.instantaneous_power { Some(v) => Some(FieldData::Int(v)), None => None },
            Field::ConsumedAmpHours => match self.consumed_amp_hours { Some(v) => Some(FieldData::Int(v)), None => None },
            Field::StateOfCharge => match self.state_of_charge { Some(v) => Some(FieldData::Int(v)), None => None },
            Field::TimeToGo => match self.time_to_go { Some(v) => Some(FieldData::Int(v)), None => None },
            Field::AlarmActive => match &self.alarm_active { Some(t) => Some(FieldData::Text(t.clone())), None => None },
            Field::RelayState => match &self.relay_state { Some(t) => Some(FieldData::Text(t.clone())), None => None },
            Field::AlarmReason => match self.alarm_reason { Some(v) => Some(FieldData::Int(v)), None => None },
            Field::OffReason => match &self.off_reason { Some(t) => Some(FieldData::Text(t.clone())), None => None },
            Field::DischargeDepthDeepest => match self.discharge_depth_deepest { Some(v) => Some(FieldData::Int(v)), None => None },
            Field::DischargeDepthLast => match self.discharge_depth_last { Some(v) => Some(FieldData::Int(v)), None => None },
            Field::DischargeDepthAverage => match self.discharge_depth_average { Some(v) => Some(FieldData::Int(v)), None => None },
            Field::NumberOfChargeCycles => match self.number_of_charge_cycles { Some(v) => Some(FieldData::Int(v)), None => None },
            Field::NumberOfFullDischarges => match self.number_of_full_discharges { Some(v) => Some(FieldData::Int(v)), None => None },
            Field::CumulativeAmpHoursDrawn => match self.cumulative_amp_hours_drawn { Some(v) => Some(FieldData::Int(v)), None => None },
            Field::MainBatteryVoltageMin => match self.main_battery_voltage_min { Some(v) => Some(FieldData::Int(v)), None => None },
            Field::MainBatteryVoltageMax => match self.main_battery_voltage_max { Some(v) => Some(FieldData::Int(v)), None => None },
            Field::SecondsSinceLastFullCharge => match self.seconds_since_last_full_charge { Some(v) => Some(FieldData::Int(v)), None => None },
            Field::NumberOfAutomaticSynchronizations => match self.number_of_automatic_synchronizations { Some(v) => Some(FieldData::Int(v)), None => None },
            Field::NumberOfAlarmsMainVoltageLow => match self.number_of_alarms_main_voltage_low { Some(v) => Some(FieldData::Int(v)), None => None },
            Field::NumberOfAlarmsMainVoltageHigh => match self.number_of_alarms_main_voltage_high { Some(v) => Some(FieldData::Int(v)), None => None },
            Field::NumberOfAlarmsAuxiliaryVoltageLow => match self.number_of_alarms_auxiliary_voltage_low { Some(v) => Some(FieldData::Int(v)), None => None },
            Field::NumberOfAlarmsAuxliaryVoltageHigh => match self.number_of_alarms_auxliary_voltage_high { Some(v) => Some(FieldData::Int(v)), None => None },
            Field::AuxiliaryBatteryVoltageMin => match self.auxiliary_battery_voltage_min { Some(v) => Some(FieldData::Int(v)), None => None },
            Field::AuxiliaryBatteryVoltageMax => match self.auxiliary_battery_voltage_max { Some(v) => Some(FieldData::Int(v)), None => None },
            Field::EnergyDischargedOrProduced => match &self.energy_discharged_or_produced { Some(t) => Some(FieldData::Float(t.clone())), None => None },
            Field::EnergyChargedOrConsumed => match &self.energy_charged_or_consumed { Some(t) => Some(FieldData::Float(t.clone())), None => None },
            Field::YieldTotal => match &self.yield_total { Some(t) => Some(FieldData::Float(t.clone())), None => None },
            Field::YieldToday => match &self.yield_today { Some(t) => Some(FieldData::Float(t.clone())), None => None },
            Field::PowerTodayMax => match self.power_today_max { Some(v) => Some(FieldData::Int(v)), None => None },
            Field::YieldYesterday => match &self.yield_yesterday { Some(t) => Some(FieldData::Float(t.clone())), None => None },
            Field::PowerYesterdayMax => match self.power_yesterday_max { Some(v) => Some(FieldData::Int(v)), None => None },
            Field::ErrorCode => match self.error_code { Some(v) => Some(FieldData::Int(v)), None => None },
            Field::StateOfOperation => match self.state_of_operation { Some(v) => Some(FieldData::Int(v)), None => None },
            Field::FirmwareVersion16bit => match &self.firmware_version_16bit { Some(t) => Some(FieldData::Text(t.clone())), None => None },
            Field::FirmwareVersion24bit => match &self.firmware_version_24bit { Some(t) => Some(FieldData::Text(t.clone())), None => None },
            Field::ProductId => match &self.product_id { Some(t) => Some(FieldData::Text(t.clone())), None => None },
            Field::SerialNumber => match &self.serial_number { Some(t) => Some(FieldData::Text(t.clone())), None => None },
            Field::DaySequenceNumber => match self.day_sequence_number { Some(v) => Some(FieldData::Int(v)), None => None },
            Field::DeviceMode => match self.device_mode { Some(v) => Some(FieldData::Int(v)), None => None },
            Field::AcOutputVoltage => match self.ac_output_voltage { Some(v) => Some(FieldData::Int(v)), None => None },
            Field::AcOutputCurrent => match self.ac_output_current { Some(v) => Some(FieldData::Int(v)), None => None },
            Field::AcOutputApparentPower => match self.ac_output_apparent_power { Some(v) => Some(FieldData::Int(v)), None => None },
            Field::WarningReason => match self.warning_reason { Some(v) => Some(FieldData::Int(v)), None => None },
            Field::TrackerModeOperation => match self.tracker_mode_operation { Some(v) => Some(FieldData::Int(v)), None => None },
            Field::DcMonitorMode => match self.dc_monitor_mode { Some(v) => Some(FieldData::Int(v)), None => None },
        }
    }

    /// The integer that field `f` holds, if it holds one.
    pub fn int_field(&self, f: Field) -> (r: Option<isize>)
        ensures
            r == int_in(self@, f),
    {
        match f {
            Field::MainBatteryVoltage => self.main_battery_voltage,
            Field::Channel2BatteryVoltage => self.channel2_battery_voltage,
            Field::Channel3BatteryVoltage => self.channel3_battery_voltage,
            Field::AuxiliaryStarterVoltage => self.auxiliary_starter_voltage,
            Field::BatteryBankMidpointVoltage => self.battery_bank_midpoint_voltage,
            Field::BatteryBankMidpointDeviation => self.battery_bank_midpoint_deviation,
            Field::PanelVoltage => self.panel_voltage,
            Field::PanelPower => self.panel_power,
            Field::MainBatteryCurrent => self.main_battery_current,
            Field::Channel2BatteryCurrent => self.channel2_battery_current,
            Field::Channel3BatteryCurrent => self.channel3_battery_current,
            Field::LoadCurrent => self.load_current,
            Field::BatteryTemperature => self.battery_temperature,
            Field::InstantaneousPower => self.instantaneous_power,
            Field::ConsumedAmpHours => self.consumed_amp_hours,
            Field::StateOfCharge => self.state_of_charge,
            Field::TimeToGo => self.time_to_go,
            Field::AlarmReason => self.alarm_reason,
            Field::DischargeDepthDeepest => self.discharge_depth_deepest,
            Field::DischargeDepthLast => self.discharge_depth_last,
            Field::DischargeDepthAverage => self.discharge_depth_average,
            Field::NumberOfChargeCycles => self.number_of_charge_cycles,
            Field::NumberOfFullDischarges => self.number_of_full_discharges,
            Field::CumulativeAmpHoursDrawn => self.cumulative_amp_hours_drawn,
            Field::MainBatteryVoltageMin => self.main_battery_voltage_min,
            Field::MainBatteryVoltageMax => self.main_battery_voltage_max,
            Field::SecondsSinceLastFullCharge => self.seconds_since_last_full_charge,
            Field::NumberOfAutomaticSynchronizations => self.number_of_automatic_synchronizations,
            Field::NumberOfAlarmsMainVoltageLow => self.number_of_alarms_main_voltage_low,
            Field::NumberOfAlarmsMainVoltageHigh => self.number_of_alarms_main_voltage_high,
            Field::NumberOfAlarmsAuxiliaryVoltageLow => self.number_of_alarms_auxiliary_voltage_low,
            Field::NumberOfAlarmsAuxliaryVoltageHigh => self.number_of_alarms_auxliary_voltage_high,
            Field::AuxiliaryBatteryVoltageMin => self.auxiliary_battery_voltage_min,
            Field::AuxiliaryBatteryVoltageMax => self.auxiliary_battery_voltage_max,
            Field::PowerTodayMax => self.power_today_max,
            Field::PowerYesterdayMax => self.power_yesterday_max,
            Field::ErrorCode => self.error_code,
            Field::StateOfOperation => self.state_of_operation,
            Field::DaySequenceNumber => self.day_sequence_number,
            Field::DeviceMode => self.device_mode,
            Field::AcOutputVoltage => self.ac_output_voltage,
            Field::AcOutputCurrent => self.ac_output_current,
            Field::AcOutputApparentPower => self.ac_output_apparent_power,
            Field::WarningReason => self.warning_reason,
            Field::TrackerModeOperation => self.tracker_mode_operation,
            Field::DcMonitorMode => self.dc_monitor_mode,
            _ => None,
        }
    }

    /// Stores integer `v` in field `f`.
    fn set_int(&mut self, f: Field, v: isize)
        requires
            f.spec_kind() == FieldKind::Int,
        ensures
            final(self)@ == old(self)@.insert(f, FieldValue::Int(v)),
    {
        match f {
            Field::MainBatteryVoltage => self.main_battery_voltage = Some(v),
            Field::Channel2BatteryVoltage => self.channel2_battery_voltage = Some(v),
            Field::Channel3BatteryVoltage => self.channel3_battery_voltage = Some(v),
            Field::AuxiliaryStarterVoltage => self.auxiliary_starter_voltage = Some(v),
            Field::BatteryBankMidpointVoltage => self.battery_bank_midpoint_voltage = Some(v),
            Field::BatteryBankMidpointDeviation => self.battery_bank_midpoint_deviation = Some(v),
            Field::PanelVoltage => self.panel_voltage = Some(v),
            Field::PanelPower => self.panel_power = Some(v),
            Field::MainBatteryCurrent => self.main_battery_current = Some(v),
            Field::Channel2BatteryCurrent => self.channel2_battery_current = Some(v),
            Field::Channel3BatteryCurrent => self.channel3_battery_current = Some(v),
            Field::LoadCurrent => self.load_current = Some(v),
            Field::BatteryTemperature => self.battery_temperature = Some(v),
            Field::InstantaneousPower => self.instantaneous_power = Some(v),
            Field::ConsumedAmpHours => self.consumed_amp_hours = Some(v),
            Field::StateOfCharge => self.state_of_charge = Some(v),
            Field::TimeToGo => self.time_to_go = Some(v),
            Field::AlarmReason => self.alarm_reason = Some(v),
            Field::DischargeDepthDeepest => self.discharge_depth_deepest = Some(v),
            Field::DischargeDepthLast => self.discharge_depth_last = Some(v),
            Field::DischargeDepthAverage => self.discharge_depth_average = Some(v),
            Field::NumberOfChargeCycles => self.number_of_charge_cycles = Some(v),
            Field::NumberOfFullDischarges => self.number_of_full_discharges = Some(v),
            Field::CumulativeAmpHoursDrawn => self.cumulative_amp_hours_drawn = Some(v),
            Field::MainBatteryVoltageMin => self.main_battery_voltage_min = Some(v),
            Field::MainBatteryVoltageMax => self.main_battery_voltage_max = Some(v),
            Field::SecondsSinceLastFullCharge => self.seconds_since_last_full_charge = Some(v),
            Field::NumberOfAutomaticSynchronizations => self.number_of_automatic_synchronizations = Some(v),
            Field::NumberOfAlarmsMainVoltageLow => self.number_of_alarms_main_voltage_low = Some(v),
            Field::NumberOfAlarmsMainVoltageHigh => self.number_of_alarms_main_voltage_high = Some(v),
            Field::NumberOfAlarmsAuxiliaryVoltageLow => self.number_of_alarms_auxiliary_voltage_low = Some(v),
            Field::NumberOfAlarmsAuxliaryVoltageHigh => self.number_of_alarms_auxliary_voltage_high = Some(v),
            Field::AuxiliaryBatteryVoltageMin => self.auxiliary_battery_voltage_min = Some(v),
            Field::AuxiliaryBatteryVoltageMax => self.auxiliary_battery_voltage_max = Some(v),
            Field::PowerTodayMax => self.power_today_max = Some(v),
            Field::PowerYesterdayMax => self.power_yesterday_max = Some(v),
            Field::ErrorCode => self.error_code = Some(v),
            Field::StateOfOperation => self.state_of_operation = Some(v),
            Field::DaySequenceNumber => self.day_sequence_number = Some(v),
            Field::DeviceMode => self.device_mode = Some(v),
            Field::AcOutputVoltage => self.ac_output_voltage = Some(v),
            Field::AcOutputCurrent => self.ac_output_current = Some(v),
            Field::AcOutputApparentPower => self.ac_output_apparent_power = Some(v),
            Field::WarningReason => self.warning_reason = Some(v),
            Field::TrackerModeOperation => self.tracker_mode_operation = Some(v),
            Field::DcMonitorMode => self.dc_monitor_mode = Some(v),
            _ => {},
        }
        assert(self@ =~= old(self)@.insert(f, FieldValue::Int(v)));
    }

    /// Stores text `t` in field `f`, a text or floating-point field.
    fn set_text(&mut self, f: Field, t: String)
        requires
            f.spec_kind() != FieldKind::Int,
        ensures
            final(self)@ == old(self)@.insert(f, stored_text(f.spec_kind(), t@)),
    {
        let ghost tv = t@;
        match f {
            Field::LoadOutputState => self.load_output_state = Some(t),
            Field::AlarmActive => self.alarm_active = Some(t),
            Field::RelayState => self.relay_state = Some(t),
            Field::OffReason => self.off_reason = Some(t),
            Field::EnergyDischargedOrProduced => self.energy_discharged_or_produced = Some(t),
            Field::EnergyChargedOrConsumed => self.energy_charged_or_consumed = Some(t),
            Field::YieldTotal => self.yield_total = Some(t),
            Field::YieldToday => self.yield_today = Some(t),
            Field::YieldYesterday => self.yield_yesterday = Some(t),
            Field::FirmwareVersion16bit => self.firmware_version_16bit = Some(t),
            Field::FirmwareVersion24bit => self.firmware_version_24bit = Some(t),
            Field::ProductId => self.product_id = Some(t),
            Field::SerialNumber => self.serial_number = Some(t),
            _ => {},
        }
        assert(self@ =~= old(self)@.insert(f, stored_text(f.spec_kind(), tv)));
    }

    /// Takes one field of a frame into the message: the field that arrives
    /// under `name` gets the value that `value` gives it. An unknown label,
    /// or a value that does not suit the field, leaves the message as it was
    /// and says why.
    pub fn set_field(&mut self, name: &str, value: &str) -> (r: Result<(), FieldError>)
        ensures
            match Field::named(name.spec_bytes()) {
                None => {
                    &&& r matches Err(FieldError::UnknownField(s)) && s@ == name@
                    &&& final(self)@ == old(self)@
                },
                Some(f) => match f.spec_kind() {
                    FieldKind::Int => match parse_isize(value.spec_bytes()) {
                        Ok(v) => r is Ok && final(self)@ == old(self)@.insert(f, FieldValue::Int(v)),
                        Err(e) => r == Err::<(), FieldError>(FieldError::InvalidInteger(e))
                            && final(self)@ == old(self)@,
                    },
                    FieldKind::Text => r is Ok && final(self)@ == old(self)@.insert(
                        f,
                        FieldValue::Text(value@),
                    ),
                    FieldKind::Float => if is_float_literal(value.spec_bytes()) {
                        r is Ok && final(self)@ == old(self)@.insert(f, FieldValue::Float(value@))
                    } else {
                        r == Err::<(), FieldError>(FieldError::InvalidFloat) && final(self)@ == old(self)@
                    },
                },
            },
    {
        let field = match Field::from_label(name.as_bytes()) {
            Some(f) => f,
            None => return Err(FieldError::UnknownField(name.to_owned())),
        };
        match field.kind() {
            FieldKind::Int => match as_int(value) {
                Ok(v) => {
                    self.set_int(field, v);
                    Ok(())
                },
                Err(e) => Err(FieldError::InvalidInteger(e)),
            },
            FieldKind::Text => {
                self.set_text(field, value.to_owned());
                Ok(())
            },
            FieldKind::Float => {
                if float_literal(value.as_bytes()) {
                    self.set_text(field, value.to_owned());
                    Ok(())
                } else {
                    Err(FieldError::InvalidFloat)
                }
            },
        }
    }
}

impl View for Message {
    type V = Map<Field, FieldValue>;

    /// The fields that the message holds, each with its value.
    open spec fn view(&self) -> Map<Field, FieldValue> {
        Map::new(|f: Field| self.get(f) is Some, |f: Field| self.get(f)->Some_0)
    }
}

} // verus!
