use vedirect2mqtt::field::{Field, FieldKind, FIELD_COUNT};
use vedirect2mqtt::message::{FieldError, Message};
use vedirect2mqtt::number::IntError;

#[test]
fn labels_name_fields() {
    assert_eq!(Field::from_label(b"V"), Some(Field::MainBatteryVoltage));
    assert_eq!(Field::from_label(b"SER#"), Some(Field::SerialNumber));
    assert_eq!(Field::from_label(b"AC_OUT_S"), Some(Field::AcOutputApparentPower));
    assert_eq!(Field::from_label(b"H23"), Some(Field::PowerYesterdayMax));
    assert_eq!(Field::from_label(b"v"), None);
    assert_eq!(Field::from_label(b"Checksum"), None);
    assert_eq!(Field::from_label(b""), None);
}

#[test]
fn every_field_has_its_own_position_and_key() {
    let mut keys = Vec::new();
    for i in 0..FIELD_COUNT {
        let f = Field::from_index(i);
        keys.push(f.key());
    }
    let mut sorted = keys.clone();
    sorted.sort();
    sorted.dedup();
    assert_eq!(sorted.len(), FIELD_COUNT);
    assert_eq!(Field::from_index(0).key(), "main_battery_voltage");
    assert_eq!(Field::from_index(FIELD_COUNT - 1).key(), "dc_monitor_mode");
    assert_eq!(Field::YieldToday.kind(), FieldKind::Float);
    assert_eq!(Field::AlarmActive.kind(), FieldKind::Text);
    assert_eq!(Field::StateOfCharge.kind(), FieldKind::Int);
}

#[test]
fn set_field_takes_each_kind() {
    let mut m = Message::new();
    assert_eq!(m.set_field("V", "12800"), Ok(()));
    assert_eq!(m.set_field("Alarm", "OFF"), Ok(()));
    assert_eq!(m.set_field("H20", "13"), Ok(()));
    assert_eq!(m.main_battery_voltage, Some(12800));
    assert_eq!(m.alarm_active.as_deref(), Some("OFF"));
    assert_eq!(m.yield_today.as_deref(), Some("13"));
}

#[test]
fn set_field_errors_leave_the_message_alone() {
    let mut m = Message::new();
    m.set_field("SOC", "500").unwrap();
    assert_eq!(m.set_field("SOC", "5x"), Err(FieldError::InvalidInteger(IntError::InvalidDigit)));
    assert_eq!(m.state_of_charge, Some(500));
    assert_eq!(m.set_field("BMV", "712"), Err(FieldError::UnknownField("BMV".to_string())));
    assert_eq!(m.set_field("H22", "oops"), Err(FieldError::InvalidFloat));
    assert_eq!(m.yield_yesterday, None);
    assert_eq!(m, Message { state_of_charge: Some(500), ..Default::default() });
}

#[test]
fn a_later_value_replaces_an_earlier_one() {
    let mut m = Message::new();
    m.set_field("PID", "1").unwrap();
    m.set_field("PID", "2").unwrap();
    assert_eq!(m.product_id.as_deref(), Some("2"));
}
