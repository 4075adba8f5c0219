use vedirect2mqtt::collector::Collector;
use vedirect2mqtt::decoder::ReadError;
use vedirect2mqtt::field::Field;
use vedirect2mqtt::json::{JsonEntry, JsonKey, JsonValue};
use vedirect2mqtt::message::Message;

fn value_of(entries: &[JsonEntry], key: JsonKey) -> Option<JsonValue> {
    entries.iter().find(|e| e.key == key).map(|e| e.value.clone())
}

fn message(fields: &[(&str, &str)]) -> Message {
    let mut m = Message::new();
    for (name, value) in fields {
        m.set_field(name, value).unwrap();
    }
    m
}

fn mean(sum: i128, count: usize) -> Option<JsonValue> {
    Some(JsonValue::Mean { sum, count })
}

fn charge(milliamp_nanos: i128) -> Option<JsonValue> {
    Some(JsonValue::Charge(milliamp_nanos))
}

/// Milliampere-nanoseconds in one milliampere-hour.
const MAH: i128 = 3_600_000_000_000;

#[test]
fn averages_are_the_mean_of_the_values_present() {
    let mut c = Collector::new();
    c.collect_elapsed(message(&[("V", "1"), ("I", "-1")]), None);
    c.collect_elapsed(message(&[("V", "2"), ("I", "-2")]), Some(0));
    c.collect_elapsed(message(&[("V", "2")]), Some(0));
    let entries = c.build_json_message();
    // (1 + 2 + 2) / 3 and (-1 - 2) / 2: a message without a value is not counted.
    assert_eq!(value_of(&entries, JsonKey::Field(Field::MainBatteryVoltage)), mean(5, 3));
    assert_eq!(value_of(&entries, JsonKey::Field(Field::MainBatteryCurrent)), mean(-3, 2));
    assert_eq!(value_of(&entries, JsonKey::Field(Field::PanelVoltage)), None);
    assert_eq!(value_of(&entries, JsonKey::MessageCount), Some(JsonValue::Int(3)));
    assert_eq!(value_of(&entries, JsonKey::ChecksumErrorCount), Some(JsonValue::Int(0)));
}

#[test]
fn other_fields_are_published_from_the_latest_message() {
    let mut c = Collector::new();
    c.collect_elapsed(message(&[("PID", "0x203"), ("SOC", "900"), ("H19", "12")]), None);
    c.collect_elapsed(message(&[("SOC", "890")]), None);
    let entries = c.build_json_message();
    assert_eq!(value_of(&entries, JsonKey::Field(Field::ProductId)), None);
    assert_eq!(value_of(&entries, JsonKey::Field(Field::StateOfCharge)), Some(JsonValue::Int(890)));
    assert_eq!(value_of(&entries, JsonKey::Field(Field::YieldTotal)), None);
    c.collect_elapsed(message(&[("H19", "12"), ("LOAD", "ON")]), None);
    let entries = c.build_json_message();
    assert_eq!(value_of(&entries, JsonKey::Field(Field::YieldTotal)), Some(JsonValue::TenfoldFloat("12".to_string())));
    assert_eq!(value_of(&entries, JsonKey::Field(Field::LoadOutputState)), Some(JsonValue::Text("ON".to_string())));
}

#[test]
fn entries_come_in_field_order_then_the_counts() {
    let mut c = Collector::new();
    c.collect_elapsed(message(&[("MON", "1"), ("V", "10"), ("PID", "7")]), None);
    let keys: Vec<JsonKey> = c.build_json_message().iter().map(|e| e.key).collect();
    assert_eq!(
        keys,
        vec![
            JsonKey::Field(Field::MainBatteryVoltage),
            JsonKey::Field(Field::ProductId),
            JsonKey::Field(Field::DcMonitorMode),
            JsonKey::MessageCount,
            JsonKey::ChecksumErrorCount,
        ]
    );
    assert_eq!(JsonKey::MainBatteryAmpHourTotal.name(), "main_battery_amp_hour_total");
    assert_eq!(JsonKey::Field(Field::DcMonitorMode).name(), "dc_monitor_mode");
}

#[test]
fn battery_current_is_integrated_and_never_above_zero() {
    let mut c = Collector::new();
    c.collect_elapsed(message(&[("I", "-1000")]), None);
    // The first message has nothing before it: nothing is integrated.
    assert_eq!(value_of(&c.build_json_message(), JsonKey::MainBatteryAmpHourTotal), None);
    // -1000 mA for one hour: -1000 mAh.
    c.collect_elapsed(message(&[("I", "-1000")]), Some(3_600_000_000_000));
    assert_eq!(value_of(&c.build_json_message(), JsonKey::MainBatteryAmpHourTotal), charge(-1000 * MAH));
    // +3000 mA for half an hour would bring it to +500 mAh: held at zero.
    c.collect_elapsed(message(&[("I", "3000")]), Some(1_800_000_000_000));
    assert_eq!(value_of(&c.build_json_message(), JsonKey::MainBatteryAmpHourTotal), charge(0));
    // -1 mA for 1.8 s.
    c.collect_elapsed(message(&[("I", "-1")]), Some(1_800_000_000));
    assert_eq!(value_of(&c.build_json_message(), JsonKey::MainBatteryAmpHourTotal), charge(-1_800_000_000));
}

#[test]
fn turning_full_sets_the_charge_drawn_to_zero() {
    let mut c = Collector::new();
    c.collect_elapsed(message(&[("I", "-1000"), ("CS", "3")]), None);
    c.collect_elapsed(message(&[("I", "-1000"), ("CS", "3")]), Some(3_600_000_000_000));
    assert_eq!(value_of(&c.build_json_message(), JsonKey::MainBatteryAmpHourTotal), charge(-1000 * MAH));
    c.collect_elapsed(message(&[("I", "-1000"), ("CS", "5")]), Some(3_600_000_000_000));
    assert_eq!(value_of(&c.build_json_message(), JsonKey::MainBatteryAmpHourTotal), charge(0));
    // Staying in the float state does not reset again.
    c.collect_elapsed(message(&[("I", "-1000"), ("CS", "5")]), Some(3_600_000_000_000));
    assert_eq!(value_of(&c.build_json_message(), JsonKey::MainBatteryAmpHourTotal), charge(-1000 * MAH));
}

#[test]
fn reset_totals_forgets_the_charge_drawn() {
    let mut c = Collector::new();
    c.collect_elapsed(message(&[("I", "-1000")]), None);
    c.collect_elapsed(message(&[("I", "-1000")]), Some(3_600_000_000_000));
    c.reset_totals();
    assert_eq!(value_of(&c.build_json_message(), JsonKey::MainBatteryAmpHourTotal), None);
}

#[test]
fn a_new_period_keeps_only_the_charge_drawn() {
    let mut c = Collector::new();
    c.collect_elapsed(message(&[("I", "-1000"), ("V", "12")]), None);
    c.collect_elapsed(message(&[("I", "-1000"), ("V", "12")]), Some(3_600_000_000_000));
    c.increment_checksum_error();
    let c = Collector::next(c);
    assert_eq!(c.message_count(), 0);
    assert_eq!(c.checksum_error_count(), 0);
    let entries = c.build_json_message();
    assert_eq!(value_of(&entries, JsonKey::Field(Field::MainBatteryVoltage)), None);
    assert_eq!(value_of(&entries, JsonKey::MainBatteryAmpHourTotal), charge(-1000 * MAH));
}

#[test]
fn publish_ends_the_period() {
    let mut c = Collector::new();
    c.collect_elapsed(message(&[("I", "-1000")]), None);
    c.collect_elapsed(message(&[("I", "-1000")]), Some(3_600_000_000_000));
    let entries = c.publish(false);
    assert_eq!(value_of(&entries, JsonKey::MessageCount), Some(JsonValue::Int(2)));
    assert_eq!(c.message_count(), 0);
    let entries = c.publish(true);
    assert_eq!(value_of(&entries, JsonKey::MainBatteryAmpHourTotal), None);
    assert_eq!(value_of(&entries, JsonKey::MessageCount), Some(JsonValue::Int(0)));
}

#[test]
fn read_outcomes_are_recorded() {
    let mut c = Collector::new();
    c.record(Ok(message(&[("V", "5")])));
    c.record(Err(ReadError::ChecksumError));
    c.record(Err(ReadError::Timeout));
    c.record(Err(ReadError::Other("gone".to_string())));
    assert_eq!(c.message_count(), 1);
    assert_eq!(c.checksum_error_count(), 1);
    c.collect(message(&[("V", "7")]));
    assert_eq!(c.message_count(), 2);
    assert_eq!(value_of(&c.build_json_message(), JsonKey::Field(Field::MainBatteryVoltage)), mean(12, 2));
}

#[test]
fn message_count_is_the_number_of_messages_collected() {
    let mut c = Collector::new();
    c.increment_checksum_error();
    c.collect_elapsed(message(&[("V", "1")]), None);
    let _ = c.build_json_message();
    c.reset_totals();
    c.collect_elapsed(message(&[("I", "-5")]), Some(1_000));
    c.increment_checksum_error();
    c.collect_elapsed(message(&[]), Some(1_000));
    assert_eq!(c.message_count(), 3);
    let entries = c.build_json_message();
    assert_eq!(value_of(&entries, JsonKey::MessageCount), Some(JsonValue::Int(3)));
    assert_eq!(value_of(&entries, JsonKey::ChecksumErrorCount), Some(JsonValue::Int(2)));
    assert_eq!(entries[entries.len() - 2].key, JsonKey::MessageCount);
}

#[test]
fn collect_integrates_over_the_time_the_clock_gives() {
    let mut c = Collector::new();
    c.collect(message(&[("I", "-1000")]));
    // Nothing before the first message: nothing integrated.
    assert_eq!(value_of(&c.build_json_message(), JsonKey::MainBatteryAmpHourTotal), None);
    let start = std::time::Instant::now();
    while start.elapsed() < std::time::Duration::from_millis(20) {}
    c.collect(message(&[("I", "-1000")]));
    // At least 20 ms at -1000 mA went into the charge drawn.
    match value_of(&c.build_json_message(), JsonKey::MainBatteryAmpHourTotal) {
        Some(JsonValue::Charge(ma_ns)) => assert!(ma_ns <= -1000 * 20_000_000, "charge {}", ma_ns),
        other => panic!("no charge: {:?}", other),
    }
}
