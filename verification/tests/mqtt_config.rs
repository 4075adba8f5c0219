use vedirect2mqtt::config::{
    default_client_id, default_device_path, default_mqtt_port, default_publish_interval, default_topic,
};
use vedirect2mqtt::mqtt::{clear_topic, handle_event, MqttAction, MqttEvent, RETRY_DELAY_SECS};

#[test]
fn configuration_defaults() {
    assert_eq!(default_mqtt_port(), 1883);
    assert_eq!(default_client_id(), "vedirect2mqtt");
    assert_eq!(default_topic(), "vedirect2mqtt");
    assert_eq!(default_device_path(), "/dev/ttyUSB0");
    assert_eq!(default_publish_interval(), 60);
}

#[test]
fn clear_topic_follows_the_topic() {
    assert_eq!(clear_topic("my/solar/topic"), "my/solar/topic/clear");
    assert_eq!(clear_topic(""), "/clear");
}

#[test]
fn broker_events_and_what_is_done_about_them() {
    let clear = clear_topic("solar");
    let on = |e: MqttEvent| handle_event(&e, &clear);
    assert_eq!(on(MqttEvent::Publish { topic: "solar/clear".to_string() }), MqttAction::RequestReset);
    assert_eq!(on(MqttEvent::Publish { topic: "solar".to_string() }), MqttAction::Nothing);
    assert_eq!(on(MqttEvent::ConnAck), MqttAction::Subscribe);
    assert_eq!(on(MqttEvent::SubAck), MqttAction::Nothing);
    assert_eq!(on(MqttEvent::Routine), MqttAction::Nothing);
    assert_eq!(on(MqttEvent::IoError), MqttAction::RetryLater);
    assert_eq!(on(MqttEvent::ConnectionAborted), MqttAction::RetryLater);
    assert_eq!(on(MqttEvent::ConnectionRefused), MqttAction::Stop);
    assert_eq!(on(MqttEvent::Other), MqttAction::Nothing);
    assert_eq!(RETRY_DELAY_SECS, 2);
}
