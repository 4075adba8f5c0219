//! The configuration: where the broker is and how to log in, which serial
//! device to read, and how often to publish.

use vstd::prelude::*;

verus! {

/// The command line: the path of the configuration file.
#[derive(Clone, Debug)]
pub struct Args {
    /// Path of the configuration file.
    pub config: String,
}

/// The whole configuration.
#[derive(Clone, Debug)]
pub struct Config {
    /// The broker.
    pub mqtt: MqttConfig,
    /// The serial device.
    pub device: DeviceConfig,
    /// Publishing.
    pub publish: PublishConfig,
}

/// The broker and how to log in to it.
#[derive(Clone, Debug)]
pub struct MqttConfig {
    /// Host name of the broker.
    pub host: String,
    /// Port of the broker.
    pub port: u16,
    /// User name to log in with.
    pub username: Option<String>,
    /// Password to log in with.
    pub password: Option<String>,
    /// Client identifier to connect with.
    pub client_id: String,
    /// Topic to publish to.
    pub topic: String,
}

/// The serial device.
#[derive(Clone, Debug)]
pub struct DeviceConfig {
    /// Path of the serial device.
    pub path: String,
}

/// Publishing.
#[derive(Clone, Debug)]
pub struct PublishConfig {
    /// Seconds between two published messages.
    pub interval: u64,
}

/// The broker port when the configuration names none.
pub fn default_mqtt_port() -> (port: u16)
    ensures
        port == 1883,
{
    1883
}

/// The client identifier when the configuration names none.
pub fn default_client_id() -> (id: String)
    ensures
        id@ == "vedirect2mqtt"@,
{
    "vedirect2mqtt".to_owned()
}

/// The topic when the configuration names none.
pub fn default_topic() -> (topic: String)
    ensures
        topic@ == "vedirect2mqtt"@,
{
    "vedirect2mqtt".to_owned()
}

/// The serial device when the configuration names none.
pub fn default_device_path() -> (path: String)
    ensures
        path@ == "/dev/ttyUSB0"@,
{
    "/dev/ttyUSB0".to_owned()
}

/// The seconds between two published messages when the configuration names
/// none.
pub fn default_publish_interval() -> (seconds: u64)
    ensures
        seconds == 60,
{
    60
}

} // verus!
