//! What to do about each event of the broker connection.

use vstd::prelude::*;

verus! {

/// Seconds to wait before trying again after the connection failed.
pub const RETRY_DELAY_SECS: u64 = 2;

/// An event of the broker connection.
#[derive(Clone, Debug, PartialEq, Eq)]
pub enum MqttEvent {
    /// A message arrived on `topic`.
    Publish { topic: String },
    /// The broker accepted the connection.
    ConnAck,
    /// The broker acknowledged a subscription.
    SubAck,
    /// Keep-alive traffic, or an acknowledgement of our own sending.
    Routine,
    /// The connection failed on input or output.
    IoError,
    /// The connection was aborted.
    ConnectionAborted,
    /// The broker refused the connection.
    ConnectionRefused,
    /// Anything else.
    Other,
}

/// What to do about an event.
#[derive(Clone, Copy, Debug, PartialEq, Eq, Structural)]
pub enum MqttAction {
    /// Nothing.
    Nothing,
    /// Ask the receiver to set the charge drawn back to zero.
    RequestReset,
    /// Subscribe to the clearing topic.
    Subscribe,
    /// Wait `RETRY_DELAY_SECS` seconds, then go on.
    RetryLater,
    /// Stop handling the connection.
    Stop,
}

/// The topic on which a message asks to set the charge drawn back to zero:
/// the publishing topic followed by `/clear`.
pub fn clear_topic(topic: &str) -> (t: String)
    ensures
        t@ == topic@ + "/clear"@,
{
    let mut t = topic.to_owned();
    t.append("/clear");
    t
}

/// What to do about `event`, given the clearing topic: a message on the
/// clearing topic asks for a reset; an accepted connection subscribes to
/// the clearing topic; a failed or aborted connection waits and tries again;
/// a refused one stops; anything else needs nothing.
pub fn handle_event(event: &MqttEvent, clear: &String) -> (a: MqttAction)
    ensures
        a == match event {
            MqttEvent::Publish { topic } => if topic@ == clear@ {
                MqttAction::RequestReset
            } else {
                MqttAction::Nothing
            },
            MqttEvent::ConnAck => MqttAction::Subscribe,
            MqttEvent::IoError => MqttAction::RetryLater,
            MqttEvent::ConnectionAborted => MqttAction::RetryLater,
            MqttEvent::ConnectionRefused => MqttAction::Stop,
            _ => MqttAction::Nothing,
        },
{
    match event {
        MqttEvent::Publish { topic } => if *topic == *clear {
            MqttAction::RequestReset
        } else {
            MqttAction::Nothing
        },
        MqttEvent::ConnAck => MqttAction::Subscribe,
        MqttEvent::IoError => MqttAction::RetryLater,
        MqttEvent::ConnectionAborted => MqttAction::RetryLater,
        MqttEvent::ConnectionRefused => MqttAction::Stop,
        _ => MqttAction::Nothing,
    }
}

} // verus!
