//! The MQTT side: connection settings, topics, and how broker events turn
//! into dashboard reports.

use vstd::prelude::*;
use crate::text::same_text;

verus! {

/// How the dashboard connects to the broker.
pub struct MqttSettings {
    pub client_id: String,
    pub host: String,
    pub port: u16,
    pub keep_alive_secs: u64,
    /// Capacity of the client's request queue.
    pub capacity: usize,
    /// The topic filter subscribed to, at most-once delivery.
    pub subscription: String,
}

/// The broker settings: client `vibration_gui` on 127.0.0.1:1883, keep-alive
/// of five seconds, a request queue of ten, subscribed to `/inspection/#`.
pub fn mqtt_settings() -> (s: MqttSettings)
    ensures
        s.client_id@ == "vibration_gui"@,
        s.host@ == "127.0.0.1"@,
        s.port == 1883,
        s.keep_alive_secs == 5,
        s.capacity == 10,
        s.subscription@ == "/inspection/#"@,
{
    MqttSettings {
        client_id: String::from_str("vibration_gui"),
        host: String::from_str("127.0.0.1"),
        port: 1883,
        keep_alive_secs: 5,
        capacity: 10,
        subscription: String::from_str("/inspection/#"),
    }
}

/// Seconds to wait after a failed poll before polling again.
pub const RETRY_DELAY_SECS: u64 = 2;

/// The topic on which the robot reports its status.
pub open spec fn status_topic() -> Seq<char> {
    "/inspection/status"@
}

/// The topic on which the sensor streams vibration traces.
pub open spec fn stream_topic() -> Seq<char> {
    "/inspection/data/stream"@
}

/// What the event loop reported.
pub enum MqttEvent {
    /// The broker acknowledged the connection.
    ConnAck,
    /// A message arrived on `topic`.
    Publish { topic: String, payload: Vec<u8> },
    /// Polling failed.
    Failed,
    /// Anything else.
    Other,
}

/// What the dashboard does about a broker event.
pub enum MqttReaction {
    /// Report that the link is up.
    ReportConnected,
    /// Parse the payload as robot status and report it.
    ParseTelemetry(Vec<u8>),
    /// Parse the payload as a vibration trace and report it.
    ParseVibration(Vec<u8>),
    /// Report that the link is being re-established, then wait before polling again.
    ReportConnectingAndWait { secs: u64 },
    /// Nothing.
    Ignore,
}

/// The reaction to `event`: connection acknowledgements and failures are
/// reported, messages on the status and stream topics are parsed, the rest
/// is ignored.
pub fn mqtt_reaction(event: MqttEvent) -> (r: MqttReaction)
    ensures
        match event {
            MqttEvent::ConnAck => r is ReportConnected,
            MqttEvent::Publish { topic, payload } => if topic@ == status_topic() {
                r matches MqttReaction::ParseTelemetry(p) && p@ == payload@
            } else if topic@ == stream_topic() {
                r matches MqttReaction::ParseVibration(p) && p@ == payload@
            } else {
                r is Ignore
            },
            MqttEvent::Failed => r matches MqttReaction::ReportConnectingAndWait { secs } && secs
                == RETRY_DELAY_SECS,
            MqttEvent::Other => r is Ignore,
        },
{
    match event {
        MqttEvent::ConnAck => MqttReaction::ReportConnected,
        MqttEvent::Publish { topic, payload } => {
            if same_text(topic.as_str(), "/inspection/status") {
                MqttReaction::ParseTelemetry(payload)
            } else if same_text(topic.as_str(), "/inspection/data/stream") {
                MqttReaction::ParseVibration(payload)
            } else {
                MqttReaction::Ignore
            }
        },
        MqttEvent::Failed => MqttReaction::ReportConnectingAndWait { secs: RETRY_DELAY_SECS },
        MqttEvent::Other => MqttReaction::Ignore,
    }
}

/// The topic on which commands for the solenoid are published.
pub fn command_topic() -> (t: String)
    ensures
        t@ == "/inspection/cmd"@,
{
    String::from_str("/inspection/cmd")
}

/// The report of a published command: the command followed by `" sent"`.
pub fn publish_ack(command: &str) -> (text: String)
    ensures
        text@ == command@ + " sent"@,
{
    let mut text = String::from_str(command);
    text.append(" sent");
    text
}

} // verus!
