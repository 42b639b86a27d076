use dashboard::vibration::{command_topic, mqtt_reaction, mqtt_settings, publish_ack, MqttEvent, MqttReaction, RETRY_DELAY_SECS};

#[test]
fn settings_match_the_broker() {
    let s = mqtt_settings();
    assert_eq!(s.client_id, "vibration_gui");
    assert_eq!(s.host, "127.0.0.1");
    assert_eq!(s.port, 1883);
    assert_eq!(s.keep_alive_secs, 5);
    assert_eq!(s.capacity, 10);
    assert_eq!(s.subscription, "/inspection/#");
    assert_eq!(command_topic(), "/inspection/cmd");
}

#[test]
fn broker_events_become_reactions() {
    assert!(matches!(mqtt_reaction(MqttEvent::ConnAck), MqttReaction::ReportConnected));
    assert!(matches!(mqtt_reaction(MqttEvent::Other), MqttReaction::Ignore));
    match mqtt_reaction(MqttEvent::Failed) {
        MqttReaction::ReportConnectingAndWait { secs } => assert_eq!(secs, RETRY_DELAY_SECS),
        _ => panic!("expected a retry"),
    }
    assert_eq!(RETRY_DELAY_SECS, 2);
}

#[test]
fn topics_select_the_parser() {
    let status = mqtt_reaction(MqttEvent::Publish { topic: "/inspection/status".to_string(), payload: b"{}".to_vec() });
    assert!(matches!(status, MqttReaction::ParseTelemetry(ref p) if p == b"{}"));
    let stream = mqtt_reaction(MqttEvent::Publish { topic: "/inspection/data/stream".to_string(), payload: vec![1] });
    assert!(matches!(stream, MqttReaction::ParseVibration(ref p) if p == &vec![1u8]));
    let other = mqtt_reaction(MqttEvent::Publish { topic: "/inspection/cmd".to_string(), payload: vec![] });
    assert!(matches!(other, MqttReaction::Ignore));
}

#[test]
fn publish_ack_text() {
    assert_eq!(publish_ack("start"), "start sent");
}
