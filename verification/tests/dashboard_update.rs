use dashboard::dashboard::{Effect, Message, UnifiedDashboard, Worker};
use dashboard::types::{InboundPayload, LabelSelection, VibrationPayload};

type Dash = UnifiedDashboard<&'static str, u8, u32>;
type Msg = Message<&'static str, u8, u32>;

fn apply(d: &mut Dash, m: Msg) -> Effect {
    d.update(m)
}

fn vib(samples: &[f64]) -> VibrationPayload {
    VibrationPayload { vibration: samples.iter().map(|x| x.to_bits()).collect() }
}

/// A dashboard with all four items queued.
fn full_dashboard() -> Dash {
    let mut d = Dash::new();
    apply(&mut d, Msg::VibrationDataReceived(vib(&[0.1, 0.2])));
    apply(&mut d, Msg::QueueVibration);
    apply(&mut d, Msg::FrameReceived(0, vec![10, 11]));
    apply(&mut d, Msg::FrameReceived(1, vec![20]));
    apply(&mut d, Msg::QueueImage1);
    apply(&mut d, Msg::QueueImage2);
    apply(&mut d, Msg::SelectedLabel(LabelSelection::Pass));
    apply(&mut d, Msg::QueueLabel);
    d
}

#[test]
fn new_dashboard_starts_disconnected() {
    let d = Dash::new();
    assert!(!d.should_connect);
    assert!(d.mqtt_client.is_none());
    assert_eq!(d.mqtt_status_message, "Disconnected");
    assert_eq!(d.camera_status_message, "Starting up...");
    assert_eq!(d.sys_message, "");
    assert_eq!(d.pending_records, 0);
    assert_eq!(d.selectd_label, LabelSelection::Unset);
    assert!(d.latest_frames.iter().all(|f| f.is_none()));
    assert!(d.raw_image_bytes.iter().all(|f| f.is_none()));
}

#[test]
fn connection_status_messages() {
    let mut d = Dash::new();
    assert!(matches!(apply(&mut d, Msg::Connecting), Effect::Nothing));
    assert_eq!(d.mqtt_status_message, "Connecting...");
    assert!(!d.can_publish);
    apply(&mut d, Msg::Connected);
    assert_eq!(d.mqtt_status_message, "Connected");
    assert!(d.can_publish);
}

#[test]
fn toggle_connection_twice_restores_wish() {
    let mut d = Dash::new();
    apply(&mut d, Msg::ToggleConnection);
    assert!(d.should_connect);
    assert_eq!(d.mqtt_status_message, "Connecting...");
    apply(&mut d, Msg::MqttReady(Some("client")));
    assert_eq!(d.mqtt_status_message, "Connected to Robot!");
    apply(&mut d, Msg::ToggleConnection);
    assert!(!d.should_connect);
    assert!(d.mqtt_client.is_none());
    assert_eq!(d.mqtt_status_message, "Disconnected");
}

#[test]
fn mqtt_ready_without_client_keeps_status() {
    let mut d = Dash::new();
    apply(&mut d, Msg::MqttReady(None));
    assert!(d.mqtt_client.is_none());
    assert_eq!(d.mqtt_status_message, "Disconnected");
}

#[test]
fn publish_needs_a_client() {
    let mut d = Dash::new();
    assert!(matches!(apply(&mut d, Msg::StartVib), Effect::Nothing));
    apply(&mut d, Msg::MqttReady(Some("client")));
    match apply(&mut d, Msg::StartVib) {
        Effect::Publish { topic, payload } => {
            assert_eq!(topic, "/inspection/cmd");
            assert_eq!(payload, "start");
        }
        other => panic!("unexpected effect {:?}", other),
    }
    match apply(&mut d, Msg::StopVib) {
        Effect::Publish { topic, payload } => {
            assert_eq!(topic, "/inspection/cmd");
            assert_eq!(payload, "stop");
        }
        other => panic!("unexpected effect {:?}", other),
    }
}

#[test]
fn publish_outcome_reports_errors_only() {
    let mut d = Dash::new();
    apply(&mut d, Msg::PublishFinished(Ok("start sent".to_string())));
    assert_eq!(d.sys_message, "");
    apply(&mut d, Msg::PublishFinished(Err("timeout".to_string())));
    assert_eq!(d.sys_message, "MQTT Error: timeout");
}

#[test]
fn telemetry_and_vibration_are_stored() {
    let mut d = Dash::new();
    apply(&mut d, Msg::TelemetryReceived(InboundPayload { status_message: "idle".to_string() }));
    assert_eq!(d.telemetry.status_message, "idle");
    apply(&mut d, Msg::VibrationDataReceived(vib(&[1.0, -1.0])));
    assert_eq!(d.vibration_data.vibration, vec![1.0f64.to_bits(), (-1.0f64).to_bits()]);
}

#[test]
fn empty_vibration_is_not_queued() {
    let mut d = Dash::new();
    apply(&mut d, Msg::QueueVibration);
    assert!(d.records.vib_data.is_none());
    assert_eq!(d.pending_records, 0);
    assert_eq!(d.sys_message, "");
}

#[test]
fn queueing_reports_pending_items() {
    let mut d = Dash::new();
    apply(&mut d, Msg::VibrationDataReceived(vib(&[0.5])));
    apply(&mut d, Msg::QueueVibration);
    assert_eq!(d.pending_records, 1);
    assert_eq!(d.sys_message, "Queued Vibration Data. Pending items: 1");
    apply(&mut d, Msg::FrameReceived(0, vec![1, 2, 3]));
    apply(&mut d, Msg::QueueImage1);
    assert_eq!(d.pending_records, 2);
    assert_eq!(d.sys_message, "Queued Images. Pending items: 2");
    assert_eq!(d.records.cam0_bytes, Some(vec![1, 2, 3]));
    apply(&mut d, Msg::QueueImage2);
    assert_eq!(d.pending_records, 2);
    assert!(d.records.cam1_bytes.is_none());
    apply(&mut d, Msg::SelectedLabel(LabelSelection::Fail));
    apply(&mut d, Msg::QueueLabel);
    assert_eq!(d.records.label, Some(0));
    assert_eq!(d.sys_message, "Queued Label. Pending items: 3");
}

#[test]
fn label_selection_sets_label_value() {
    let mut d = Dash::new();
    apply(&mut d, Msg::SelectedLabel(LabelSelection::Pass));
    assert_eq!(d.label, Some(1));
    assert_eq!(d.selectd_label, LabelSelection::Pass);
    apply(&mut d, Msg::SelectedLabel(LabelSelection::Fail));
    assert_eq!(d.label, Some(0));
    apply(&mut d, Msg::SelectedLabel(LabelSelection::Unset));
    assert_eq!(d.label, None);
}

#[test]
fn save_refused_until_four_items() {
    let mut d = Dash::new();
    apply(&mut d, Msg::SelectedLabel(LabelSelection::Pass));
    apply(&mut d, Msg::QueueLabel);
    assert!(matches!(apply(&mut d, Msg::SaveAllToDisk), Effect::Nothing));
    assert_eq!(d.sys_message, "Need all 4 pending records to be saved");
    assert_eq!(d.records.label, Some(1));
}

#[test]
fn save_hands_out_the_full_record() {
    let mut d = full_dashboard();
    assert_eq!(d.pending_records, 4);
    match apply(&mut d, Msg::SaveAllToDisk) {
        Effect::SaveRecords { records, start_id } => {
            assert_eq!(start_id, 0);
            assert_eq!(records.populated_count(), 4);
            assert_eq!(records.cam0_bytes, Some(vec![10, 11]));
            assert_eq!(records.cam1_bytes, Some(vec![20]));
            assert_eq!(records.label, Some(1));
        }
        other => panic!("unexpected effect {:?}", other),
    }
    assert_eq!(d.records.populated_count(), 0);
    // The counter keeps its value until the outcome is reported.
    assert_eq!(d.pending_records, 4);
    apply(&mut d, Msg::SaveAllFinished(Ok(1)));
    assert_eq!(d.pending_records, 0);
    assert_eq!(d.saved_records_count, 1);
    assert_eq!(d.total_img_files, 2);
    assert_eq!(d.total_vib_files, 1);
    assert_eq!(d.sys_message, "Successfully saved 1 records to disk and CSV!");
}

#[test]
fn save_id_follows_saved_count() {
    let mut d = full_dashboard();
    apply(&mut d, Msg::InitFileCounts(5, 5, 10));
    match apply(&mut d, Msg::SaveAllToDisk) {
        Effect::SaveRecords { start_id, .. } => assert_eq!(start_id, 4),
        other => panic!("unexpected effect {:?}", other),
    }
}

#[test]
fn failed_save_is_reported() {
    let mut d = Dash::new();
    apply(&mut d, Msg::SaveAllFinished(Err("disk full".to_string())));
    assert_eq!(d.sys_message, "Failed to save records: disk full");
    assert_eq!(d.saved_records_count, 0);
}

#[test]
fn process_ready_scans_files() {
    let mut d = Dash::new();
    assert!(matches!(apply(&mut d, Msg::ProcessReady(7)), Effect::ScanRecordFiles));
    assert_eq!(d.camera_command_sender, Some(7));
}

#[test]
fn frames_are_stored_and_decoded() {
    let mut d = Dash::new();
    match apply(&mut d, Msg::FrameReceived(1, vec![9, 8])) {
        Effect::DecodeFrame { cam_id, bytes } => {
            assert_eq!(cam_id, 1);
            assert_eq!(bytes, vec![9, 8]);
        }
        other => panic!("unexpected effect {:?}", other),
    }
    assert_eq!(d.raw_image_bytes[1], Some(vec![9, 8]));
    assert!(d.raw_image_bytes[0].is_none());
    assert!(matches!(apply(&mut d, Msg::FrameReceived(2, vec![1])), Effect::Nothing));
}

#[test]
fn decoded_frames_keep_one_previous() {
    let mut d = Dash::new();
    apply(&mut d, Msg::FrameDecoded(0, Some(1)));
    assert_eq!(d.latest_frames, [Some(1), None]);
    assert_eq!(d.previous_frames, [None, None]);
    apply(&mut d, Msg::FrameDecoded(0, Some(2)));
    assert_eq!(d.latest_frames, [Some(2), None]);
    assert_eq!(d.previous_frames, [Some(1), None]);
    apply(&mut d, Msg::FrameDecoded(0, None));
    apply(&mut d, Msg::FrameDecoded(5, Some(9)));
    assert_eq!(d.latest_frames, [Some(2), None]);
    assert_eq!(d.previous_frames, [Some(1), None]);
}

#[test]
fn sidecar_message_sets_both_statuses() {
    let mut d = Dash::new();
    apply(&mut d, Msg::SidecarMessage("camera ready".to_string()));
    assert_eq!(d.camera_status_message, "camera ready");
    assert_eq!(d.sys_message, "camera ready");
}

#[test]
fn camera_commands_need_the_channel() {
    let mut d = Dash::new();
    assert!(matches!(apply(&mut d, Msg::StartCamera), Effect::Nothing));
    assert!(d.is_streaming);
    assert_eq!(d.sys_message, "");
    apply(&mut d, Msg::ProcessReady(1));
    match apply(&mut d, Msg::StartCamera) {
        Effect::SendCameraCommand(c) => assert_eq!(c, "START"),
        other => panic!("unexpected effect {:?}", other),
    }
    assert_eq!(d.sys_message, "Start Cameras");
    match apply(&mut d, Msg::StopCamera) {
        Effect::SendCameraCommand(c) => assert_eq!(c, "STOP"),
        other => panic!("unexpected effect {:?}", other),
    }
    assert!(!d.is_streaming);
}

#[test]
fn init_file_counts_report() {
    let mut d = Dash::new();
    apply(&mut d, Msg::InitFileCounts(3, 4, 8));
    assert_eq!(d.saved_records_count, 3);
    assert_eq!(d.total_vib_files, 4);
    assert_eq!(d.total_img_files, 8);
    assert_eq!(d.sys_message, "System Ready | Inventory: 3 rows | Found 4 JSONs and 8 JPGs");
}

#[test]
fn pending_never_exceeds_four() {
    let mut d = full_dashboard();
    apply(&mut d, Msg::QueueImage1);
    apply(&mut d, Msg::QueueLabel);
    assert_eq!(d.pending_records, 4);
    assert_eq!(d.sys_message, "Queued Label. Pending items: 4");
}

#[test]
fn subscription_follows_connection_wish() {
    let mut d = Dash::new();
    assert_eq!(d.subscription(), vec![Worker::Sidecar]);
    apply(&mut d, Msg::ToggleConnection);
    assert_eq!(d.subscription(), vec![Worker::Sidecar, Worker::Mqtt]);
}

#[test]
fn view_model_texts_and_panels() {
    let mut d = Dash::new();
    let v = d.view_model();
    assert!(!v.mqtt_ok);
    assert_eq!(v.connect_label, "Connect MQTT");
    assert_eq!(v.telemetry_line, "Telemetry: ");
    assert!(!v.camera_ok);
    assert_eq!(v.pending_line, "Pending Items: 0 / 4");
    assert!(!v.cameras[0].show_latest && !v.cameras[0].show_previous);
    apply(&mut d, Msg::ToggleConnection);
    apply(&mut d, Msg::Connected);
    apply(&mut d, Msg::ProcessReady(1));
    apply(&mut d, Msg::FrameDecoded(1, Some(3)));
    apply(&mut d, Msg::FrameDecoded(1, Some(4)));
    let v = d.view_model();
    assert!(v.mqtt_ok);
    assert_eq!(v.connect_label, "Disconnect MQTT");
    assert!(v.camera_ok);
    assert!(v.cameras[1].show_latest && v.cameras[1].show_previous);
    assert!(!v.cameras[0].show_latest);
}

#[test]
fn publish_command_direct() {
    let mut d = Dash::new();
    assert!(matches!(d.publish_command("t".to_string(), "c".to_string()), Effect::Nothing));
    apply(&mut d, Msg::MqttReady(Some("c")));
    assert!(matches!(d.publish_command("t".to_string(), "c".to_string()), Effect::Publish { .. }));
}
