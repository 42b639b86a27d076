use dashboard::types::{InboundPayload, LabelSelection, QueuedRecord, VibrationPayload};

fn full_record() -> QueuedRecord {
    QueuedRecord {
        vib_data: Some(VibrationPayload { vibration: vec![1.5f64.to_bits()] }),
        cam0_bytes: Some(vec![1, 2]),
        cam1_bytes: Some(vec![3]),
        label: Some(1),
    }
}

#[test]
fn populated_count_counts_present_items() {
    assert_eq!(QueuedRecord::default().populated_count(), 0);
    assert_eq!(full_record().populated_count(), 4);
    let partial = QueuedRecord { vib_data: None, cam0_bytes: Some(vec![]), cam1_bytes: None, label: Some(0) };
    assert_eq!(partial.populated_count(), 2);
}

#[test]
fn refresh_on_save_empties_the_record() {
    let fresh = full_record().refresh_on_save();
    assert_eq!(fresh.populated_count(), 0);
    assert!(fresh.vib_data.is_none());
    assert!(fresh.cam0_bytes.is_none());
    assert!(fresh.cam1_bytes.is_none());
    assert!(fresh.label.is_none());
}

#[test]
fn label_selection_names_and_values() {
    assert_eq!(LabelSelection::Unset.text(), "None");
    assert_eq!(LabelSelection::Pass.text(), "Pass");
    assert_eq!(LabelSelection::Fail.text(), "Fail");
    assert_eq!(LabelSelection::Unset.value(), None);
    assert_eq!(LabelSelection::Pass.value(), Some(1));
    assert_eq!(LabelSelection::Fail.value(), Some(0));
    assert_eq!(
        LabelSelection::all(),
        [LabelSelection::Unset, LabelSelection::Pass, LabelSelection::Fail]
    );
}

#[test]
fn payload_defaults_are_empty() {
    assert_eq!(InboundPayload::default().status_message, "");
    assert!(VibrationPayload::default().vibration.is_empty());
}

#[test]
fn duplicate_copies_the_trace() {
    let p = VibrationPayload { vibration: vec![0.25f64.to_bits(), (-3.0f64).to_bits()] };
    let q = p.duplicate();
    assert_eq!(q.vibration, p.vibration);
    assert_eq!(f64::from_bits(q.vibration[1]), -3.0);
}
