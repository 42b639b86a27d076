//! The dashboard's state and its update rule: each message changes the state
//! and names at most one piece of outside work (an effect) for the caller to
//! perform. The MQTT client, the sidecar's command channel and decoded frames
//! are carried through as opaque handles.

use vstd::prelude::*;
use crate::text::{decimal, push_decimal, same_text};
use crate::types::{
    bytes_view, InboundPayload, LabelSelection, QueuedRecord, QueuedRecordView, VibrationPayload,
};

verus! {

/// `Result::clone` of std, which vstd leaves without a contract: a clone of
/// `Ok(t)` is `Ok` of a clone of `t`, and a clone of `Err(e)` is `Err` of a clone
/// of `e`, as the derived impl in std does.
pub assume_specification<T: Clone, E: Clone>[ <Result<T, E> as Clone>::clone ](
    r: &Result<T, E>,
) -> (res: Result<T, E>)
    ensures
        r is Ok ==> res is Ok && cloned::<T>(r->Ok_0, res->Ok_0),
        r is Err ==> res is Err && cloned::<E>(r->Err_0, res->Err_0),
;

/// What the dashboard is told: operator actions, worker events and the
/// outcomes of earlier effects.
#[derive(Debug, Clone)]
pub enum Message<Client, Sender, Frame> {
    ToggleConnection,
    MqttReady(Option<Client>),
    Connected,
    Connecting,
    TelemetryReceived(InboundPayload),
    VibrationDataReceived(VibrationPayload),
    PublishFinished(Result<String, String>),
    QueueVibration,
    QueueImage1,
    QueueImage2,
    QueueLabel,
    SelectedLabel(LabelSelection),
    SaveAllToDisk,
    SaveAllFinished(Result<usize, String>),
    StartVib,
    StopVib,
    ProcessReady(Sender),
    FrameReceived(usize, Vec<u8>),
    FrameDecoded(usize, Option<Frame>),
    SidecarMessage(String),
    StartCamera,
    StopCamera,
    InitFileCounts(usize, usize, usize),
}

/// Outside work that an update asks for.
#[derive(Debug)]
pub enum Effect {
    /// Nothing to do.
    Nothing,
    /// Publish `payload` on the MQTT topic `topic`.
    Publish { topic: String, payload: String },
    /// Write the record to disk under `start_id` and report the outcome.
    SaveRecords { records: QueuedRecord, start_id: usize },
    /// Count the inventory rows and the stored files, and report them.
    ScanRecordFiles,
    /// Decode the image bytes of camera `cam_id` and report the frame.
    DecodeFrame { cam_id: usize, bytes: Vec<u8> },
    /// Send a command line to the vision sidecar.
    SendCameraCommand(String),
}

/// The contents of an effect.
pub enum EffectView {
    Nothing,
    Publish { topic: Seq<char>, payload: Seq<char> },
    SaveRecords { records: QueuedRecordView, start_id: usize },
    ScanRecordFiles,
    DecodeFrame { cam_id: usize, bytes: Seq<u8> },
    SendCameraCommand(Seq<char>),
}

impl View for Effect {
    type V = EffectView;

    open spec fn view(&self) -> EffectView {
        match self {
            Effect::Nothing => EffectView::Nothing,
            Effect::Publish { topic, payload } => EffectView::Publish {
                topic: topic@,
                payload: payload@,
            },
            Effect::SaveRecords { records, start_id } => EffectView::SaveRecords {
                records: records@,
                start_id: *start_id,
            },
            Effect::ScanRecordFiles => EffectView::ScanRecordFiles,
            Effect::DecodeFrame { cam_id, bytes } => EffectView::DecodeFrame {
                cam_id: *cam_id,
                bytes: bytes@,
            },
            Effect::SendCameraCommand(c) => EffectView::SendCameraCommand(c@),
        }
    }
}

/// The dashboard: the MQTT link and telemetry, the vision sidecar and its two
/// cameras, the chosen label, and the record being assembled.
pub struct UnifiedDashboard<Client, Sender, Frame> {
    // MQTT state
    pub should_connect: bool,
    pub mqtt_client: Option<Client>,
    pub telemetry: InboundPayload,
    pub vibration_data: VibrationPayload,
    pub mqtt_status_message: String,
    pub can_publish: bool,
    // Sidecar state
    pub camera_command_sender: Option<Sender>,
    pub is_streaming: bool,
    pub latest_frames: [Option<Frame>; 2],
    pub previous_frames: [Option<Frame>; 2],
    pub raw_image_bytes: [Option<Vec<u8>>; 2],
    pub camera_status_message: String,
    // Label choice
    pub label: Option<i32>,
    pub selectd_label: LabelSelection,
    // Record state
    pub records: QueuedRecord,
    pub pending_records: usize,
    pub total_vib_files: usize,
    pub total_img_files: usize,
    pub saved_records_count: usize,
    pub sys_message: String,
}

/// The contents of the dashboard.
#[verifier::ext_equal]
pub struct DashboardView<Client, Sender, Frame> {
    pub should_connect: bool,
    pub mqtt_client: Option<Client>,
    pub telemetry: Seq<char>,
    pub vibration_data: Seq<u64>,
    pub mqtt_status_message: Seq<char>,
    pub can_publish: bool,
    pub camera_command_sender: Option<Sender>,
    pub is_streaming: bool,
    pub latest_frames: Seq<Option<Frame>>,
    pub previous_frames: Seq<Option<Frame>>,
    pub raw_image_bytes: Seq<Option<Seq<u8>>>,
    pub camera_status_message: Seq<char>,
    pub label: Option<i32>,
    pub selectd_label: LabelSelection,
    pub records: QueuedRecordView,
    pub pending_records: usize,
    pub total_vib_files: usize,
    pub total_img_files: usize,
    pub saved_records_count: usize,
    pub sys_message: Seq<char>,
}

impl<Client, Sender, Frame> View for UnifiedDashboard<Client, Sender, Frame> {
    type V = DashboardView<Client, Sender, Frame>;

    open spec fn view(&self) -> DashboardView<Client, Sender, Frame> {
        DashboardView {
            should_connect: self.should_connect,
            mqtt_client: self.mqtt_client,
            telemetry: self.telemetry@,
            vibration_data: self.vibration_data@,
            mqtt_status_message: self.mqtt_status_message@,
            can_publish: self.can_publish,
            camera_command_sender: self.camera_command_sender,
            is_streaming: self.is_streaming,
            latest_frames: self.latest_frames@,
            previous_frames: self.previous_frames@,
            raw_image_bytes: self.raw_image_bytes@.map_values(|b: Option<Vec<u8>>| bytes_view(b)),
            camera_status_message: self.camera_status_message@,
            label: self.label,
            selectd_label: self.selectd_label,
            records: self.records@,
            pending_records: self.pending_records,
            total_vib_files: self.total_vib_files,
            total_img_files: self.total_img_files,
            saved_records_count: self.saved_records_count,
            sys_message: self.sys_message@,
        }
    }
}

/// The dashboard at start-up: disconnected, no frames, nothing queued.
pub open spec fn initial_view<Client, Sender, Frame>() -> DashboardView<Client, Sender, Frame> {
    DashboardView {
        should_connect: false,
        mqtt_client: None,
        telemetry: Seq::empty(),
        vibration_data: Seq::empty(),
        mqtt_status_message: "Disconnected"@,
        can_publish: false,
        camera_command_sender: None,
        is_streaming: false,
        latest_frames: seq![None, None],
        previous_frames: seq![None, None],
        raw_image_bytes: seq![None, None],
        camera_status_message: "Starting up..."@,
        label: None,
        selectd_label: LabelSelection::Unset,
        records: QueuedRecordView::empty(),
        pending_records: 0,
        total_vib_files: 0,
        total_img_files: 0,
        saved_records_count: 0,
        sys_message: Seq::empty(),
    }
}

/// The text reported after an item is queued.
pub open spec fn queued_text(what: Seq<char>, pending: nat) -> Seq<char> {
    what + decimal(pending)
}

/// The record after one item is queued, with the status that reports it.
pub open spec fn after_queue<Client, Sender, Frame>(
    pre: DashboardView<Client, Sender, Frame>,
    rec: QueuedRecordView,
    what: Seq<char>,
) -> DashboardView<Client, Sender, Frame> {
    DashboardView {
        records: rec,
        pending_records: rec.count() as usize,
        sys_message: queued_text(what, rec.count()),
        ..pre
    }
}

/// The id under which the next record is saved: one less than the saved count, or 0.
pub open spec fn next_record_id(saved: usize) -> usize {
    if saved > 0 {
        (saved - 1) as usize
    } else {
        0
    }
}

/// The report shown when the file counts arrive.
pub open spec fn ready_text(rows: usize, vib: usize, img: usize) -> Seq<char> {
    "System Ready | Inventory: "@ + decimal(rows as nat) + " rows | Found "@ + decimal(vib as nat)
        + " JSONs and "@ + decimal(img as nat) + " JPGs"@
}

/// The dashboard after `msg`.
pub open spec fn next_view<Client, Sender, Frame>(
    pre: DashboardView<Client, Sender, Frame>,
    msg: Message<Client, Sender, Frame>,
) -> DashboardView<Client, Sender, Frame> {
    match msg {
        Message::Connecting => DashboardView {
            mqtt_status_message: "Connecting..."@,
            can_publish: false,
            ..pre
        },
        Message::Connected => DashboardView {
            mqtt_status_message: "Connected"@,
            can_publish: true,
            ..pre
        },
        Message::ToggleConnection => if pre.should_connect {
            DashboardView {
                should_connect: false,
                mqtt_client: None,
                mqtt_status_message: "Disconnected"@,
                ..pre
            }
        } else {
            DashboardView { should_connect: true, mqtt_status_message: "Connecting..."@, ..pre }
        },
        Message::MqttReady(client) => DashboardView {
            mqtt_client: client,
            mqtt_status_message: if client is Some {
                "Connected to Robot!"@
            } else {
                pre.mqtt_status_message
            },
            ..pre
        },
        Message::TelemetryReceived(p) => DashboardView { telemetry: p@, ..pre },
        Message::VibrationDataReceived(p) => DashboardView { vibration_data: p@, ..pre },
        Message::StartVib => pre,
        Message::StopVib => pre,
        Message::PublishFinished(r) => match r {
            Ok(_) => pre,
            Err(e) => DashboardView { sys_message: "MQTT Error: "@ + e@, ..pre },
        },
        Message::QueueVibration => if pre.vibration_data.len() > 0 {
            after_queue(
                pre,
                QueuedRecordView { vib_data: Some(pre.vibration_data), ..pre.records },
                "Queued Vibration Data. Pending items: "@,
            )
        } else {
            pre
        },
        Message::QueueImage1 => after_queue(
            pre,
            QueuedRecordView { cam0_bytes: pre.raw_image_bytes[0], ..pre.records },
            "Queued Images. Pending items: "@,
        ),
        Message::QueueImage2 => after_queue(
            pre,
            QueuedRecordView { cam1_bytes: pre.raw_image_bytes[1], ..pre.records },
            "Queued Images. Pending items: "@,
        ),
        Message::QueueLabel => after_queue(
            pre,
            QueuedRecordView { label: pre.label, ..pre.records },
            "Queued Label. Pending items: "@,
        ),
        Message::SelectedLabel(sel) => DashboardView {
            selectd_label: sel,
            label: sel.value_spec(),
            ..pre
        },
        Message::SaveAllToDisk => if pre.pending_records < 4 {
            DashboardView { sys_message: "Need all 4 pending records to be saved"@, ..pre }
        } else {
            DashboardView { records: QueuedRecordView::empty(), ..pre }
        },
        Message::SaveAllFinished(r) => match r {
            Ok(n) => DashboardView {
                saved_records_count: (pre.saved_records_count + n) as usize,
                total_img_files: (pre.total_img_files + 2) as usize,
                total_vib_files: (pre.total_vib_files + 1) as usize,
                sys_message: "Successfully saved "@ + decimal(n as nat)
                    + " records to disk and CSV!"@,
                pending_records: pre.records.count() as usize,
                ..pre
            },
            Err(e) => DashboardView { sys_message: "Failed to save records: "@ + e@, ..pre },
        },
        Message::ProcessReady(tx) => DashboardView { camera_command_sender: Some(tx), ..pre },
        Message::FrameReceived(cam_id, bytes) => if cam_id < 2 {
            DashboardView {
                raw_image_bytes: pre.raw_image_bytes.update(cam_id as int, Some(bytes@)),
                ..pre
            }
        } else {
            pre
        },
        Message::FrameDecoded(cam_id, frame) => if cam_id < 2 && frame is Some {
            DashboardView {
                previous_frames: pre.previous_frames.update(
                    cam_id as int,
                    pre.latest_frames[cam_id as int],
                ),
                latest_frames: pre.latest_frames.update(cam_id as int, frame),
                ..pre
            }
        } else {
            pre
        },
        Message::SidecarMessage(m) => DashboardView {
            camera_status_message: m@,
            sys_message: m@,
            ..pre
        },
        Message::StartCamera => DashboardView {
            is_streaming: true,
            sys_message: if pre.camera_command_sender is Some {
                "Start Cameras"@
            } else {
                pre.sys_message
            },
            ..pre
        },
        Message::StopCamera => DashboardView { is_streaming: false, ..pre },
        Message::InitFileCounts(rows, vib, img) => DashboardView {
            total_vib_files: vib,
            total_img_files: img,
            saved_records_count: rows,
            sys_message: ready_text(rows, vib, img),
            ..pre
        },
    }
}

/// What a publish request amounts to: a publish when a client is present,
/// nothing otherwise.
pub open spec fn publish_effect<Client, Sender, Frame>(
    pre: DashboardView<Client, Sender, Frame>,
    topic: Seq<char>,
    payload: Seq<char>,
) -> EffectView {
    if pre.mqtt_client is Some {
        EffectView::Publish { topic, payload }
    } else {
        EffectView::Nothing
    }
}

/// A command for the sidecar, sent only when its channel is open.
pub open spec fn camera_effect<Client, Sender, Frame>(
    pre: DashboardView<Client, Sender, Frame>,
    command: Seq<char>,
) -> EffectView {
    if pre.camera_command_sender is Some {
        EffectView::SendCameraCommand(command)
    } else {
        EffectView::Nothing
    }
}

/// The effect that `msg` asks for.
pub open spec fn effect_of<Client, Sender, Frame>(
    pre: DashboardView<Client, Sender, Frame>,
    msg: Message<Client, Sender, Frame>,
) -> EffectView {
    match msg {
        Message::StartVib => publish_effect(pre, "/inspection/cmd"@, "start"@),
        Message::StopVib => publish_effect(pre, "/inspection/cmd"@, "stop"@),
        Message::SaveAllToDisk => if pre.pending_records < 4 {
            EffectView::Nothing
        } else {
            EffectView::SaveRecords {
                records: pre.records,
                start_id: next_record_id(pre.saved_records_count),
            }
        },
        Message::ProcessReady(_) => EffectView::ScanRecordFiles,
        Message::FrameReceived(cam_id, bytes) => if cam_id < 2 {
            EffectView::DecodeFrame { cam_id, bytes: bytes@ }
        } else {
            EffectView::Nothing
        },
        Message::StartCamera => camera_effect(pre, "START"@),
        Message::StopCamera => camera_effect(pre, "STOP"@),
        _ => EffectView::Nothing,
    }
}

/// Whether `msg` can be applied without a counter overflowing: only a
/// successful save report adds to counters.
pub open spec fn admissible<Client, Sender, Frame>(
    pre: DashboardView<Client, Sender, Frame>,
    msg: Message<Client, Sender, Frame>,
) -> bool {
    match msg {
        Message::SaveAllFinished(Ok(n)) => {
            &&& pre.saved_records_count + n <= usize::MAX
            &&& pre.total_img_files + 2 <= usize::MAX
            &&& pre.total_vib_files + 1 <= usize::MAX
        },
        _ => true,
    }
}

/// A copy of an optional byte buffer.
fn copy_bytes(b: &Option<Vec<u8>>) -> (r: Option<Vec<u8>>)
    ensures
        bytes_view(r) == bytes_view(*b),
{
    match b {
        Some(v) => Some(v.clone()),
        None => None,
    }
}

/// A queue report: `what` followed by the number of pending items.
fn queued_message(what: &str, pending: usize) -> (s: String)
    ensures
        s@ == queued_text(what@, pending as nat),
{
    let mut s = String::from_str(what);
    push_decimal(&mut s, pending);
    s
}

impl<Client, Sender, Frame> UnifiedDashboard<Client, Sender, Frame> {
    /// The dashboard at start-up.
    pub fn new() -> (d: Self)
        ensures
            d@ == initial_view::<Client, Sender, Frame>(),
    {
        let d = UnifiedDashboard {
            should_connect: false,
            mqtt_client: None,
            telemetry: InboundPayload::default(),
            vibration_data: VibrationPayload::default(),
            mqtt_status_message: String::from_str("Disconnected"),
            can_publish: false,
            camera_command_sender: None,
            is_streaming: false,
            latest_frames: [None, None],
            previous_frames: [None, None],
            raw_image_bytes: [None, None],
            camera_status_message: String::from_str("Starting up..."),
            label: None,
            selectd_label: LabelSelection::Unset,
            records: QueuedRecord::default(),
            pending_records: 0,
            total_vib_files: 0,
            total_img_files: 0,
            saved_records_count: 0,
            sys_message: String::new(),
        };
        assert(d@.latest_frames =~= seq![None, None]);
        assert(d@.previous_frames =~= seq![None, None]);
        assert(d@.raw_image_bytes =~= seq![None, None]);
        assert(d@ =~= initial_view::<Client, Sender, Frame>());
        d
    }

    /// Asks for `command` to be published on `topic` when a client is present.
    pub fn publish_command(&self, topic: String, command: String) -> (e: Effect)
        ensures
            e@ == publish_effect(self@, topic@, command@),
    {
        if self.mqtt_client.is_some() {
            Effect::Publish { topic, payload: command }
        } else {
            Effect::Nothing
        }
    }

    /// Applies `message` and returns the outside work it asks for.
    #[verifier::rlimit(50)]
    pub fn update(&mut self, message: Message<Client, Sender, Frame>) -> (effect: Effect)
        requires
            admissible(old(self)@, message),
        ensures
            final(self)@ == next_view(old(self)@, message),
            effect@ == effect_of(old(self)@, message),
    {
        let ghost pre = self@;
        match message {
            Message::Connecting => {
                self.mqtt_status_message = String::from_str("Connecting...");
                self.can_publish = false;
                Effect::Nothing
            },
            Message::Connected => {
                self.mqtt_status_message = String::from_str("Connected");
                self.can_publish = true;
                Effect::Nothing
            },
            Message::ToggleConnection => {
                self.should_connect = !self.should_connect;
                if !self.should_connect {
                    self.mqtt_client = None;
                    self.mqtt_status_message = String::from_str("Disconnected");
                } else {
                    self.mqtt_status_message = String::from_str("Connecting...");
                }
                Effect::Nothing
            },
            Message::MqttReady(client) => {
                self.mqtt_client = client;
                if self.mqtt_client.is_some() {
                    self.mqtt_status_message = String::from_str("Connected to Robot!");
                }
                Effect::Nothing
            },
            Message::TelemetryReceived(payload) => {
                self.telemetry = payload;
                Effect::Nothing
            },
            Message::VibrationDataReceived(payload) => {
                self.vibration_data = payload;
                Effect::Nothing
            },
            Message::StartVib => {
                self.publish_command(String::from_str("/inspection/cmd"), String::from_str("start"))
            },
            Message::StopVib => {
                self.publish_command(String::from_str("/inspection/cmd"), String::from_str("stop"))
            },
            Message::PublishFinished(result) => {
                if let Err(e) = result {
                    let mut text = String::from_str("MQTT Error: ");
                    text.append(e.as_str());
                    self.sys_message = text;
                }
                Effect::Nothing
            },
            Message::QueueVibration => {
                if self.vibration_data.vibration.len() > 0 {
                    self.records.vib_data = Some(self.vibration_data.duplicate());
                    self.pending_records = self.records.populated_count();
                    self.sys_message = queued_message(
                        "Queued Vibration Data. Pending items: ",
                        self.pending_records,
                    );
                }
                Effect::Nothing
            },
            Message::QueueImage1 => {
                self.records.cam0_bytes = copy_bytes(&self.raw_image_bytes[0]);
                self.pending_records = self.records.populated_count();
                self.sys_message = queued_message(
                    "Queued Images. Pending items: ",
                    self.pending_records,
                );
                Effect::Nothing
            },
            Message::QueueImage2 => {
                self.records.cam1_bytes = copy_bytes(&self.raw_image_bytes[1]);
                self.pending_records = self.records.populated_count();
                self.sys_message = queued_message(
                    "Queued Images. Pending items: ",
                    self.pending_records,
                );
                Effect::Nothing
            },
            Message::QueueLabel => {
                self.records.label = self.label;
                self.pending_records = self.records.populated_count();
                self.sys_message = queued_message(
                    "Queued Label. Pending items: ",
                    self.pending_records,
                );
                Effect::Nothing
            },
            Message::SelectedLabel(selection) => {
                self.selectd_label = selection;
                self.label = selection.value();
                Effect::Nothing
            },
            Message::SaveAllToDisk => {
                if self.pending_records < 4 {
                    self.sys_message = String::from_str("Need all 4 pending records to be saved");
                    return Effect::Nothing;
                }
                let mut records_to_save = QueuedRecord::default();
                std::mem::swap(&mut records_to_save, &mut self.records);
                let start_id = if self.saved_records_count > 0 {
                    self.saved_records_count - 1
                } else {
                    0
                };
                Effect::SaveRecords { records: records_to_save, start_id }
            },
            Message::SaveAllFinished(result) => {
                match result {
                    Ok(saved_count) => {
                        self.saved_records_count = self.saved_records_count + saved_count;
                        self.total_img_files = self.total_img_files + 2;
                        self.total_vib_files = self.total_vib_files + 1;
                        let mut text = String::from_str("Successfully saved ");
                        push_decimal(&mut text, saved_count);
                        text.append(" records to disk and CSV!");
                        self.sys_message = text;
                        self.pending_records = self.records.populated_count();
                    },
                    Err(e) => {
                        let mut text = String::from_str("Failed to save records: ");
                        text.append(e.as_str());
                        self.sys_message = text;
                    },
                }
                Effect::Nothing
            },
            Message::ProcessReady(tx) => {
                self.camera_command_sender = Some(tx);
                Effect::ScanRecordFiles
            },
            Message::FrameReceived(cam_id, bytes) => {
                if cam_id < 2 {
                    self.raw_image_bytes.set(cam_id, Some(bytes.clone()));
                    proof {
                        assert(self@.raw_image_bytes =~= pre.raw_image_bytes.update(
                            cam_id as int,
                            Some(bytes@),
                        ));
                    }
                    Effect::DecodeFrame { cam_id, bytes }
                } else {
                    Effect::Nothing
                }
            },
            Message::FrameDecoded(cam_id, frame) => {
                if cam_id < 2 {
                    if let Some(val) = frame {
                        let shown = self.latest_frames[cam_id].take();
                        self.previous_frames.set(cam_id, shown);
                        self.latest_frames.set(cam_id, Some(val));
                        proof {
                            assert(self@.previous_frames =~= pre.previous_frames.update(
                                cam_id as int,
                                pre.latest_frames[cam_id as int],
                            ));
                            assert(self@.latest_frames =~= pre.latest_frames.update(
                                cam_id as int,
                                Some(val),
                            ));
                        }
                    }
                }
                Effect::Nothing
            },
            Message::SidecarMessage(msg) => {
                self.camera_status_message = String::from_str(msg.as_str());
                self.sys_message = msg;
                Effect::Nothing
            },
            Message::StartCamera => {
                self.is_streaming = true;
                if self.camera_command_sender.is_some() {
                    self.sys_message = String::from_str("Start Cameras");
                    Effect::SendCameraCommand(String::from_str("START"))
                } else {
                    Effect::Nothing
                }
            },
            Message::StopCamera => {
                self.is_streaming = false;
                if self.camera_command_sender.is_some() {
                    Effect::SendCameraCommand(String::from_str("STOP"))
                } else {
                    Effect::Nothing
                }
            },
            Message::InitFileCounts(records_count, vib, img) => {
                self.total_vib_files = vib;
                self.total_img_files = img;
                self.saved_records_count = records_count;
                let mut text = String::from_str("System Ready | Inventory: ");
                push_decimal(&mut text, records_count);
                text.append(" rows | Found ");
                push_decimal(&mut text, vib);
                text.append(" JSONs and ");
                push_decimal(&mut text, img);
                text.append(" JPGs");
                self.sys_message = text;
                Effect::Nothing
            },
        }
    }
}

/// The background workers the dashboard keeps running.
#[derive(Debug, Clone, Copy, PartialEq, Eq, Structural)]
pub enum Worker {
    /// The vision sidecar process.
    Sidecar,
    /// The MQTT event loop.
    Mqtt,
}

/// How one camera's panel is drawn.
#[derive(Debug, Clone, Copy, PartialEq, Eq, Structural)]
pub struct CameraPanel {
    /// Draw the previous frame underneath.
    pub show_previous: bool,
    /// Draw the latest frame on top.
    pub show_latest: bool,
}

impl CameraPanel {
    /// With no frame at all, the panel shows a waiting notice instead.
    pub open spec fn is_waiting(self) -> bool {
        !self.show_previous && !self.show_latest
    }
}

/// What the screen shows, apart from fixed captions.
pub struct ViewModel {
    /// The MQTT status is drawn as healthy.
    pub mqtt_ok: bool,
    /// Caption of the connect button.
    pub connect_label: String,
    /// The telemetry line.
    pub telemetry_line: String,
    /// The camera status is drawn as healthy.
    pub camera_ok: bool,
    /// The two camera panels.
    pub cameras: [CameraPanel; 2],
    /// The pending-items line.
    pub pending_line: String,
}

/// The panel of a camera with the given latest and previous frames.
pub open spec fn panel_of<Frame>(latest: Option<Frame>, previous: Option<Frame>) -> CameraPanel {
    CameraPanel { show_previous: previous is Some, show_latest: latest is Some }
}

impl<Client, Sender, Frame> UnifiedDashboard<Client, Sender, Frame> {
    /// The workers to keep running: the sidecar always, the MQTT loop while a
    /// connection is wanted.
    pub fn subscription(&self) -> (workers: Vec<Worker>)
        ensures
            workers@ == if self.should_connect {
                seq![Worker::Sidecar, Worker::Mqtt]
            } else {
                seq![Worker::Sidecar]
            },
    {
        let mut workers = Vec::new();
        workers.push(Worker::Sidecar);
        if self.should_connect {
            workers.push(Worker::Mqtt);
        }
        workers
    }

    /// The contents of the screen.
    pub fn view_model(&self) -> (v: ViewModel)
        ensures
            v.mqtt_ok == (self.mqtt_status_message@ == "Connected"@),
            v.connect_label@ == if self.should_connect {
                "Disconnect MQTT"@
            } else {
                "Connect MQTT"@
            },
            v.telemetry_line@ == "Telemetry: "@ + self.telemetry@,
            v.camera_ok == self.camera_command_sender is Some,
            v.cameras@ == seq![
                panel_of(self.latest_frames@[0], self.previous_frames@[0]),
                panel_of(self.latest_frames@[1], self.previous_frames@[1]),
            ],
            v.pending_line@ == "Pending Items: "@ + decimal(self.pending_records as nat)
                + " / 4"@,
    {
        let mut telemetry_line = String::from_str("Telemetry: ");
        telemetry_line.append(self.telemetry.status_message.as_str());
        let mut pending_line = String::from_str("Pending Items: ");
        push_decimal(&mut pending_line, self.pending_records);
        pending_line.append(" / 4");
        let cameras = [
            CameraPanel {
                show_previous: self.previous_frames[0].is_some(),
                show_latest: self.latest_frames[0].is_some(),
            },
            CameraPanel {
                show_previous: self.previous_frames[1].is_some(),
                show_latest: self.latest_frames[1].is_some(),
            },
        ];
        assert(cameras@ =~= seq![
            panel_of(self.latest_frames@[0], self.previous_frames@[0]),
            panel_of(self.latest_frames@[1], self.previous_frames@[1]),
        ]);
        ViewModel {
            mqtt_ok: same_text(self.mqtt_status_message.as_str(), "Connected"),
            connect_label: String::from_str(
                if self.should_connect {
                    "Disconnect MQTT"
                } else {
                    "Connect MQTT"
                },
            ),
            telemetry_line,
            camera_ok: self.camera_command_sender.is_some(),
            cameras,
            pending_line,
        }
    }
}

} // verus!
