//! Properties of the dashboard that hold across messages and states.

use vstd::prelude::*;
use crate::camera::{base64_standard_decoding, sidecar_outcome, SidecarEventView};
use crate::dashboard::{
    admissible, effect_of, initial_view, next_record_id, next_view, DashboardView, EffectView,
    Message,
};
use crate::text::decimal;
use crate::types::{InboundPayload, VibrationPayload};

verus! {

/// The pending counter never exceeds the four items of a record.
pub open spec fn pending_in_range<Client, Sender, Frame>(
    v: DashboardView<Client, Sender, Frame>,
) -> bool {
    v.pending_records <= 4
}

/// The pending counter equals the number of queued items.
pub open spec fn pending_matches_queue<Client, Sender, Frame>(
    v: DashboardView<Client, Sender, Frame>,
) -> bool {
    v.pending_records == v.records.count()
}

/// At start-up nothing is pending and the counter agrees with the queue.
pub proof fn lemma_initial_state<Client, Sender, Frame>()
    ensures
        pending_in_range(initial_view::<Client, Sender, Frame>()),
        pending_matches_queue(initial_view::<Client, Sender, Frame>()),
        initial_view::<Client, Sender, Frame>().records.count() == 0,
{
}

/// The dashboard after applying `msgs` in order to `start`.
pub open spec fn run_from<Client, Sender, Frame>(
    start: DashboardView<Client, Sender, Frame>,
    msgs: Seq<Message<Client, Sender, Frame>>,
) -> DashboardView<Client, Sender, Frame>
    decreases msgs.len(),
{
    if msgs.len() == 0 {
        start
    } else {
        next_view(run_from(start, msgs.drop_last()), msgs.last())
    }
}

/// In every dashboard reachable from start-up, whatever the messages, the
/// pending counter is within 0..=4.
pub proof fn lemma_reachable_pending_in_range<Client, Sender, Frame>(
    msgs: Seq<Message<Client, Sender, Frame>>,
)
    ensures
        pending_in_range(run_from(initial_view::<Client, Sender, Frame>(), msgs)),
    decreases msgs.len(),
{
    if msgs.len() > 0 {
        lemma_reachable_pending_in_range(msgs.drop_last());
        lemma_pending_stays_in_range(
            run_from(initial_view::<Client, Sender, Frame>(), msgs.drop_last()),
            msgs.last(),
        );
    }
}

/// Every message keeps the pending counter within 0..=4.
pub proof fn lemma_pending_stays_in_range<Client, Sender, Frame>(
    pre: DashboardView<Client, Sender, Frame>,
    msg: Message<Client, Sender, Frame>,
)
    requires
        pending_in_range(pre),
    ensures
        pending_in_range(next_view(pre, msg)),
{
}

/// The pending counter keeps agreeing with the queue, except when a save is
/// started: the queue is then emptied while the counter keeps its value until
/// the save's outcome is reported.
pub proof fn lemma_pending_tracks_queue<Client, Sender, Frame>(
    pre: DashboardView<Client, Sender, Frame>,
    msg: Message<Client, Sender, Frame>,
)
    requires
        pending_matches_queue(pre),
        !(msg is SaveAllToDisk && pre.pending_records >= 4),
    ensures
        pending_matches_queue(next_view(pre, msg)),
{
}

/// A report of a successful save leaves the counter agreeing with the queue.
pub proof fn lemma_save_report_resyncs<Client, Sender, Frame>(
    pre: DashboardView<Client, Sender, Frame>,
    outcome: Result<usize, String>,
)
    requires
        outcome is Ok,
    ensures
        pending_matches_queue(next_view(pre, Message::SaveAllFinished(outcome))),
{
}

/// A record is handed out for saving only when all four items were pending,
/// and it is exactly the queued record, under the id one less than the saved
/// count (0 while nothing is saved).
pub proof fn lemma_save_only_when_complete<Client, Sender, Frame>(
    pre: DashboardView<Client, Sender, Frame>,
    msg: Message<Client, Sender, Frame>,
)
    ensures
        effect_of(pre, msg) is SaveRecords ==> {
            &&& msg is SaveAllToDisk
            &&& pre.pending_records >= 4
            &&& effect_of(pre, msg) == EffectView::SaveRecords {
                records: pre.records,
                start_id: next_record_id(pre.saved_records_count),
            }
            &&& next_view(pre, msg).records.count() == 0
        },
        msg is SaveAllToDisk && pre.pending_records < 4 ==> {
            &&& effect_of(pre, msg) is Nothing
            &&& next_view(pre, msg).records == pre.records
        },
{
}

/// Commands are published only through a connected client, and sidecar
/// commands are sent only over an open channel.
pub proof fn lemma_outside_work_needs_handles<Client, Sender, Frame>(
    pre: DashboardView<Client, Sender, Frame>,
    msg: Message<Client, Sender, Frame>,
)
    ensures
        effect_of(pre, msg) is Publish ==> pre.mqtt_client is Some,
        effect_of(pre, msg) is SendCameraCommand ==> pre.camera_command_sender is Some,
{
}

/// Toggling the connection twice restores the wish to connect, and leaves
/// the dashboard without a client when the wish was not to connect.
pub proof fn lemma_toggle_twice<Client, Sender, Frame>(pre: DashboardView<Client, Sender, Frame>)
    ensures
        ({
            let post = next_view(
                next_view(pre, Message::ToggleConnection),
                Message::ToggleConnection,
            );
            &&& post.should_connect == pre.should_connect
            &&& !pre.should_connect ==> post.mqtt_client is None && post.mqtt_status_message
                == "Disconnected"@
            &&& pre.should_connect ==> post.mqtt_status_message == "Connecting..."@
        }),
{
}

/// Queueing an item, and a successful save report, set the pending counter
/// to the number of queued items, whatever it was before.
pub proof fn lemma_queueing_resyncs<Client, Sender, Frame>(
    pre: DashboardView<Client, Sender, Frame>,
    msg: Message<Client, Sender, Frame>,
)
    requires
        msg is QueueImage1 || msg is QueueImage2 || msg is QueueLabel || (msg is QueueVibration
            && pre.vibration_data.len() > 0) || (msg matches Message::SaveAllFinished(r) && r is Ok),
    ensures
        pending_matches_queue(next_view(pre, msg)),
        pending_in_range(next_view(pre, msg)),
{
}

/// The saved-record counter only grows, except when the file counts are
/// reloaded; a successful save report adds exactly the reported count.
pub proof fn lemma_saved_count_grows<Client, Sender, Frame>(
    pre: DashboardView<Client, Sender, Frame>,
    msg: Message<Client, Sender, Frame>,
)
    requires
        admissible(pre, msg),
        !(msg is InitFileCounts),
    ensures
        next_view(pre, msg).saved_records_count >= pre.saved_records_count,
        msg matches Message::SaveAllFinished(Ok(n)) ==> next_view(pre, msg).saved_records_count
            == pre.saved_records_count + n,
{
}

/// A decoded frame of camera 0 or 1 becomes the latest one, the frame it
/// replaces becomes the previous one, and the other camera is untouched.
pub proof fn lemma_frame_history<Client, Sender, Frame>(
    pre: DashboardView<Client, Sender, Frame>,
    cam_id: usize,
    frame: Frame,
)
    requires
        cam_id < 2,
        pre.latest_frames.len() == 2,
        pre.previous_frames.len() == 2,
    ensures
        ({
            let post = next_view(pre, Message::FrameDecoded(cam_id, Some(frame)));
            &&& post.latest_frames[cam_id as int] == Some(frame)
            &&& post.previous_frames[cam_id as int] == pre.latest_frames[cam_id as int]
            &&& post.latest_frames[1 - cam_id] == pre.latest_frames[1 - cam_id]
            &&& post.previous_frames[1 - cam_id] == pre.previous_frames[1 - cam_id]
        }),
{
}

/// Queueing the vibration trace puts the current trace into the record and
/// keeps the record's two images and label as they were; the counter and the
/// report give the new number of queued items. An empty trace queues nothing.
pub proof fn lemma_queue_vibration_keeps_other_items<Client, Sender, Frame>(
    pre: DashboardView<Client, Sender, Frame>,
)
    ensures
        ({
            let post = next_view(pre, Message::QueueVibration);
            if pre.vibration_data.len() > 0 {
                &&& post.records.vib_data == Some(pre.vibration_data)
                &&& post.records.cam0_bytes == pre.records.cam0_bytes
                &&& post.records.cam1_bytes == pre.records.cam1_bytes
                &&& post.records.label == pre.records.label
                &&& post.pending_records == post.records.count()
                &&& post.sys_message == "Queued Vibration Data. Pending items: "@ + decimal(
                    post.records.count(),
                )
            } else {
                post == pre
            }
        }),
{
}

/// Queueing camera 0's image puts camera 0's latest bytes into the record
/// (none if none arrived) and keeps the trace, the other image and the label.
pub proof fn lemma_queue_image1_keeps_other_items<Client, Sender, Frame>(
    pre: DashboardView<Client, Sender, Frame>,
)
    ensures
        ({
            let post = next_view(pre, Message::QueueImage1);
            &&& post.records.cam0_bytes == pre.raw_image_bytes[0]
            &&& post.records.vib_data == pre.records.vib_data
            &&& post.records.cam1_bytes == pre.records.cam1_bytes
            &&& post.records.label == pre.records.label
            &&& post.pending_records == post.records.count()
            &&& post.sys_message == "Queued Images. Pending items: "@ + decimal(post.records.count())
        }),
{
}

/// Queueing camera 1's image puts camera 1's latest bytes into the record
/// and keeps the trace, the other image and the label.
pub proof fn lemma_queue_image2_keeps_other_items<Client, Sender, Frame>(
    pre: DashboardView<Client, Sender, Frame>,
)
    ensures
        ({
            let post = next_view(pre, Message::QueueImage2);
            &&& post.records.cam1_bytes == pre.raw_image_bytes[1]
            &&& post.records.vib_data == pre.records.vib_data
            &&& post.records.cam0_bytes == pre.records.cam0_bytes
            &&& post.records.label == pre.records.label
            &&& post.pending_records == post.records.count()
            &&& post.sys_message == "Queued Images. Pending items: "@ + decimal(post.records.count())
        }),
{
}

/// Queueing the label puts the chosen label into the record and keeps the
/// trace and both images.
pub proof fn lemma_queue_label_keeps_other_items<Client, Sender, Frame>(
    pre: DashboardView<Client, Sender, Frame>,
)
    ensures
        ({
            let post = next_view(pre, Message::QueueLabel);
            &&& post.records.label == pre.label
            &&& post.records.vib_data == pre.records.vib_data
            &&& post.records.cam0_bytes == pre.records.cam0_bytes
            &&& post.records.cam1_bytes == pre.records.cam1_bytes
            &&& post.pending_records == post.records.count()
            &&& post.sys_message == "Queued Label. Pending items: "@ + decimal(post.records.count())
        }),
{
}

/// A save request with all four items pending hands out the queued record
/// under id `saved_records_count - 1`, or 0 when nothing was saved yet, and
/// leaves the queue empty.
pub proof fn lemma_save_id_is_previous_count<Client, Sender, Frame>(
    pre: DashboardView<Client, Sender, Frame>,
)
    requires
        pre.pending_records >= 4,
    ensures
        pre.saved_records_count > 0 ==> effect_of(pre, Message::SaveAllToDisk) == (
        EffectView::SaveRecords {
            records: pre.records,
            start_id: (pre.saved_records_count - 1) as usize,
        }),
        pre.saved_records_count == 0 ==> effect_of(pre, Message::SaveAllToDisk) == (
        EffectView::SaveRecords { records: pre.records, start_id: 0 }),
        next_view(pre, Message::SaveAllToDisk).records.count() == 0,
        next_view(pre, Message::SaveAllToDisk).pending_records == pre.pending_records,
{
}

/// A frame received for camera 0 or 1 is kept as that camera's raw bytes,
/// the other camera's bytes stay, and exactly those bytes are sent for
/// decoding for that camera. Frames for other ids are ignored.
pub proof fn lemma_frame_received_is_decoded<Client, Sender, Frame>(
    pre: DashboardView<Client, Sender, Frame>,
    cam_id: usize,
    bytes: Vec<u8>,
)
    requires
        pre.raw_image_bytes.len() == 2,
    ensures
        ({
            let msg = Message::<Client, Sender, Frame>::FrameReceived(cam_id, bytes);
            let post = next_view(pre, msg);
            if cam_id < 2 {
                &&& effect_of(pre, msg) == EffectView::DecodeFrame { cam_id, bytes: bytes@ }
                &&& post.raw_image_bytes[cam_id as int] == Some(bytes@)
                &&& post.raw_image_bytes[1 - cam_id] == pre.raw_image_bytes[1 - cam_id]
                &&& post.raw_image_bytes.len() == 2
                &&& post.records == pre.records
            } else {
                &&& effect_of(pre, msg) == EffectView::Nothing
                &&& post == pre
            }
        }),
{
}

/// Both cameras' frames are decoded: camera 0 and camera 1 alike.
pub proof fn lemma_both_cameras_decoded<Client, Sender, Frame>(
    pre: DashboardView<Client, Sender, Frame>,
    bytes: Vec<u8>,
)
    ensures
        effect_of(pre, Message::<Client, Sender, Frame>::FrameReceived(0, bytes)) == (
        EffectView::DecodeFrame { cam_id: 0, bytes: bytes@ }),
        effect_of(pre, Message::<Client, Sender, Frame>::FrameReceived(1, bytes)) == (
        EffectView::DecodeFrame { cam_id: 1, bytes: bytes@ }),
{
}

/// A new vibration trace replaces the held one, whatever that was, and a new
/// robot status replaces the held status; nothing else changes.
pub proof fn lemma_latest_data_replaces<Client, Sender, Frame>(
    pre: DashboardView<Client, Sender, Frame>,
    trace: VibrationPayload,
    status: InboundPayload,
)
    ensures
        next_view(pre, Message::VibrationDataReceived(trace)) == (DashboardView {
            vibration_data: trace@,
            ..pre
        }),
        next_view(pre, Message::TelemetryReceived(status)) == (DashboardView {
            telemetry: status@,
            ..pre
        }),
        next_view(pre, Message::VibrationDataReceived(trace)).vibration_data.len()
            == trace.vibration@.len(),
{
}

/// Any sidecar line other than a frame line reports its message as a status,
/// whatever its event text; a frame line reports the decoded data of camera
/// `camera_id` (camera 0 when none is given), and never its message.
pub proof fn lemma_sidecar_lines(
    event: Seq<char>,
    camera_id: Option<usize>,
    data: Option<Seq<char>>,
    message: Option<Seq<char>>,
)
    ensures
        event != "frame"@ && message is Some ==> sidecar_outcome(event, camera_id, data, message)
            == Some(SidecarEventView::Status(message->0)),
        event != "frame"@ && message is None ==> sidecar_outcome(event, camera_id, data, message)
            is None,
        event == "frame"@ && data is None ==> sidecar_outcome(event, camera_id, data, message)
            is None,
        event == "frame"@ && data is Some && base64_standard_decoding(data->0) is None
            ==> sidecar_outcome(event, camera_id, data, message) is None,
        event == "frame"@ && data is Some && base64_standard_decoding(data->0) is Some
            ==> sidecar_outcome(event, camera_id, data, message) == Some(
            SidecarEventView::Frame {
                camera_id: if camera_id is Some {
                    camera_id->0
                } else {
                    0
                },
                bytes: base64_standard_decoding(data->0)->0,
            },
        ),
{
}

} // verus!
