//! The vision sidecar's protocol: which output lines become frames or status
//! messages, how commands are framed, and how frame images are decoded.

use vstd::prelude::*;
use base64::Engine;
use crate::text::same_text;
use crate::dashboard::Message;
use crate::types::{bytes_view, SidecarPayload};

verus! {

/// The bytes that standard base64 (RFC 4648 alphabet, with padding) decodes
/// `encoded` to, or none where it is not valid base64.
pub uninterp spec fn base64_standard_decoding(encoded: Seq<char>) -> Option<Seq<u8>>;

/// Decodes with `base64::engine::general_purpose::STANDARD` (`Engine::decode`).
/// Claimed: the outcome is a function of the text alone, named
/// `base64_standard_decoding`; an `Err` of the crate becomes `None`.
#[verifier::external_body]
fn decode_base64(encoded: &str) -> (decoded: Option<Vec<u8>>)
    ensures
        bytes_view(decoded) == base64_standard_decoding(encoded@),
{
    base64::engine::general_purpose::STANDARD.decode(encoded).ok()
}

/// What a sidecar line reports.
pub enum SidecarEvent {
    /// A camera frame, still in its image encoding.
    Frame { camera_id: usize, bytes: Vec<u8> },
    /// A status message.
    Status(String),
}

/// The contents of a sidecar event.
pub enum SidecarEventView {
    Frame { camera_id: usize, bytes: Seq<u8> },
    Status(Seq<char>),
}

impl View for SidecarEvent {
    type V = SidecarEventView;

    open spec fn view(&self) -> SidecarEventView {
        match self {
            SidecarEvent::Frame { camera_id, bytes } => SidecarEventView::Frame {
                camera_id: *camera_id,
                bytes: bytes@,
            },
            SidecarEvent::Status(m) => SidecarEventView::Status(m@),
        }
    }
}

impl SidecarEvent {
    /// The dashboard message that reports the event: a received frame or a
    /// sidecar status message.
    pub fn into_message<Client, Sender, Frame>(self) -> (m: Message<Client, Sender, Frame>)
        ensures
            match self@ {
                SidecarEventView::Frame { camera_id, bytes } => m matches Message::FrameReceived(
                    c,
                    b,
                ) && c == camera_id && b@ == bytes,
                SidecarEventView::Status(text) => m matches Message::SidecarMessage(t) && t@
                    == text,
            },
    {
        match self {
            SidecarEvent::Frame { camera_id, bytes } => Message::FrameReceived(camera_id, bytes),
            SidecarEvent::Status(text) => Message::SidecarMessage(text),
        }
    }
}

/// The optional view of an optional event.
pub open spec fn event_view(e: Option<SidecarEvent>) -> Option<SidecarEventView> {
    match e {
        Some(ev) => Some(ev@),
        None => None,
    }
}

/// A frame event from the camera id of a frame line and the decoding of its
/// data: a frame of camera `camera_id` (camera 0 when none is given) when the
/// data decoded, nothing otherwise.
pub open spec fn frame_outcome(camera_id: Option<usize>, decoded: Option<Seq<u8>>) -> Option<
    SidecarEventView,
> {
    match decoded {
        Some(bytes) => Some(
            SidecarEventView::Frame {
                camera_id: match camera_id {
                    Some(c) => c,
                    None => 0,
                },
                bytes,
            },
        ),
        None => None,
    }
}

/// What a sidecar line with these fields reports: a frame line (event
/// `"frame"`) reports its decoded data, any other line its message, if any.
pub open spec fn sidecar_outcome(
    event: Seq<char>,
    camera_id: Option<usize>,
    data: Option<Seq<char>>,
    message: Option<Seq<char>>,
) -> Option<SidecarEventView> {
    if event == "frame"@ {
        match data {
            Some(d) => frame_outcome(camera_id, base64_standard_decoding(d)),
            None => None,
        }
    } else {
        match message {
            Some(m) => Some(SidecarEventView::Status(m)),
            None => None,
        }
    }
}

/// The frame event for a frame line, given the decoding of its data.
pub fn frame_event(camera_id: Option<usize>, decoded: Option<Vec<u8>>) -> (e: Option<SidecarEvent>)
    ensures
        event_view(e) == frame_outcome(camera_id, bytes_view(decoded)),
{
    match decoded {
        Some(bytes) => Some(
            SidecarEvent::Frame {
                camera_id: match camera_id {
                    Some(c) => c,
                    None => 0,
                },
                bytes,
            },
        ),
        None => None,
    }
}

/// What one parsed sidecar line reports.
pub fn sidecar_event(payload: SidecarPayload) -> (e: Option<SidecarEvent>)
    ensures
        event_view(e) == sidecar_outcome(
            payload.event@,
            payload.camera_id,
            crate::types::text_view(payload.data),
            crate::types::text_view(payload.message),
        ),
{
    if same_text(payload.event.as_str(), "frame") {
        match payload.data {
            Some(b64) => frame_event(payload.camera_id, decode_base64(b64.as_str())),
            None => None,
        }
    } else {
        match payload.message {
            Some(msg) => Some(SidecarEvent::Status(msg)),
            None => None,
        }
    }
}

/// A command as written to the sidecar's input: the command and a newline.
pub fn command_line(command: &str) -> (line: String)
    ensures
        line@ == command@ + "\n"@,
{
    let mut line = String::from_str(command);
    line.append("\n");
    line
}

/// The status reported when the sidecar process cannot be started.
pub fn spawn_failure_text(error: &str) -> (text: String)
    ensures
        text@ == "Process spawn failed: "@ + error@,
{
    let mut text = String::from_str("Process spawn failed: ");
    text.append(error);
    text
}

/// The width, height and RGBA8 pixel bytes (row by row) of the image that
/// `encoded` holds, in a format guessed from its contents, or none where it
/// cannot be decoded.
pub uninterp spec fn rgba_decoding(encoded: Seq<u8>) -> Option<(u32, u32, Seq<u8>)>;

/// Decodes through five calls of the `image` crate, as one conversion from
/// bytes to plain values: `image::guess_format` picks the format from the
/// leading bytes, `image::load_from_memory_with_format` decodes with the
/// built-in decoder of that format, `DynamicImage::to_rgba8` converts, and
/// `ImageBuffer::dimensions` and `ImageBuffer::into_raw` take the size and the
/// pixels apart. Neither the guess nor the decoding of a built-in format
/// consults the crate's process-wide format hooks. Claimed: the outcome is a
/// function of the bytes alone, named `rgba_decoding`; an error of either call
/// becomes `None`. Nothing is claimed of the pixel buffer's length.
#[verifier::external_body]
fn decode_rgba(encoded: &[u8]) -> (image: Option<(u32, u32, Vec<u8>)>)
    ensures
        match image {
            Some((w, h, px)) => rgba_decoding(encoded@) == Some((w, h, px@)),
            None => rgba_decoding(encoded@) is None,
        },
{
    let format = image::guess_format(encoded).ok()?;
    let rgba = image::load_from_memory_with_format(encoded, format).ok()?.to_rgba8();
    let (width, height) = rgba.dimensions();
    Some((width, height, rgba.into_raw()))
}

/// A decoded camera frame.
pub struct RgbaFrame {
    pub width: u32,
    pub height: u32,
    /// RGBA8 pixels, row by row.
    pub pixels: Vec<u8>,
}

/// Decodes the image bytes received from a camera.
pub fn decode_frame(bytes: &Vec<u8>) -> (frame: Option<RgbaFrame>)
    ensures
        match frame {
            Some(f) => rgba_decoding(bytes@) == Some((f.width, f.height, f.pixels@)),
            None => rgba_decoding(bytes@) is None,
        },
{
    match decode_rgba(bytes.as_slice()) {
        Some((width, height, pixels)) => Some(RgbaFrame { width, height, pixels }),
        None => None,
    }
}

} // verus!
