//! The dashboard's data: payloads from the robot and the vision sidecar, the
//! record being assembled for saving, the label choice, and the messages that
//! drive the dashboard.

use vstd::prelude::*;

verus! {

/// Status text published by the robot on its status topic.
#[derive(Clone, Debug)]
pub struct InboundPayload {
    pub status_message: String,
}

impl View for InboundPayload {
    type V = Seq<char>;

    open spec fn view(&self) -> Seq<char> {
        self.status_message@
    }
}

impl Default for InboundPayload {
    fn default() -> (p: Self)
        ensures
            p@ == Seq::<char>::empty(),
    {
        InboundPayload { status_message: String::new() }
    }
}

/// A trace of vibration samples published by the sensor. Each sample is held
/// as the bit pattern of its IEEE-754 double, so that the trace is carried
/// and stored unchanged.
#[derive(Clone, Debug)]
pub struct VibrationPayload {
    pub vibration: Vec<u64>,
}

impl View for VibrationPayload {
    type V = Seq<u64>;

    open spec fn view(&self) -> Seq<u64> {
        self.vibration@
    }
}

impl Default for VibrationPayload {
    fn default() -> (p: Self)
        ensures
            p@ == Seq::<u64>::empty(),
    {
        VibrationPayload { vibration: Vec::new() }
    }
}

impl VibrationPayload {
    /// A copy of the trace.
    pub fn duplicate(&self) -> (p: Self)
        ensures
            p@ == self@,
    {
        let mut v: Vec<u64> = Vec::new();
        let mut i: usize = 0;
        while i < self.vibration.len()
            invariant
                i <= self.vibration@.len(),
                v@ == self.vibration@.subrange(0, i as int),
            decreases self.vibration@.len() - i,
        {
            v.push(self.vibration[i]);
            i = i + 1;
            assert(v@ =~= self.vibration@.subrange(0, i as int));
        }
        assert(v@ =~= self.vibration@);
        VibrationPayload { vibration: v }
    }
}

/// One line of output of the vision sidecar.
#[derive(Clone, Debug)]
pub struct SidecarPayload {
    pub event: String,
    pub camera_id: Option<usize>,
    pub data: Option<String>,
    pub message: Option<String>,
}

/// The record being assembled: one vibration trace, one image per camera and
/// a label. It is saved once all four are present.
#[derive(Clone, Debug)]
pub struct QueuedRecord {
    pub vib_data: Option<VibrationPayload>,
    pub cam0_bytes: Option<Vec<u8>>,
    pub cam1_bytes: Option<Vec<u8>>,
    pub label: Option<i32>,
}

/// The contents of a queued record.
pub struct QueuedRecordView {
    pub vib_data: Option<Seq<u64>>,
    pub cam0_bytes: Option<Seq<u8>>,
    pub cam1_bytes: Option<Seq<u8>>,
    pub label: Option<i32>,
}

/// The view of an optional byte buffer.
pub open spec fn bytes_view(b: Option<Vec<u8>>) -> Option<Seq<u8>> {
    match b {
        Some(v) => Some(v@),
        None => None,
    }
}

/// The view of an optional string.
pub open spec fn text_view(s: Option<String>) -> Option<Seq<char>> {
    match s {
        Some(t) => Some(t@),
        None => None,
    }
}

impl View for QueuedRecord {
    type V = QueuedRecordView;

    open spec fn view(&self) -> QueuedRecordView {
        QueuedRecordView {
            vib_data: match self.vib_data {
                Some(p) => Some(p@),
                None => None,
            },
            cam0_bytes: bytes_view(self.cam0_bytes),
            cam1_bytes: bytes_view(self.cam1_bytes),
            label: self.label,
        }
    }
}

/// 1 for a present item, 0 for a missing one.
pub open spec fn presence<T>(o: Option<T>) -> nat {
    if o is Some {
        1
    } else {
        0
    }
}

impl QueuedRecordView {
    /// How many of the four items are present.
    pub open spec fn count(self) -> nat {
        presence(self.vib_data) + presence(self.cam0_bytes) + presence(self.cam1_bytes)
            + presence(self.label)
    }

    /// The record with no item.
    pub open spec fn empty() -> QueuedRecordView {
        QueuedRecordView { vib_data: None, cam0_bytes: None, cam1_bytes: None, label: None }
    }
}

impl Default for QueuedRecord {
    fn default() -> (r: Self)
        ensures
            r@ == QueuedRecordView::empty(),
    {
        QueuedRecord { vib_data: None, cam0_bytes: None, cam1_bytes: None, label: None }
    }
}

impl QueuedRecord {
    /// How many of the four items (vibration trace, two images, label) are queued.
    pub fn populated_count(&self) -> (n: usize)
        ensures
            n == self@.count(),
            n <= 4,
    {
        (if self.vib_data.is_some() { 1usize } else { 0usize }) + (if self.cam0_bytes.is_some() {
            1usize
        } else {
            0usize
        }) + (if self.cam1_bytes.is_some() { 1usize } else { 0usize }) + (if self.label.is_some() {
            1usize
        } else {
            0usize
        })
    }

    /// A record with nothing queued, as after a save.
    pub fn refresh_on_save(&self) -> (r: Self)
        ensures
            r@ == QueuedRecordView::empty(),
            r@.count() == 0,
    {
        QueuedRecord { vib_data: None, cam0_bytes: None, cam1_bytes: None, label: None }
    }
}

/// The label that the operator picks for the board under inspection.
#[derive(Debug, Clone, Copy, PartialEq, Eq, Structural)]
pub enum LabelSelection {
    Unset,
    Pass,
    Fail,
}

impl LabelSelection {
    /// The three choices, in the order the picker shows them.
    pub fn all() -> (choices: [LabelSelection; 3])
        ensures
            choices@ == seq![LabelSelection::Unset, LabelSelection::Pass, LabelSelection::Fail],
    {
        let choices = [LabelSelection::Unset, LabelSelection::Pass, LabelSelection::Fail];
        assert(choices@ =~= seq![LabelSelection::Unset, LabelSelection::Pass, LabelSelection::Fail]);
        choices
    }

    /// The name shown for the choice.
    pub fn text(&self) -> (s: &'static str)
        ensures
            s@ == self.text_spec(),
    {
        match self {
            LabelSelection::Unset => "None",
            LabelSelection::Pass => "Pass",
            LabelSelection::Fail => "Fail",
        }
    }

    /// The name shown for the choice.
    pub open spec fn text_spec(self) -> Seq<char> {
        match self {
            LabelSelection::Unset => "None"@,
            LabelSelection::Pass => "Pass"@,
            LabelSelection::Fail => "Fail"@,
        }
    }

    /// The label stored with a record: 1 for a pass, 0 for a fail, none otherwise.
    pub open spec fn value_spec(self) -> Option<i32> {
        match self {
            LabelSelection::Unset => None,
            LabelSelection::Pass => Some(1i32),
            LabelSelection::Fail => Some(0i32),
        }
    }

    /// The label stored with a record: 1 for a pass, 0 for a fail, none otherwise.
    pub fn value(&self) -> (v: Option<i32>)
        ensures
            v == self.value_spec(),
    {
        match self {
            LabelSelection::Unset => None,
            LabelSelection::Pass => Some(1),
            LabelSelection::Fail => Some(0),
        }
    }
}

} // verus!
