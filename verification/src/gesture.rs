use vstd::prelude::*;

use crate::codec::{base64_encode, base64_standard};

verus! {

/// Width of the frames the gesture model reads.
pub const MODEL_WIDTH: usize = 224;

/// Height of the frames the gesture model reads.
pub const MODEL_HEIGHT: usize = 224;

/// How many consecutive frames must show the same gesture before it acts.
pub const HOLD_FRAMES: u32 = 8;

/// Width of the preview frames shown to the user.
pub const PREVIEW_WIDTH: i32 = 240;

/// Height of the preview frames shown to the user.
pub const PREVIEW_HEIGHT: i32 = 180;

/// JPEG quality of the preview frames.
pub const PREVIEW_JPEG_QUALITY: i32 = 60;

/// How many gesture classes the model tells apart.
pub const GESTURE_CLASS_COUNT: usize = 23;

/// The video capture interfaces a webcam can be opened through.
#[derive(Debug, Clone, Copy, PartialEq, Eq, Structural)]
pub enum CameraBackend {
    /// DirectShow, the most dependable for most webcams on Windows.
    DirectShow,
    /// Microsoft Media Foundation.
    MediaFoundation,
    /// Whatever the capture library picks.
    Any,
}

/// The `n`th capture interface to try.
pub open spec fn backend_at(n: int) -> CameraBackend {
    if n == 0 {
        CameraBackend::DirectShow
    } else if n == 1 {
        CameraBackend::MediaFoundation
    } else {
        CameraBackend::Any
    }
}

/// The order in which cameras are tried: for each capture interface in turn
/// (DirectShow, Media Foundation, any), the camera indices 0, 1 and 2.
pub open spec fn webcam_attempts() -> Seq<(CameraBackend, i32)> {
    Seq::new(9, |k: int| (backend_at(k / 3), (k % 3) as i32))
}

/// The cameras to try, in order, until one opens.
pub fn webcam_candidates() -> (r: Vec<(CameraBackend, i32)>)
    ensures
        r@ == webcam_attempts(),
{
    let backends: [CameraBackend; 3] = [
        CameraBackend::DirectShow,
        CameraBackend::MediaFoundation,
        CameraBackend::Any,
    ];
    let mut v: Vec<(CameraBackend, i32)> = Vec::new();
    let mut b: usize = 0;
    while b < 3
        invariant
            b <= 3,
            backends@ == seq![
                CameraBackend::DirectShow,
                CameraBackend::MediaFoundation,
                CameraBackend::Any,
            ],
            v@.len() == b * 3,
            forall|k: int| 0 <= k < v@.len() ==> #[trigger] v@[k] == webcam_attempts()[k],
        decreases 3 - b,
    {
        let mut index: i32 = 0;
        while index < 3
            invariant
                b < 3,
                0 <= index <= 3,
                backends@ == seq![
                    CameraBackend::DirectShow,
                    CameraBackend::MediaFoundation,
                    CameraBackend::Any,
                ],
                v@.len() == b * 3 + index,
                forall|k: int| 0 <= k < v@.len() ==> #[trigger] v@[k] == webcam_attempts()[k],
            decreases 3 - index,
        {
            let ghost k = (b * 3 + index) as int;
            assert(k / 3 == b as int && k % 3 == index as int);
            assert(backends@[b as int] == backend_at(b as int));
            v.push((backends[b], index));
            index = index + 1;
        }
        b = b + 1;
    }
    assert(v@ =~= webcam_attempts());
    v
}

/// The gesture classes in the order of the model's outputs.
pub open spec fn gesture_classes() -> Seq<Seq<char>> {
    seq![
        "call"@, "dislike"@, "fist"@, "four"@, "grabbing"@, "grip"@, "like"@,
        "middle_finger"@, "mute"@, "no_gesture"@, "ok"@, "one"@, "palm"@, "peace"@,
        "peace_inverted"@, "rock"@, "stop"@, "stop_inverted"@, "three"@, "three2"@,
        "three3"@, "two_up"@, "two_up_inverted"@,
    ]
}

/// The name of model output `idx`: its class, or `unknown` past the last class.
pub open spec fn gesture_label_of(idx: int) -> Seq<char> {
    if 0 <= idx < gesture_classes().len() {
        gesture_classes()[idx]
    } else {
        "unknown"@
    }
}

/// The name of the gesture that model output `idx` stands for.
pub fn gesture_label(idx: usize) -> (r: String)
    ensures
        r@ == gesture_label_of(idx as int),
{
    let classes: [&str; 23] = [
        "call", "dislike", "fist", "four", "grabbing", "grip", "like", "middle_finger", "mute",
        "no_gesture", "ok", "one", "palm", "peace", "peace_inverted", "rock", "stop",
        "stop_inverted", "three", "three2", "three3", "two_up", "two_up_inverted",
    ];
    assert(classes@.map_values(|c: &str| c@) =~= gesture_classes());
    if idx < 23 {
        assert(classes@[idx as int]@ == gesture_classes()[idx as int]);
        String::from_str(classes[idx])
    } else {
        String::from_str("unknown")
    }
}

/// A key the assistant can press.
#[derive(Debug, Clone, Copy, PartialEq, Eq, Structural)]
pub enum InputKey {
    VolumeUp,
    VolumeDown,
    VolumeMute,
    RightArrow,
    LeftArrow,
    MediaNextTrack,
    Meta,
    Tab,
    Unicode(char),
}

/// How a key or button is worked.
#[derive(Debug, Clone, Copy, PartialEq, Eq, Structural)]
pub enum Press {
    Press,
    Release,
    Click,
}

/// A mouse button the assistant can press.
#[derive(Debug, Clone, Copy, PartialEq, Eq, Structural)]
pub enum MouseButton {
    Left,
}

/// One keyboard or mouse event that a gesture sends.
#[derive(Debug, Clone, Copy, PartialEq, Eq, Structural)]
pub enum InputStep {
    Key(InputKey, Press),
    Button(MouseButton, Press),
}

/// Holding the Windows key while `k` is clicked.
pub open spec fn with_meta(k: InputKey) -> Seq<InputStep> {
    seq![
        InputStep::Key(InputKey::Meta, Press::Press),
        InputStep::Key(k, Press::Click),
        InputStep::Key(InputKey::Meta, Press::Release),
    ]
}

/// What each gesture does to the desktop: volume up, down and mute, next and
/// previous slide, next track, show the desktop, switch task, click; any other
/// gesture does nothing.
pub open spec fn actions_of(g: Seq<char>) -> Seq<InputStep> {
    if g == "like"@ {
        seq![InputStep::Key(InputKey::VolumeUp, Press::Click)]
    } else if g == "dislike"@ {
        seq![InputStep::Key(InputKey::VolumeDown, Press::Click)]
    } else if g == "mute"@ {
        seq![InputStep::Key(InputKey::VolumeMute, Press::Click)]
    } else if g == "peace"@ {
        seq![InputStep::Key(InputKey::RightArrow, Press::Click)]
    } else if g == "peace_inverted"@ {
        seq![InputStep::Key(InputKey::LeftArrow, Press::Click)]
    } else if g == "rock"@ {
        seq![InputStep::Key(InputKey::MediaNextTrack, Press::Click)]
    } else if g == "fist"@ {
        with_meta(InputKey::Unicode('d'))
    } else if g == "palm"@ || g == "stop"@ {
        with_meta(InputKey::Tab)
    } else if g == "ok"@ {
        seq![InputStep::Button(MouseButton::Left, Press::Click)]
    } else {
        seq![]
    }
}

fn str_is(a: &str, b: &str) -> (r: bool)
    ensures
        r == (a@ == b@),
{
    String::from_str(a) == String::from_str(b)
}

fn meta_chord(k: InputKey) -> (r: Vec<InputStep>)
    ensures
        r@ == with_meta(k),
{
    let mut v: Vec<InputStep> = Vec::new();
    v.push(InputStep::Key(InputKey::Meta, Press::Press));
    v.push(InputStep::Key(k, Press::Click));
    v.push(InputStep::Key(InputKey::Meta, Press::Release));
    assert(v@ =~= with_meta(k));
    v
}

fn single(step: InputStep) -> (r: Vec<InputStep>)
    ensures
        r@ == seq![step],
{
    let mut v: Vec<InputStep> = Vec::new();
    v.push(step);
    assert(v@ =~= seq![step]);
    v
}

/// The keyboard and mouse events that the gesture named `gesture` sends.
pub fn os_actions(gesture: &str) -> (r: Vec<InputStep>)
    ensures
        r@ == actions_of(gesture@),
{
    if str_is(gesture, "like") {
        single(InputStep::Key(InputKey::VolumeUp, Press::Click))
    } else if str_is(gesture, "dislike") {
        single(InputStep::Key(InputKey::VolumeDown, Press::Click))
    } else if str_is(gesture, "mute") {
        single(InputStep::Key(InputKey::VolumeMute, Press::Click))
    } else if str_is(gesture, "peace") {
        single(InputStep::Key(InputKey::RightArrow, Press::Click))
    } else if str_is(gesture, "peace_inverted") {
        single(InputStep::Key(InputKey::LeftArrow, Press::Click))
    } else if str_is(gesture, "rock") {
        single(InputStep::Key(InputKey::MediaNextTrack, Press::Click))
    } else if str_is(gesture, "fist") {
        meta_chord(InputKey::Unicode('d'))
    } else if str_is(gesture, "palm") || str_is(gesture, "stop") {
        meta_chord(InputKey::Tab)
    } else if str_is(gesture, "ok") {
        single(InputStep::Button(MouseButton::Left, Press::Click))
    } else {
        Vec::new()
    }
}

/// What the gesture tracker remembers between frames.
pub struct TrackerState {
    /// The gesture seen in the last frames (empty when none was).
    pub last: Seq<char>,
    /// For how many consecutive frames it has been seen.
    pub hold: nat,
    /// How many camera frames have been taken.
    pub frames: nat,
}

impl TrackerState {
    /// A gesture is held exactly when it has been seen at least once.
    pub open spec fn wf(self) -> bool {
        (self.hold == 0) == (self.last.len() == 0)
    }
}

/// The tracker's memory after a frame in which the model saw `detection`: the
/// class whose score passed the threshold, or `None` when no score did. A
/// frame with no gesture forgets the held gesture; the same gesture again holds
/// it one frame longer; another gesture starts a new hold.
pub open spec fn step(s: TrackerState, detection: Option<usize>) -> TrackerState {
    match detection {
        None => TrackerState { last: seq![], hold: 0, frames: s.frames },
        Some(i) => {
            let g = gesture_label_of(i as int);
            TrackerState {
                last: g,
                hold: if g == s.last {
                    s.hold + 1
                } else {
                    1
                },
                frames: s.frames,
            }
        },
    }
}

/// Whether the frame with `detection` makes a gesture act: it does on the
/// frame in which it has been held for exactly `HOLD_FRAMES` frames.
pub open spec fn fires(s: TrackerState, detection: Option<usize>) -> bool {
    detection is Some && step(s, detection).hold == HOLD_FRAMES as nat
}

/// The tracker's memory after `k` frames that all show model output `i`.
pub open spec fn repeat_detection(s: TrackerState, i: usize, k: nat) -> TrackerState
    decreases k,
{
    if k == 0 {
        s
    } else {
        step(repeat_detection(s, i, (k - 1) as nat), Some(i))
    }
}

proof fn lemma_label_nonempty(i: int)
    ensures
        gesture_label_of(i).len() > 0,
{
    reveal_strlit("call");
    reveal_strlit("dislike");
    reveal_strlit("fist");
    reveal_strlit("four");
    reveal_strlit("grabbing");
    reveal_strlit("grip");
    reveal_strlit("like");
    reveal_strlit("middle_finger");
    reveal_strlit("mute");
    reveal_strlit("no_gesture");
    reveal_strlit("ok");
    reveal_strlit("one");
    reveal_strlit("palm");
    reveal_strlit("peace");
    reveal_strlit("peace_inverted");
    reveal_strlit("rock");
    reveal_strlit("stop");
    reveal_strlit("stop_inverted");
    reveal_strlit("three");
    reveal_strlit("three2");
    reveal_strlit("three3");
    reveal_strlit("two_up");
    reveal_strlit("two_up_inverted");
    reveal_strlit("unknown");
    let cs = gesture_classes();
    assert(forall|j: int| 0 <= j < cs.len() ==> #[trigger] cs[j].len() > 0);
}

/// The model's outputs name, in order: call, dislike, fist, four, grabbing,
/// grip, like, middle_finger, mute, no_gesture, ok, one, palm, peace,
/// peace_inverted, rock, stop, stop_inverted, three, three2, three3, two_up,
/// two_up_inverted; any output past these is `unknown`.
pub proof fn law_gesture_class_order(i: int)
    ensures
        gesture_label_of(0) == "call"@,
        gesture_label_of(1) == "dislike"@,
        gesture_label_of(2) == "fist"@,
        gesture_label_of(3) == "four"@,
        gesture_label_of(4) == "grabbing"@,
        gesture_label_of(5) == "grip"@,
        gesture_label_of(6) == "like"@,
        gesture_label_of(7) == "middle_finger"@,
        gesture_label_of(8) == "mute"@,
        gesture_label_of(9) == "no_gesture"@,
        gesture_label_of(10) == "ok"@,
        gesture_label_of(11) == "one"@,
        gesture_label_of(12) == "palm"@,
        gesture_label_of(13) == "peace"@,
        gesture_label_of(14) == "peace_inverted"@,
        gesture_label_of(15) == "rock"@,
        gesture_label_of(16) == "stop"@,
        gesture_label_of(17) == "stop_inverted"@,
        gesture_label_of(18) == "three"@,
        gesture_label_of(19) == "three2"@,
        gesture_label_of(20) == "three3"@,
        gesture_label_of(21) == "two_up"@,
        gesture_label_of(22) == "two_up_inverted"@,
        i < 0 || i >= 23 ==> gesture_label_of(i) == "unknown"@,
{
}

/// Exactly ten gestures act: like (volume up), dislike (volume down), mute
/// (mute), peace (right arrow), peace_inverted (left arrow), rock (next track),
/// fist (Windows+D), palm and stop (Windows+Tab), ok (left click). Every other
/// name sends no event.
pub proof fn law_gesture_actions(g: Seq<char>)
    ensures
        actions_of("like"@) == seq![InputStep::Key(InputKey::VolumeUp, Press::Click)],
        actions_of("dislike"@) == seq![InputStep::Key(InputKey::VolumeDown, Press::Click)],
        actions_of("mute"@) == seq![InputStep::Key(InputKey::VolumeMute, Press::Click)],
        actions_of("peace"@) == seq![InputStep::Key(InputKey::RightArrow, Press::Click)],
        actions_of("peace_inverted"@) == seq![InputStep::Key(InputKey::LeftArrow, Press::Click)],
        actions_of("rock"@) == seq![InputStep::Key(InputKey::MediaNextTrack, Press::Click)],
        actions_of("fist"@) == seq![
            InputStep::Key(InputKey::Meta, Press::Press),
            InputStep::Key(InputKey::Unicode('d'), Press::Click),
            InputStep::Key(InputKey::Meta, Press::Release),
        ],
        actions_of("palm"@) == seq![
            InputStep::Key(InputKey::Meta, Press::Press),
            InputStep::Key(InputKey::Tab, Press::Click),
            InputStep::Key(InputKey::Meta, Press::Release),
        ],
        actions_of("stop"@) == seq![
            InputStep::Key(InputKey::Meta, Press::Press),
            InputStep::Key(InputKey::Tab, Press::Click),
            InputStep::Key(InputKey::Meta, Press::Release),
        ],
        actions_of("ok"@) == seq![InputStep::Button(MouseButton::Left, Press::Click)],
        actions_of(g).len() > 0 <==> (g == "like"@ || g == "dislike"@ || g == "mute"@ || g
            == "peace"@ || g == "peace_inverted"@ || g == "rock"@ || g == "fist"@ || g == "palm"@
            || g == "stop"@ || g == "ok"@),
{
    reveal_strlit("like");
    reveal_strlit("dislike");
    reveal_strlit("mute");
    reveal_strlit("peace");
    reveal_strlit("peace_inverted");
    reveal_strlit("rock");
    reveal_strlit("fist");
    reveal_strlit("palm");
    reveal_strlit("stop");
    reveal_strlit("ok");
    assert("dislike"@.len() != "like"@.len());
    assert("mute"@[0] != "like"@[0]);
    assert("mute"@.len() != "dislike"@.len());
    assert("peace"@.len() != "like"@.len());
    assert("peace"@.len() != "dislike"@.len());
    assert("peace"@.len() != "mute"@.len());
    assert("peace_inverted"@.len() != "like"@.len());
    assert("peace_inverted"@.len() != "dislike"@.len());
    assert("peace_inverted"@.len() != "mute"@.len());
    assert("peace_inverted"@.len() != "peace"@.len());
    assert("rock"@[0] != "like"@[0]);
    assert("rock"@.len() != "dislike"@.len());
    assert("rock"@[0] != "mute"@[0]);
    assert("rock"@.len() != "peace"@.len());
    assert("rock"@.len() != "peace_inverted"@.len());
    assert("fist"@[0] != "like"@[0]);
    assert("fist"@.len() != "dislike"@.len());
    assert("fist"@[0] != "mute"@[0]);
    assert("fist"@.len() != "peace"@.len());
    assert("fist"@.len() != "peace_inverted"@.len());
    assert("fist"@[0] != "rock"@[0]);
    assert("palm"@[0] != "like"@[0]);
    assert("palm"@.len() != "dislike"@.len());
    assert("palm"@[0] != "mute"@[0]);
    assert("palm"@.len() != "peace"@.len());
    assert("palm"@.len() != "peace_inverted"@.len());
    assert("palm"@[0] != "rock"@[0]);
    assert("palm"@[0] != "fist"@[0]);
    assert("stop"@[0] != "like"@[0]);
    assert("stop"@.len() != "dislike"@.len());
    assert("stop"@[0] != "mute"@[0]);
    assert("stop"@.len() != "peace"@.len());
    assert("stop"@.len() != "peace_inverted"@.len());
    assert("stop"@[0] != "rock"@[0]);
    assert("stop"@[0] != "fist"@[0]);
    assert("stop"@[0] != "palm"@[0]);
    assert("ok"@.len() != "like"@.len());
    assert("ok"@.len() != "dislike"@.len());
    assert("ok"@.len() != "mute"@.len());
    assert("ok"@.len() != "peace"@.len());
    assert("ok"@.len() != "peace_inverted"@.len());
    assert("ok"@.len() != "rock"@.len());
    assert("ok"@.len() != "fist"@.len());
    assert("ok"@.len() != "palm"@.len());
    assert("ok"@.len() != "stop"@.len());
}

/// Whatever the model sees, the tracker's memory stays consistent: it holds
/// a gesture exactly when its hold count is not zero.
pub proof fn law_step_keeps_consistent(s: TrackerState, detection: Option<usize>)
    requires
        s.wf(),
    ensures
        step(s, detection).wf(),
{
    if let Some(i) = detection {
        lemma_label_nonempty(i as int);
    }
}

/// Frames showing one gesture are counted: after `k` such frames, following a
/// frame that showed anything else, the gesture has been held for `k` frames.
pub proof fn law_hold_counts_consecutive_frames(s: TrackerState, i: usize, k: nat)
    requires
        k >= 1,
        s.last != gesture_label_of(i as int),
    ensures
        repeat_detection(s, i, k).last == gesture_label_of(i as int),
        repeat_detection(s, i, k).hold == k,
    decreases k,
{
    if k > 1 {
        law_hold_counts_consecutive_frames(s, i, (k - 1) as nat);
    } else {
        assert(repeat_detection(s, i, 0) == s);
    }
}

/// A gesture acts once per hold: among the frames of an uninterrupted run of
/// one gesture, exactly the eighth makes it act.
pub proof fn law_acts_on_eighth_frame_only(s: TrackerState, i: usize, j: nat)
    requires
        j >= 1,
        s.last != gesture_label_of(i as int),
    ensures
        fires(repeat_detection(s, i, (j - 1) as nat), Some(i)) <==> j == HOLD_FRAMES as nat,
{
    law_hold_counts_consecutive_frames(s, i, j);
}

/// A frame in which no gesture passes the threshold ends any hold.
pub proof fn law_no_gesture_resets(s: TrackerState)
    ensures
        step(s, None).hold == 0,
        step(s, None).last.len() == 0,
        !fires(s, None),
{
}

/// Every second frame is shown as a preview: of two consecutive frames,
/// exactly one is.
pub proof fn law_preview_every_second_frame(frames: nat)
    ensures
        ((frames + 1) % 2 == 0) != ((frames + 2) % 2 == 0),
{
}

/// What the user is told about one frame.
pub struct GestureEvent {
    /// The gesture seen; empty when none was.
    pub gesture: String,
    pub detected: bool,
}

/// What one frame leads to.
pub struct FrameOutcome {
    pub event: GestureEvent,
    /// The keyboard and mouse events to send now, in order.
    pub actions: Vec<InputStep>,
}

/// Follows the gestures the camera sees from frame to frame.
pub struct GestureTracker {
    last_gesture: String,
    hold_count: u32,
    frame_count: u64,
}

impl View for GestureTracker {
    type V = TrackerState;

    closed spec fn view(&self) -> TrackerState {
        TrackerState {
            last: self.last_gesture@,
            hold: self.hold_count as nat,
            frames: self.frame_count as nat,
        }
    }
}

impl GestureTracker {
    /// A tracker that has seen no frame.
    pub fn new() -> (t: Self)
        ensures
            t@ == (TrackerState { last: seq![], hold: 0, frames: 0 }),
    {
        let t = GestureTracker { last_gesture: String::new(), hold_count: 0, frame_count: 0 };
        assert(t@.last =~= seq![]);
        t
    }

    /// The gesture held now (empty when none is).
    pub fn last_gesture(&self) -> (r: String)
        ensures
            r@ == self@.last,
    {
        self.last_gesture.clone()
    }

    /// For how many consecutive frames the gesture has been held.
    pub fn hold_count(&self) -> (r: u32)
        ensures
            r == self@.hold,
    {
        self.hold_count
    }

    /// How many camera frames have been taken.
    pub fn frame_count(&self) -> (r: u64)
        ensures
            r == self@.frames,
    {
        self.frame_count
    }

    /// Counts a frame taken from the camera; says whether it is one to show as
    /// a preview, which every second frame is.
    pub fn next_frame(&mut self) -> (preview: bool)
        requires
            old(self)@.frames < u64::MAX,
        ensures
            final(self)@ == (TrackerState { frames: old(self)@.frames + 1, ..old(self)@ }),
            preview == (final(self)@.frames % 2 == 0),
    {
        self.frame_count = self.frame_count + 1;
        self.frame_count % 2 == 0
    }

    /// Takes what the model saw in a frame (`detection`: the class whose score
    /// passed the threshold, or `None`) and says what to tell the user and which
    /// keyboard and mouse events to send.
    pub fn observe(&mut self, detection: Option<usize>) -> (out: FrameOutcome)
        requires
            detection matches Some(i) && gesture_label_of(i as int) == old(self)@.last
                ==> old(self)@.hold < u32::MAX,
        ensures
            final(self)@ == step(old(self)@, detection),
            out.event.detected == detection is Some,
            out.event.gesture@ == final(self)@.last,
            out.actions@ == if fires(old(self)@, detection) {
                actions_of(final(self)@.last)
            } else {
                seq![]
            },
    {
        match detection {
            None => {
                self.last_gesture = String::new();
                self.hold_count = 0;
                assert(self@.last =~= seq![]);
                FrameOutcome {
                    event: GestureEvent { gesture: String::new(), detected: false },
                    actions: Vec::new(),
                }
            },
            Some(i) => {
                let g = gesture_label(i);
                if g == self.last_gesture {
                    self.hold_count = self.hold_count + 1;
                } else {
                    self.last_gesture = g.clone();
                    self.hold_count = 1;
                }
                let actions = if self.hold_count == HOLD_FRAMES {
                    os_actions(g.as_str())
                } else {
                    Vec::new()
                };
                FrameOutcome { event: GestureEvent { gesture: g, detected: true }, actions }
            },
        }
    }
}

/// The model's input layout from a camera image: `data` holds
/// `height * width` pixels of three bytes each (red, green, blue); the result
/// holds the same bytes plane by plane, all red values first, then all green,
/// then all blue, each plane in pixel order.
pub fn hwc_to_chw(data: &[u8], height: usize, width: usize) -> (r: Vec<u8>)
    requires
        height * width * 3 <= usize::MAX,
        data@.len() >= height * width * 3,
    ensures
        r@.len() == height * width * 3,
        forall|c: int, p: int|
            0 <= c < 3 && 0 <= p < height * width ==> #[trigger] r@[c * (height * width) + p]
                == data@[p * 3 + c],
        forall|c: int, row: int, col: int|
            0 <= c < 3 && 0 <= row < height && 0 <= col < width ==> #[trigger] r@[c * (height
                * width) + row * width + col] == data@[(row * width + col) * 3 + c],
{
    let hw = height * width;
    let mut out: Vec<u8> = Vec::new();
    let mut c: usize = 0;
    while c < 3
        invariant
            hw == height * width,
            hw * 3 <= usize::MAX,
            data@.len() >= hw * 3,
            c <= 3,
            out@.len() == c * hw,
            forall|c2: int, p: int|
                0 <= c2 < c && 0 <= p < hw ==> #[trigger] out@[c2 * hw + p] == data@[p * 3 + c2],
        decreases 3 - c,
    {
        let mut p: usize = 0;
        while p < hw
            invariant
                hw == height * width,
                hw * 3 <= usize::MAX,
                data@.len() >= hw * 3,
                c < 3,
                p <= hw,
                out@.len() == c * hw + p,
                forall|c2: int, q: int|
                    0 <= c2 < c && 0 <= q < hw ==> #[trigger] out@[c2 * hw + q] == data@[q * 3
                        + c2],
                forall|q: int| 0 <= q < p ==> #[trigger] out@[c * hw + q] == data@[q * 3 + c],
            decreases hw - p,
        {
            assert(p * 3 + c < hw * 3) by (nonlinear_arith)
                requires
                    p < hw,
                    c < 3,
            ;
            assert(c * hw + p < hw * 3) by (nonlinear_arith)
                requires
                    p < hw,
                    c < 3,
            ;
            let ghost before = out@;
            out.push(data[p * 3 + c]);
            assert forall|c2: int, q: int| 0 <= c2 < c && 0 <= q < hw implies #[trigger] out@[c2
                * hw + q] == data@[q * 3 + c2] by {
                assert(c2 * hw + q < c * hw) by (nonlinear_arith)
                    requires
                        0 <= c2 < c,
                        0 <= q < hw,
                ;
                assert(out@[c2 * hw + q] == before[c2 * hw + q]);
            }
            p = p + 1;
        }
        assert((c + 1) * hw == c * hw + hw) by (nonlinear_arith);
        assert forall|c2: int, q: int| 0 <= c2 < c + 1 && 0 <= q < hw implies #[trigger] out@[c2
            * hw + q] == data@[q * 3 + c2] by {
            if c2 == c {
                assert(out@[c * hw + q] == data@[q * 3 + c]);
            }
        }
        c = c + 1;
    }
    assert forall|c: int, row: int, col: int|
        0 <= c < 3 && 0 <= row < height && 0 <= col < width implies #[trigger] out@[c * (height
            * width) + row * width + col] == data@[(row * width + col) * 3 + c] by {
        assert(row * width + col < height * width) by (nonlinear_arith)
            requires
                0 <= row < height,
                0 <= col < width,
        ;
        assert(out@[c * hw + (row * width + col)] == data@[(row * width + col) * 3 + c]);
    }
    out
}

/// The text a preview frame is sent to the user as: a data URL holding the
/// JPEG bytes in base64.
pub fn preview_data_url(jpeg: &[u8]) -> (r: String)
    ensures
        r@ == "data:image/jpeg;base64,"@ + base64_standard(jpeg@),
{
    let mut s = String::from_str("data:image/jpeg;base64,");
    let encoded = base64_encode(jpeg);
    s.append(encoded.as_str());
    s
}

} // verus!
