use personalproject::gesture::{
    webcam_candidates, CameraBackend, gesture_label, hwc_to_chw, os_actions, preview_data_url, GestureTracker, InputKey,
    InputStep, MouseButton, Press, HOLD_FRAMES,
};

fn key(k: InputKey, p: Press) -> InputStep {
    InputStep::Key(k, p)
}

#[test]
fn labels() {
    assert_eq!(gesture_label(0), "call");
    assert_eq!(gesture_label(6), "like");
    assert_eq!(gesture_label(10), "ok");
    assert_eq!(gesture_label(22), "two_up_inverted");
    assert_eq!(gesture_label(23), "unknown");
    assert_eq!(gesture_label(usize::MAX), "unknown");
}

#[test]
fn gesture_actions() {
    assert_eq!(os_actions("like"), vec![key(InputKey::VolumeUp, Press::Click)]);
    assert_eq!(os_actions("dislike"), vec![key(InputKey::VolumeDown, Press::Click)]);
    assert_eq!(os_actions("mute"), vec![key(InputKey::VolumeMute, Press::Click)]);
    assert_eq!(os_actions("peace"), vec![key(InputKey::RightArrow, Press::Click)]);
    assert_eq!(os_actions("peace_inverted"), vec![key(InputKey::LeftArrow, Press::Click)]);
    assert_eq!(os_actions("rock"), vec![key(InputKey::MediaNextTrack, Press::Click)]);
    assert_eq!(
        os_actions("fist"),
        vec![
            key(InputKey::Meta, Press::Press),
            key(InputKey::Unicode('d'), Press::Click),
            key(InputKey::Meta, Press::Release),
        ]
    );
    let task_view = vec![
        key(InputKey::Meta, Press::Press),
        key(InputKey::Tab, Press::Click),
        key(InputKey::Meta, Press::Release),
    ];
    assert_eq!(os_actions("palm"), task_view);
    assert_eq!(os_actions("stop"), task_view);
    assert_eq!(os_actions("ok"), vec![InputStep::Button(MouseButton::Left, Press::Click)]);
    assert!(os_actions("call").is_empty());
    assert!(os_actions("unknown").is_empty());
    assert!(os_actions("").is_empty());
}

#[test]
fn acts_on_eighth_consecutive_frame_only() {
    let mut t = GestureTracker::new();
    for n in 1..=20u32 {
        let out = t.observe(Some(6));
        assert!(out.event.detected);
        assert_eq!(out.event.gesture, "like");
        assert_eq!(t.hold_count(), n);
        if n == HOLD_FRAMES {
            assert_eq!(out.actions, vec![key(InputKey::VolumeUp, Press::Click)]);
        } else {
            assert!(out.actions.is_empty());
        }
    }
}

#[test]
fn no_gesture_frame_resets_the_hold() {
    let mut t = GestureTracker::new();
    for _ in 0..7 {
        t.observe(Some(10));
    }
    let out = t.observe(None);
    assert!(!out.event.detected);
    assert_eq!(out.event.gesture, "");
    assert!(out.actions.is_empty());
    assert_eq!(t.hold_count(), 0);
    assert_eq!(t.last_gesture(), "");
    for n in 1..=8u32 {
        let out = t.observe(Some(10));
        assert_eq!(out.actions.is_empty(), n != 8);
    }
}

#[test]
fn another_gesture_starts_a_new_hold() {
    let mut t = GestureTracker::new();
    for _ in 0..7 {
        t.observe(Some(6));
    }
    let out = t.observe(Some(1));
    assert!(out.actions.is_empty());
    assert_eq!(t.last_gesture(), "dislike");
    assert_eq!(t.hold_count(), 1);
}

#[test]
fn gestures_without_action_act_on_nothing() {
    let mut t = GestureTracker::new();
    for _ in 0..8 {
        let out = t.observe(Some(0));
        assert!(out.actions.is_empty());
    }
    assert_eq!(t.hold_count(), 8);
}

#[test]
fn every_second_frame_is_a_preview() {
    let mut t = GestureTracker::new();
    assert_eq!(t.frame_count(), 0);
    let previews: Vec<bool> = (0..6).map(|_| t.next_frame()).collect();
    assert_eq!(previews, vec![false, true, false, true, false, true]);
    assert_eq!(t.frame_count(), 6);
    assert_eq!(t.hold_count(), 0);
}

#[test]
fn planes_from_pixels() {
    // Two rows of two pixels, (r, g, b) each.
    let data: Vec<u8> = vec![1, 2, 3, 4, 5, 6, 7, 8, 9, 10, 11, 12];
    let out = hwc_to_chw(&data, 2, 2);
    assert_eq!(out, vec![1, 4, 7, 10, 2, 5, 8, 11, 3, 6, 9, 12]);
    let data: Vec<u8> = (0..=255u8).cycle().take(3 * 5 * 7).collect();
    let out = hwc_to_chw(&data, 5, 7);
    for c in 0..3 {
        for row in 0..5 {
            for col in 0..7 {
                assert_eq!(out[c * 35 + row * 7 + col], data[(row * 7 + col) * 3 + c]);
            }
        }
    }
    assert!(hwc_to_chw(&[], 0, 4).is_empty());
}

#[test]
fn preview_urls() {
    assert_eq!(preview_data_url(&[]), "data:image/jpeg;base64,");
    assert_eq!(preview_data_url(&[0xff]), "data:image/jpeg;base64,/w==");
    assert_eq!(preview_data_url(&[0xff, 0xd8]), "data:image/jpeg;base64,/9g=");
    assert_eq!(preview_data_url(b"Man"), "data:image/jpeg;base64,TWFu");
    assert_eq!(preview_data_url(&[0xfb, 0xef, 0xbe, 0x00]), "data:image/jpeg;base64,++++AA==");
}

#[test]
fn webcam_attempt_order() {
    let c = webcam_candidates();
    assert_eq!(
        c,
        vec![
            (CameraBackend::DirectShow, 0),
            (CameraBackend::DirectShow, 1),
            (CameraBackend::DirectShow, 2),
            (CameraBackend::MediaFoundation, 0),
            (CameraBackend::MediaFoundation, 1),
            (CameraBackend::MediaFoundation, 2),
            (CameraBackend::Any, 0),
            (CameraBackend::Any, 1),
            (CameraBackend::Any, 2),
        ]
    );
}

#[test]
fn preview_length_grows_by_four_per_three_bytes() {
    let prefix = "data:image/jpeg;base64,".len();
    for n in 0..12usize {
        let bytes: Vec<u8> = (0..n as u8).collect();
        assert_eq!(preview_data_url(&bytes).len() - prefix, 4 * ((n + 2) / 3));
    }
}
