use mac_connect_client::keysym::{UiKey, XK_ALT_L, XK_CONTROL_L, XK_RETURN, XK_SHIFT_L, XK_SUPER_L};
use mac_connect_client::ui::{
    is_capture_device_name, key_commands, pick_capture_device, pointer_button_mask, scroll_commands,
    sync_cursor_visibility, text_commands, PointerTracker, BUTTON_LEFT, BUTTON_MIDDLE, BUTTON_RIGHT,
    WHEEL_DOWN, WHEEL_LEFT, WHEEL_RIGHT, WHEEL_UP,
};
use mac_connect_client::video::{CaptureControl, SwitchPlan, VideoDeviceInfo, NO_DEVICE};
use mac_connect_client::vnc::VncCommand;

fn key(is_down: bool, keysym: u32) -> VncCommand {
    VncCommand::Key { is_down, keysym }
}

fn device(index: u32, name: &str) -> VideoDeviceInfo {
    VideoDeviceInfo { index, name: name.to_string(), description: String::new() }
}

#[test]
fn button_masks() {
    assert_eq!((BUTTON_LEFT, BUTTON_MIDDLE, BUTTON_RIGHT), (1, 2, 4));
    assert_eq!((WHEEL_UP, WHEEL_DOWN, WHEEL_LEFT, WHEEL_RIGHT), (8, 16, 32, 64));
    assert_eq!(pointer_button_mask(false, false, false), 0);
    assert_eq!(pointer_button_mask(true, false, false), 1);
    assert_eq!(pointer_button_mask(false, true, false), 2);
    assert_eq!(pointer_button_mask(false, false, true), 4);
    assert_eq!(pointer_button_mask(true, true, true), 7);
}

#[test]
fn scrolling_presses_the_wheel_buttons() {
    assert_eq!(
        scroll_commands(1, 10, 20, true, false, false, true),
        vec![
            VncCommand::Pointer { button_mask: 9, x: 10, y: 20 },
            VncCommand::Pointer { button_mask: 65, x: 10, y: 20 },
        ]
    );
    assert_eq!(
        scroll_commands(0, 1, 2, false, true, true, false),
        vec![
            VncCommand::Pointer { button_mask: 16, x: 1, y: 2 },
            VncCommand::Pointer { button_mask: 32, x: 1, y: 2 },
        ]
    );
    assert!(scroll_commands(0, 1, 2, false, false, false, false).is_empty());
}

#[test]
fn pointer_is_sent_only_when_it_changes() {
    let mut t = PointerTracker::new();
    assert_eq!(t.update(0, 0, 0), None);
    assert_eq!(t.update(5, 6, 0), Some(VncCommand::Pointer { button_mask: 0, x: 5, y: 6 }));
    assert_eq!(t.update(5, 6, 0), None);
    assert_eq!(t.update(5, 6, 1), Some(VncCommand::Pointer { button_mask: 1, x: 5, y: 6 }));
    assert_eq!((t.x, t.y, t.mask), (5, 6, 1));
}

#[test]
fn key_event_syncs_modifiers_then_sends_the_key() {
    assert_eq!(
        key_commands(true, false, false, false, UiKey::C, true),
        vec![
            key(true, XK_SUPER_L),
            key(false, XK_ALT_L),
            key(false, XK_CONTROL_L),
            key(false, XK_SHIFT_L),
            key(true, 'c' as u32),
        ]
    );
    assert_eq!(
        key_commands(false, true, true, true, UiKey::Enter, false),
        vec![
            key(false, XK_SUPER_L),
            key(true, XK_ALT_L),
            key(true, XK_CONTROL_L),
            key(true, XK_SHIFT_L),
            key(false, XK_RETURN),
        ]
    );
}

#[test]
fn unmapped_key_syncs_modifiers_only() {
    assert_eq!(key_commands(false, false, false, true, UiKey::Other, true).len(), 4);
}

#[test]
fn text_is_typed_character_by_character() {
    assert_eq!(
        text_commands(&['h', 'é']),
        vec![key(true, 'h' as u32), key(false, 'h' as u32), key(true, 0xE9), key(false, 0xE9)]
    );
    assert!(text_commands(&[]).is_empty());
}

#[test]
fn cursor_is_hidden_while_locked_and_shown_once_after() {
    assert_eq!(sync_cursor_visibility(true, false, true), (Some(false), true));
    assert_eq!(sync_cursor_visibility(true, true, false), (None, true));
    assert_eq!(sync_cursor_visibility(true, true, true), (Some(false), true));
    assert_eq!(sync_cursor_visibility(false, true, false), (Some(true), false));
    assert_eq!(sync_cursor_visibility(false, false, true), (None, false));
}

#[test]
fn capture_names() {
    let lower = |s: &str| -> Vec<char> { s.chars().collect() };
    assert!(is_capture_device_name(&lower("ugreen 25854")));
    assert!(is_capture_device_name(&lower("usb3.0 capture")));
    assert!(is_capture_device_name(&lower("cam link 4k")));
    assert!(is_capture_device_name(&lower("hdmi to usb")));
    assert!(is_capture_device_name(&lower("usb video")));
    assert!(!is_capture_device_name(&lower("integrated webcam")));
    assert!(!is_capture_device_name(&lower("usb  video")));
    assert!(!is_capture_device_name(&lower("")));
}

#[test]
fn capture_card_is_preferred_whatever_its_case() {
    let devices = vec![device(0, "Integrated Webcam"), device(3, "UGREEN HDMI Capture"), device(4, "HDMI")];
    assert_eq!(pick_capture_device(&devices), Some(3));
}

#[test]
fn first_device_when_none_is_a_capture_card() {
    let devices = vec![device(7, "FaceTime HD"), device(8, "Webcam")];
    assert_eq!(pick_capture_device(&devices), Some(7));
    assert_eq!(pick_capture_device(&[]), None);
}

#[test]
fn capture_control_switches_devices() {
    let mut c = CaptureControl::new();
    assert_eq!(c.begin_switch(), None);
    c.start_capture(2);
    assert_eq!(c.begin_switch(), Some(SwitchPlan { close: false, open: Some(2) }));
    c.opened(2);
    assert!(c.is_capturing());
    assert_eq!(c.begin_switch(), None);
    c.start_capture(5);
    assert_eq!(c.begin_switch(), Some(SwitchPlan { close: true, open: Some(5) }));
    assert!(!c.is_capturing());
    c.open_failed("Failed to open video stream".to_string());
    assert_eq!(c.last_error.as_deref(), Some("Failed to open video stream"));
    assert_eq!(c.begin_switch(), Some(SwitchPlan { close: false, open: Some(5) }));
    c.start_capture(5);
    assert_eq!(c.last_error, None);
    c.stop_capture();
    assert_eq!(c.target, NO_DEVICE);
    assert_eq!(c.begin_switch(), None);
}

#[test]
fn stopping_an_open_device_closes_it() {
    let mut c = CaptureControl::new();
    c.start_capture(1);
    c.begin_switch();
    c.opened(1);
    c.stop_capture();
    assert_eq!(c.begin_switch(), Some(SwitchPlan { close: true, open: None }));
    assert_eq!(c.current, NO_DEVICE);
}
