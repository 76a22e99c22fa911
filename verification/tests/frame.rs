use mac_connect_client::ui::{
    decide_frame, focus_step, BarButton, FocusOutcome, FpsCounter, FrameInput, ViewState,
};

fn view(vnc_locked: bool, show_settings: bool, fullscreen: bool) -> ViewState {
    ViewState { vnc_locked, show_settings, fullscreen }
}

fn quiet(vnc_mode: bool) -> FrameInput {
    FrameInput {
        bar: BarButton::Nothing,
        f10: false,
        f11: false,
        escape: false,
        f12: false,
        ctrl: false,
        alt: false,
        clicked: false,
        vnc_mode,
        vnc_connected: true,
        vnc_dims_known: true,
        link_connected: true,
    }
}

#[test]
fn quiet_frame_changes_nothing() {
    let s = view(true, true, false);
    let d = decide_frame(s, true, quiet(true));
    assert_eq!(d.view, s);
    assert!(d.capture_locked);
    assert!(d.capture_changes.is_empty());
    assert!(d.fullscreen_commands.is_empty());
}

#[test]
fn losing_focus_unlocks_both_modes() {
    assert_eq!(
        focus_step(view(true, true, true), true, false),
        FocusOutcome { view: view(false, true, true), release_capture: true }
    );
    assert_eq!(
        focus_step(view(false, false, false), false, false),
        FocusOutcome { view: view(false, false, false), release_capture: false }
    );
    assert_eq!(
        focus_step(view(true, true, false), true, true),
        FocusOutcome { view: view(true, true, false), release_capture: false }
    );
}

#[test]
fn escape_f12_and_ctrl_alt_unlock_both_modes() {
    let mut esc = quiet(true);
    esc.escape = true;
    let mut f12 = quiet(false);
    f12.f12 = true;
    let mut ctrl_alt = quiet(true);
    ctrl_alt.ctrl = true;
    ctrl_alt.alt = true;
    for i in [esc, f12, ctrl_alt] {
        let d = decide_frame(view(true, true, false), true, i);
        assert!(!d.view.vnc_locked);
        assert!(!d.capture_locked);
        assert_eq!(d.capture_changes, vec![false]);
    }
    let mut ctrl_only = quiet(true);
    ctrl_only.ctrl = true;
    let d = decide_frame(view(true, true, false), true, ctrl_only);
    assert!(d.view.vnc_locked && d.capture_locked);
}

#[test]
fn click_locks_vnc_only_when_connected_with_a_screen() {
    let mut i = quiet(true);
    i.clicked = true;
    let d = decide_frame(view(false, true, false), false, i);
    assert!(d.view.vnc_locked);
    assert!(d.capture_changes.is_empty());

    i.vnc_dims_known = false;
    assert!(!decide_frame(view(false, true, false), false, i).view.vnc_locked);
    i.vnc_dims_known = true;
    i.vnc_connected = false;
    assert!(!decide_frame(view(false, true, false), false, i).view.vnc_locked);
}

#[test]
fn click_locks_capture_only_with_the_link_up() {
    let mut i = quiet(false);
    i.clicked = true;
    let d = decide_frame(view(false, true, false), false, i);
    assert!(d.capture_locked);
    assert_eq!(d.capture_changes, vec![true]);
    assert!(!d.view.vnc_locked);

    i.link_connected = false;
    let d = decide_frame(view(false, true, false), false, i);
    assert!(!d.capture_locked);
    assert!(d.capture_changes.is_empty());
}

#[test]
fn click_after_escape_does_not_relock_a_held_capture() {
    let mut i = quiet(false);
    i.clicked = true;
    i.escape = true;
    let d = decide_frame(view(false, true, false), true, i);
    assert!(!d.capture_locked);
    assert_eq!(d.capture_changes, vec![false]);
}

#[test]
fn lock_button_then_escape_then_click() {
    let mut i = quiet(false);
    i.bar = BarButton::CaptureLock;
    i.escape = true;
    i.clicked = true;
    let d = decide_frame(view(false, true, false), false, i);
    assert_eq!(d.capture_changes, vec![true, false, true]);
    assert!(d.capture_locked);
}

#[test]
fn bar_buttons() {
    let s = view(false, true, false);
    let mut i = quiet(true);
    i.bar = BarButton::VncLock;
    assert!(decide_frame(s, false, i).view.vnc_locked);
    i.bar = BarButton::VncUnlock;
    assert!(!decide_frame(view(true, true, false), false, i).view.vnc_locked);
    i.bar = BarButton::VncDisconnect;
    assert!(!decide_frame(view(true, true, false), false, i).view.vnc_locked);
    i.bar = BarButton::CaptureUnlink;
    assert_eq!(decide_frame(s, true, i).capture_changes, vec![false]);
    i.bar = BarButton::CaptureUnlock;
    assert!(!decide_frame(s, true, i).capture_locked);
    i.bar = BarButton::HideBar;
    assert!(!decide_frame(s, false, i).view.show_settings);
    i.bar = BarButton::Fullscreen;
    let d = decide_frame(s, false, i);
    assert!(d.view.fullscreen);
    assert_eq!(d.fullscreen_commands, vec![true]);
}

#[test]
fn bar_buttons_count_only_while_the_bar_is_shown() {
    let mut i = quiet(true);
    i.bar = BarButton::VncLock;
    let d = decide_frame(view(false, false, false), false, i);
    assert!(!d.view.vnc_locked);
}

#[test]
fn f10_toggles_the_bar_and_f11_fullscreen() {
    let mut i = quiet(true);
    i.f10 = true;
    i.f11 = true;
    let d = decide_frame(view(false, true, false), false, i);
    assert!(!d.view.show_settings);
    assert!(d.view.fullscreen);
    assert_eq!(d.fullscreen_commands, vec![true]);
    let d = decide_frame(view(false, false, true), false, i);
    assert!(d.view.show_settings);
    assert!(!d.view.fullscreen);
    assert_eq!(d.fullscreen_commands, vec![false]);
}

#[test]
fn hide_button_and_f10_in_one_frame() {
    let mut i = quiet(true);
    i.bar = BarButton::HideBar;
    i.f10 = true;
    assert!(decide_frame(view(false, true, false), false, i).view.show_settings);
}

#[test]
fn fullscreen_button_and_f11_in_one_frame() {
    let mut i = quiet(true);
    i.bar = BarButton::Fullscreen;
    i.f11 = true;
    let d = decide_frame(view(false, true, false), false, i);
    assert!(!d.view.fullscreen);
    assert_eq!(d.fullscreen_commands, vec![true, false]);
}

#[test]
fn fps_counts_whole_seconds() {
    let mut f = FpsCounter::new(100);
    f.frame_shown();
    f.frame_shown();
    f.tick(1_099);
    assert_eq!((f.frames, f.current_fps), (2, 0));
    f.frame_shown();
    f.tick(1_100);
    assert_eq!(f, FpsCounter { window_start_ms: 1_100, frames: 0, current_fps: 3 });
    f.tick(2_099);
    assert_eq!(f.current_fps, 3);
    f.tick(2_100);
    assert_eq!(f.current_fps, 0);
}
