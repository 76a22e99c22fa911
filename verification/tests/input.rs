use mac_connect_client::input::{
    HookAction, HookState, LockChange, LLMHF_INJECTED, VK_CONTROL, VK_ESCAPE, VK_F12, VK_LMENU,
    VK_LWIN, VK_MENU, VK_PAUSE, VK_SCROLL, VK_SHIFT, WM_KEYDOWN, WM_KEYUP, WM_LBUTTONDOWN,
    WM_LBUTTONUP, WM_MBUTTONDOWN, WM_MOUSEHWHEEL, WM_MOUSEMOVE, WM_MOUSEWHEEL, WM_RBUTTONUP,
    WM_SYSKEYDOWN, WM_SYSKEYUP,
};

fn locked_at(x: i32, y: i32) -> HookState {
    let mut s = HookState::new();
    match s.set_locked(true, x, y) {
        LockChange::Locked => {}
        _ => panic!("expected the lock to be taken"),
    }
    s
}

fn sent(a: HookAction) -> Vec<u8> {
    match a {
        HookAction::Send(p) => p,
        _ => panic!("expected a packet"),
    }
}

fn passes(a: &HookAction) -> bool {
    matches!(a, HookAction::PassThrough)
}

#[test]
fn windows_constants() {
    assert_eq!(VK_SHIFT, 0x10);
    assert_eq!(VK_CONTROL, 0x11);
    assert_eq!(VK_MENU, 0x12);
    assert_eq!(VK_ESCAPE, 0x1B);
    assert_eq!(VK_F12, 0x7B);
    assert_eq!(WM_KEYDOWN, 0x100);
    assert_eq!(WM_MOUSEMOVE, 0x200);
    assert_eq!(WM_MOUSEWHEEL, 0x20A);
}

#[test]
fn new_hook_state_is_unlocked() {
    let s = HookState::new();
    assert!(!s.is_locked());
    assert!(!s.ctrl_down && !s.alt_down && !s.shift_down && !s.win_down);
}

#[test]
fn locking_holds_the_cursor_point() {
    let s = locked_at(640, 360);
    assert!(s.is_locked());
    assert_eq!((s.center_x, s.center_y), (640, 360));
}

#[test]
fn locking_twice_changes_nothing() {
    let mut s = locked_at(10, 20);
    let before = s;
    assert!(matches!(s.set_locked(true, 99, 99), LockChange::Unchanged));
    assert_eq!(s, before);
    let mut u = HookState::new();
    assert!(matches!(u.set_locked(false, 1, 1), LockChange::Unchanged));
}

#[test]
fn unlocking_resets_modifiers() {
    let mut s = locked_at(0, 0);
    s.on_key(0, VK_SHIFT, WM_KEYDOWN);
    s.on_key(0, VK_LWIN, WM_KEYDOWN);
    assert!(s.shift_down && s.win_down);
    match s.set_locked(false, 0, 0) {
        LockChange::Unlocked(p) => assert_eq!(p, vec![0x4D, 0x43, 0x08]),
        _ => panic!("expected an unlock"),
    }
    assert!(!s.locked && !s.shift_down && !s.win_down);
}

#[test]
fn unlocked_keys_pass_through_but_are_tracked() {
    let mut s = HookState::new();
    assert!(passes(&s.on_key(0, 0x41, WM_KEYDOWN)));
    assert!(passes(&s.on_key(0, VK_CONTROL, WM_KEYDOWN)));
    assert!(s.ctrl_down);
    assert!(passes(&s.on_key(0, VK_ESCAPE, WM_KEYDOWN)));
    assert!(!s.locked);
}

#[test]
fn negative_hook_code_is_not_ours() {
    let mut s = locked_at(0, 0);
    let before = s;
    assert!(passes(&s.on_key(-1, 0x41, WM_KEYDOWN)));
    assert_eq!(s, before);
    assert!(passes(&s.on_mouse(-1, WM_LBUTTONDOWN, 0, 0, 0, 0)));
}

#[test]
fn locked_key_goes_to_the_mac() {
    let mut s = locked_at(0, 0);
    let p = sent(s.on_key(0, 0x41, WM_KEYDOWN));
    assert_eq!(p, vec![0x4D, 0x43, 0x05, 0x41, 0x00, 1, 0]);
    let p = sent(s.on_key(0, 0x41, WM_KEYUP));
    assert_eq!(p, vec![0x4D, 0x43, 0x05, 0x41, 0x00, 0, 0]);
}

#[test]
fn modifiers_are_swapped_on_key_packets() {
    let mut s = locked_at(0, 0);
    // Alt goes down: it travels as Command (the Windows bit, 8).
    let p = sent(s.on_key(0, VK_LMENU, WM_SYSKEYDOWN));
    assert_eq!(p[6], 0x08);
    // Alt+C: Command-C on the Mac.
    let p = sent(s.on_key(0, 0x43, WM_SYSKEYDOWN));
    assert_eq!(p, vec![0x4D, 0x43, 0x05, 0x43, 0x00, 1, 0x08]);
    s.on_key(0, VK_LMENU, WM_SYSKEYUP);
    // The Windows key travels as Option (the Alt bit, 4); Shift as Shift.
    s.on_key(0, VK_LWIN, WM_KEYDOWN);
    let p = sent(s.on_key(0, VK_SHIFT, WM_KEYDOWN));
    assert_eq!(p[6], 0x04 | 0x01);
}

#[test]
fn escape_keys_release_the_lock() {
    for vk in [VK_ESCAPE, VK_F12, VK_PAUSE, VK_SCROLL] {
        let mut s = locked_at(5, 5);
        s.on_key(0, VK_SHIFT, WM_KEYDOWN);
        match s.on_key(0, vk, WM_KEYDOWN) {
            HookAction::Release(p) => assert_eq!(p, vec![0x4D, 0x43, 0x08]),
            _ => panic!("expected a release"),
        }
        assert!(!s.locked && !s.shift_down);
    }
}

#[test]
fn escape_key_release_event_is_sent_while_locked() {
    let mut s = locked_at(0, 0);
    let p = sent(s.on_key(0, VK_ESCAPE, WM_KEYUP));
    assert_eq!(p, vec![0x4D, 0x43, 0x05, 0x1B, 0x00, 0, 0]);
    assert!(s.locked);
}

#[test]
fn ctrl_alt_releases_the_lock() {
    let mut s = locked_at(0, 0);
    let p = sent(s.on_key(0, VK_CONTROL, WM_KEYDOWN));
    assert_eq!(p[6], 0x02);
    assert!(matches!(s.on_key(0, VK_MENU, WM_SYSKEYDOWN), HookAction::Release(_)));
    assert!(!s.locked && !s.ctrl_down && !s.alt_down);
}

#[test]
fn unlocked_mouse_passes_through() {
    let s = HookState::new();
    assert!(passes(&s.on_mouse(0, WM_MOUSEMOVE, 100, 100, 0, 0)));
    assert!(passes(&s.on_mouse(0, WM_LBUTTONDOWN, 0, 0, 0, 0)));
}

#[test]
fn injected_mouse_passes_through() {
    let s = locked_at(50, 50);
    assert!(passes(&s.on_mouse(0, WM_MOUSEMOVE, 60, 40, 0, LLMHF_INJECTED)));
    assert!(passes(&s.on_mouse(0, WM_LBUTTONDOWN, 60, 40, 0, LLMHF_INJECTED | 2)));
}

#[test]
fn mouse_move_sends_offset_and_recenters() {
    let s = locked_at(100, 200);
    match s.on_mouse(0, WM_MOUSEMOVE, 103, 195, 0, 0) {
        HookAction::SendAndRecenter(p, x, y) => {
            assert_eq!(p, vec![0x4D, 0x43, 0x01, 3, 0, 0, 0, 0xFB, 0xFF, 0xFF, 0xFF]);
            assert_eq!((x, y), (100, 200));
        }
        _ => panic!("expected a move"),
    }
    assert!(matches!(s.on_mouse(0, WM_MOUSEMOVE, 100, 200, 0, 0), HookAction::Swallow));
}

#[test]
fn mouse_buttons_go_to_the_mac() {
    let s = locked_at(0, 0);
    assert_eq!(sent(s.on_mouse(0, WM_LBUTTONDOWN, 0, 0, 0, 0)), vec![0x4D, 0x43, 0x03, 0, 1]);
    assert_eq!(sent(s.on_mouse(0, WM_LBUTTONUP, 0, 0, 0, 0)), vec![0x4D, 0x43, 0x03, 0, 0]);
    assert_eq!(sent(s.on_mouse(0, WM_RBUTTONUP, 0, 0, 0, 0)), vec![0x4D, 0x43, 0x03, 1, 0]);
    assert_eq!(sent(s.on_mouse(0, WM_MBUTTONDOWN, 0, 0, 0, 0)), vec![0x4D, 0x43, 0x03, 2, 1]);
}

#[test]
fn wheel_delta_is_the_signed_high_word() {
    let s = locked_at(0, 0);
    let down: u32 = ((-120i16 as u16 as u32) << 16) | 0x1234;
    assert_eq!(
        sent(s.on_mouse(0, WM_MOUSEWHEEL, 0, 0, down, 0)),
        vec![0x4D, 0x43, 0x04, 0, 0, 0, 0, 0x88, 0xFF, 0xFF, 0xFF]
    );
    let right: u32 = 120u32 << 16;
    assert_eq!(
        sent(s.on_mouse(0, WM_MOUSEHWHEEL, 0, 0, right, 0)),
        vec![0x4D, 0x43, 0x04, 120, 0, 0, 0, 0, 0, 0, 0]
    );
}

#[test]
fn other_mouse_messages_pass_through() {
    let s = locked_at(0, 0);
    assert!(passes(&s.on_mouse(0, 0x020B, 0, 0, 0, 0)));
}
