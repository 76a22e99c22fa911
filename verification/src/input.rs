//! What the low-level keyboard and mouse hooks decide while the capture-card
//! mode holds the Mac in focus.
//!
//! The hooks themselves live with the operating system; each event is handed
//! here with the numbers Windows reports for it, and the answer says whether
//! Windows may see the event, what goes to the receiver, and what happens to
//! the cursor.
use crate::protocol::{
    ButtonAction, KeyAction, MouseButtonId, PacketSerializer, ModifierFlags,
    with_flag, key_event_bytes, mouse_button_bytes, mouse_move_relative_bytes,
    mouse_wheel_bytes, reset_modifiers_bytes,
};
use crate::wire::{le2, le4};
use vstd::prelude::*;

verus! {

// Virtual-key codes, as Win32 numbers them.
pub const VK_SHIFT: u16 = 0x10;
pub const VK_CONTROL: u16 = 0x11;
pub const VK_MENU: u16 = 0x12;
pub const VK_PAUSE: u16 = 0x13;
pub const VK_ESCAPE: u16 = 0x1B;
pub const VK_LWIN: u16 = 0x5B;
pub const VK_RWIN: u16 = 0x5C;
pub const VK_F12: u16 = 0x7B;
pub const VK_SCROLL: u16 = 0x91;
pub const VK_LCONTROL: u16 = 0xA2;
pub const VK_RCONTROL: u16 = 0xA3;
pub const VK_LMENU: u16 = 0xA4;
pub const VK_RMENU: u16 = 0xA5;

// Window messages the hooks receive, as Win32 numbers them.
pub const WM_KEYDOWN: u32 = 0x0100;
pub const WM_KEYUP: u32 = 0x0101;
pub const WM_SYSKEYDOWN: u32 = 0x0104;
pub const WM_SYSKEYUP: u32 = 0x0105;
pub const WM_MOUSEMOVE: u32 = 0x0200;
pub const WM_LBUTTONDOWN: u32 = 0x0201;
pub const WM_LBUTTONUP: u32 = 0x0202;
pub const WM_RBUTTONDOWN: u32 = 0x0204;
pub const WM_RBUTTONUP: u32 = 0x0205;
pub const WM_MBUTTONDOWN: u32 = 0x0207;
pub const WM_MBUTTONUP: u32 = 0x0208;
pub const WM_MOUSEWHEEL: u32 = 0x020A;
pub const WM_MOUSEHWHEEL: u32 = 0x020E;

/// The flag Windows sets on mouse events that were injected rather than
/// made by a device.
pub const LLMHF_INJECTED: u32 = 1;

/// What the hooks remember between events.
#[derive(Debug, Clone, Copy, PartialEq, Eq, Structural)]
pub struct HookState {
    /// Whether keyboard and mouse go to the Mac.
    pub locked: bool,
    /// Where the cursor was when the lock was taken; it is held there.
    pub center_x: i32,
    pub center_y: i32,
    /// The modifier keys seen down, tracked from the events themselves.
    pub ctrl_down: bool,
    pub alt_down: bool,
    pub shift_down: bool,
    pub win_down: bool,
}

/// The answer to one hook event, as data.
pub enum HookEffect {
    PassThrough,
    Swallow,
    Send(Seq<u8>),
    SendAndRecenter(Seq<u8>, i32, i32),
    Release(Seq<u8>),
}

/// The answer to one hook event.
pub enum HookAction {
    /// Windows handles the event as usual.
    PassThrough,
    /// Windows never sees the event.
    Swallow,
    /// Windows never sees the event; the packet goes to the receiver.
    Send(Vec<u8>),
    /// As `Send`, and the cursor is put back at the given point.
    SendAndRecenter(Vec<u8>, i32, i32),
    /// Control returns to Windows: the cursor is shown again, the packet
    /// (a modifier reset) goes to the receiver, and Windows never sees the
    /// event.
    Release(Vec<u8>),
}

impl View for HookAction {
    type V = HookEffect;

    open spec fn view(&self) -> HookEffect {
        match self {
            HookAction::PassThrough => HookEffect::PassThrough,
            HookAction::Swallow => HookEffect::Swallow,
            HookAction::Send(p) => HookEffect::Send(p@),
            HookAction::SendAndRecenter(p, x, y) => HookEffect::SendAndRecenter(p@, *x, *y),
            HookAction::Release(p) => HookEffect::Release(p@),
        }
    }
}

/// What a change of the lock asks of the caller.
pub enum LockChange {
    /// The lock was already in the state asked for.
    Unchanged,
    /// The lock was taken: the cursor is to be hidden.
    Locked,
    /// The lock was released: the cursor is to be shown and the packet (a
    /// modifier reset) sent to the receiver.
    Unlocked(Vec<u8>),
}

/// Whether a keyboard message reports a key going down.
pub open spec fn key_is_down(msg: u32) -> bool {
    msg == WM_KEYDOWN || msg == WM_SYSKEYDOWN
}

/// The modifier tracking after key `vk` went down or up.
pub open spec fn track_modifiers(s: HookState, vk: u16, down: bool) -> HookState {
    if vk == VK_CONTROL || vk == VK_LCONTROL || vk == VK_RCONTROL {
        HookState { ctrl_down: down, ..s }
    } else if vk == VK_MENU || vk == VK_LMENU || vk == VK_RMENU {
        HookState { alt_down: down, ..s }
    } else if vk == VK_SHIFT {
        HookState { shift_down: down, ..s }
    } else if vk == VK_LWIN || vk == VK_RWIN {
        HookState { win_down: down, ..s }
    } else {
        s
    }
}

/// Whether key `vk`, with the modifiers of `s`, asks to give control back
/// to Windows: Ctrl and Alt together, Escape, F12, Pause or Scroll Lock.
pub open spec fn is_host_escape(s: HookState, vk: u16) -> bool {
    (s.ctrl_down && s.alt_down) || vk == VK_ESCAPE || vk == VK_F12 || vk == VK_PAUSE || vk
        == VK_SCROLL
}

/// The modifier bits sent to the Mac: the Windows key becomes Option (Alt)
/// and the Alt key becomes Command (the Windows bit).
pub open spec fn mac_modifiers(s: HookState) -> u8 {
    with_flag(
        with_flag(with_flag(with_flag(0, ModifierFlags::SHIFT, s.shift_down), ModifierFlags::CTRL, s.ctrl_down), ModifierFlags::ALT, s.win_down),
        ModifierFlags::WIN,
        s.alt_down,
    )
}

/// `s` with the lock released and every modifier forgotten.
pub open spec fn released(s: HookState) -> HookState {
    HookState {
        locked: false,
        ctrl_down: false,
        alt_down: false,
        shift_down: false,
        win_down: false,
        ..s
    }
}

/// The state after a keyboard event.
pub open spec fn key_next_state(s: HookState, code: i32, vk: u16, msg: u32) -> HookState {
    if code < 0 {
        s
    } else {
        let t = track_modifiers(s, vk, key_is_down(msg));
        if is_host_escape(t, vk) && key_is_down(msg) && s.locked {
            released(t)
        } else {
            t
        }
    }
}

/// The answer to a keyboard event.
pub open spec fn key_effect(s: HookState, code: i32, vk: u16, msg: u32) -> HookEffect {
    if code < 0 {
        HookEffect::PassThrough
    } else {
        let t = track_modifiers(s, vk, key_is_down(msg));
        if is_host_escape(t, vk) && key_is_down(msg) && s.locked {
            HookEffect::Release(reset_modifiers_bytes())
        } else if !s.locked {
            HookEffect::PassThrough
        } else {
            let action = if key_is_down(msg) {
                KeyAction::KeyDown
            } else {
                KeyAction::KeyUp
            };
            HookEffect::Send(key_event_bytes(vk, action, mac_modifiers(t)))
        }
    }
}

/// The scroll amount Windows packs into the high half of a wheel event's
/// data, sign-extended.
pub open spec fn wheel_delta(mouse_data: u32) -> i32 {
    ((mouse_data >> 16u32) as i16) as i32
}

/// Whether a mouse event reaches the Mac: a hook call to act on, while
/// locked, made by a device.
pub open spec fn mouse_event_forwarded(s: HookState, code: i32, flags: u32) -> bool {
    code >= 0 && s.locked && flags & LLMHF_INJECTED == 0
}

/// Whether the cursor's offset from the lock point fits the packet's
/// 32-bit fields.
pub open spec fn offset_fits(s: HookState, x: i32, y: i32) -> bool {
    i32::MIN <= x - s.center_x <= i32::MAX && i32::MIN <= y - s.center_y <= i32::MAX
}

/// The answer to a mouse event.
pub open spec fn mouse_effect(s: HookState, code: i32, msg: u32, x: i32, y: i32, mouse_data: u32, flags: u32) -> HookEffect {
    if !mouse_event_forwarded(s, code, flags) {
        HookEffect::PassThrough
    } else if msg == WM_MOUSEMOVE {
        let dx = (x - s.center_x) as i32;
        let dy = (y - s.center_y) as i32;
        if dx != 0 || dy != 0 {
            HookEffect::SendAndRecenter(mouse_move_relative_bytes(dx, dy), s.center_x, s.center_y)
        } else {
            HookEffect::Swallow
        }
    } else if msg == WM_LBUTTONDOWN {
        HookEffect::Send(mouse_button_bytes(MouseButtonId::Left, ButtonAction::Press))
    } else if msg == WM_LBUTTONUP {
        HookEffect::Send(mouse_button_bytes(MouseButtonId::Left, ButtonAction::Release))
    } else if msg == WM_RBUTTONDOWN {
        HookEffect::Send(mouse_button_bytes(MouseButtonId::Right, ButtonAction::Press))
    } else if msg == WM_RBUTTONUP {
        HookEffect::Send(mouse_button_bytes(MouseButtonId::Right, ButtonAction::Release))
    } else if msg == WM_MBUTTONDOWN {
        HookEffect::Send(mouse_button_bytes(MouseButtonId::Middle, ButtonAction::Press))
    } else if msg == WM_MBUTTONUP {
        HookEffect::Send(mouse_button_bytes(MouseButtonId::Middle, ButtonAction::Release))
    } else if msg == WM_MOUSEWHEEL {
        HookEffect::Send(mouse_wheel_bytes(0, wheel_delta(mouse_data)))
    } else if msg == WM_MOUSEHWHEEL {
        HookEffect::Send(mouse_wheel_bytes(wheel_delta(mouse_data), 0))
    } else {
        HookEffect::PassThrough
    }
}

impl HookState {
    /// Unlocked, with no modifier seen and the lock point at the origin.
    pub fn new() -> (r: Self)
        ensures
            !r.locked && !r.ctrl_down && !r.alt_down && !r.shift_down && !r.win_down,
            r.center_x == 0 && r.center_y == 0,
    {
        HookState {
            locked: false,
            center_x: 0,
            center_y: 0,
            ctrl_down: false,
            alt_down: false,
            shift_down: false,
            win_down: false,
        }
    }

    /// Whether keyboard and mouse go to the Mac.
    pub fn is_locked(&self) -> (r: bool)
        ensures
            r == self.locked,
    {
        self.locked
    }

    /// Takes or releases the lock. Taking it holds the cursor at
    /// (`cursor_x`, `cursor_y`), where it is now; releasing it forgets every
    /// modifier and asks for a modifier reset on the Mac.
    pub fn set_locked(&mut self, locked: bool, cursor_x: i32, cursor_y: i32) -> (r: LockChange)
        ensures
            old(self).locked == locked ==> *final(self) == *old(self) && r is Unchanged,
            old(self).locked != locked && locked ==> *final(self) == (HookState {
                locked: true,
                center_x: cursor_x,
                center_y: cursor_y,
                ..*old(self)
            }) && r is Locked,
            old(self).locked != locked && !locked ==> *final(self) == released(*old(self)) && (
            r matches LockChange::Unlocked(p) && p@ == reset_modifiers_bytes()),
    {
        if self.locked == locked {
            return LockChange::Unchanged;
        }
        self.locked = locked;
        if locked {
            self.center_x = cursor_x;
            self.center_y = cursor_y;
            LockChange::Locked
        } else {
            self.ctrl_down = false;
            self.alt_down = false;
            self.shift_down = false;
            self.win_down = false;
            LockChange::Unlocked(PacketSerializer::reset_modifiers())
        }
    }

    /// Decides a keyboard hook event: hook code `code`, message `msg`, key
    /// `vk`.
    pub fn on_key(&mut self, code: i32, vk: u16, msg: u32) -> (r: HookAction)
        ensures
            *final(self) == key_next_state(*old(self), code, vk, msg),
            r@ == key_effect(*old(self), code, vk, msg),
    {
        if code < 0 {
            return HookAction::PassThrough;
        }
        let was_locked = self.locked;
        let is_down = msg == WM_KEYDOWN || msg == WM_SYSKEYDOWN;
        if vk == VK_CONTROL || vk == VK_LCONTROL || vk == VK_RCONTROL {
            self.ctrl_down = is_down;
        } else if vk == VK_MENU || vk == VK_LMENU || vk == VK_RMENU {
            self.alt_down = is_down;
        } else if vk == VK_SHIFT {
            self.shift_down = is_down;
        } else if vk == VK_LWIN || vk == VK_RWIN {
            self.win_down = is_down;
        }
        let is_escape = (self.ctrl_down && self.alt_down) || vk == VK_ESCAPE || vk == VK_F12 || vk
            == VK_PAUSE || vk == VK_SCROLL;
        if is_escape && is_down && was_locked {
            self.locked = false;
            self.ctrl_down = false;
            self.alt_down = false;
            self.shift_down = false;
            self.win_down = false;
            return HookAction::Release(PacketSerializer::reset_modifiers());
        }
        if !was_locked {
            return HookAction::PassThrough;
        }
        let mut modifiers = ModifierFlags::new();
        modifiers.set_shift(self.shift_down);
        modifiers.set_ctrl(self.ctrl_down);
        modifiers.set_alt(self.win_down);
        modifiers.set_win(self.alt_down);
        let action = if is_down {
            KeyAction::KeyDown
        } else {
            KeyAction::KeyUp
        };
        HookAction::Send(PacketSerializer::key_event(vk, action, modifiers))
    }

    /// Decides a mouse hook event: hook code `code`, message `msg`, cursor
    /// position (`x`, `y`), the event's data word and flags.
    pub fn on_mouse(&self, code: i32, msg: u32, x: i32, y: i32, mouse_data: u32, flags: u32) -> (r: HookAction)
        requires
            mouse_event_forwarded(*self, code, flags) && msg == WM_MOUSEMOVE ==> offset_fits(*self, x, y),
        ensures
            r@ == mouse_effect(*self, code, msg, x, y, mouse_data, flags),
    {
        if code < 0 || !self.locked {
            return HookAction::PassThrough;
        }
        if (flags & LLMHF_INJECTED) != 0 {
            return HookAction::PassThrough;
        }
        if msg == WM_MOUSEMOVE {
            let dx = x - self.center_x;
            let dy = y - self.center_y;
            if dx != 0 || dy != 0 {
                HookAction::SendAndRecenter(
                    PacketSerializer::mouse_move_relative(dx, dy),
                    self.center_x,
                    self.center_y,
                )
            } else {
                HookAction::Swallow
            }
        } else if msg == WM_LBUTTONDOWN {
            HookAction::Send(PacketSerializer::mouse_button(MouseButtonId::Left, ButtonAction::Press))
        } else if msg == WM_LBUTTONUP {
            HookAction::Send(PacketSerializer::mouse_button(MouseButtonId::Left, ButtonAction::Release))
        } else if msg == WM_RBUTTONDOWN {
            HookAction::Send(PacketSerializer::mouse_button(MouseButtonId::Right, ButtonAction::Press))
        } else if msg == WM_RBUTTONUP {
            HookAction::Send(PacketSerializer::mouse_button(MouseButtonId::Right, ButtonAction::Release))
        } else if msg == WM_MBUTTONDOWN {
            HookAction::Send(PacketSerializer::mouse_button(MouseButtonId::Middle, ButtonAction::Press))
        } else if msg == WM_MBUTTONUP {
            HookAction::Send(PacketSerializer::mouse_button(MouseButtonId::Middle, ButtonAction::Release))
        } else if msg == WM_MOUSEWHEEL {
            let raw_delta = ((mouse_data >> 16u32) as i16) as i32;
            HookAction::Send(PacketSerializer::mouse_wheel(0, raw_delta))
        } else if msg == WM_MOUSEHWHEEL {
            let raw_delta = ((mouse_data >> 16u32) as i16) as i32;
            HookAction::Send(PacketSerializer::mouse_wheel(raw_delta, 0))
        } else {
            HookAction::PassThrough
        }
    }
}

/// A host escape key pressed while locked gives control back to Windows:
/// the lock is released, every modifier forgotten, the Mac told to release
/// its modifiers, and Windows does not see the key.
pub proof fn lemma_escape_key_releases(s: HookState, code: i32, vk: u16, msg: u32)
    requires
        s.locked,
        code >= 0,
        key_is_down(msg),
        vk == VK_ESCAPE || vk == VK_F12 || vk == VK_PAUSE || vk == VK_SCROLL,
    ensures
        !key_next_state(s, code, vk, msg).locked,
        !key_next_state(s, code, vk, msg).ctrl_down && !key_next_state(s, code, vk, msg).alt_down,
        !key_next_state(s, code, vk, msg).shift_down && !key_next_state(s, code, vk, msg).win_down,
        key_effect(s, code, vk, msg) == HookEffect::Release(reset_modifiers_bytes()),
{
}

/// Ctrl held and Alt pressed (or the other way round) while locked gives
/// control back to Windows.
pub proof fn lemma_ctrl_alt_releases(s: HookState, code: i32, vk: u16, msg: u32)
    requires
        s.locked,
        code >= 0,
        key_is_down(msg),
        (s.ctrl_down && (vk == VK_MENU || vk == VK_LMENU || vk == VK_RMENU)) || (s.alt_down && (vk
            == VK_CONTROL || vk == VK_LCONTROL || vk == VK_RCONTROL)),
    ensures
        !key_next_state(s, code, vk, msg).locked,
        key_effect(s, code, vk, msg) == HookEffect::Release(reset_modifiers_bytes()),
{
}

/// While unlocked, Windows sees every keyboard and mouse event and nothing
/// goes to the Mac.
pub proof fn lemma_unlocked_passes_through(s: HookState, code: i32, vk: u16, msg: u32, x: i32, y: i32, data: u32, flags: u32)
    requires
        !s.locked,
    ensures
        key_effect(s, code, vk, msg) == HookEffect::PassThrough,
        !key_next_state(s, code, vk, msg).locked,
        mouse_effect(s, code, msg, x, y, data, flags) == HookEffect::PassThrough,
{
}

/// Mouse events that were injected (such as the re-centring of the cursor)
/// are never forwarded.
pub proof fn lemma_injected_mouse_passes(s: HookState, code: i32, msg: u32, x: i32, y: i32, data: u32, flags: u32)
    requires
        flags & LLMHF_INJECTED != 0,
    ensures
        mouse_effect(s, code, msg, x, y, data, flags) == HookEffect::PassThrough,
{
}

/// The modifiers sent with a key: Shift and Ctrl as held, the Windows key
/// as Option (the Alt bit) and the Alt key as Command (the Windows bit).
pub proof fn lemma_modifier_bits(s: HookState)
    ensures
        (mac_modifiers(s) & ModifierFlags::SHIFT != 0) == s.shift_down,
        (mac_modifiers(s) & ModifierFlags::CTRL != 0) == s.ctrl_down,
        (mac_modifiers(s) & ModifierFlags::ALT != 0) == s.win_down,
        (mac_modifiers(s) & ModifierFlags::WIN != 0) == s.alt_down,
{
    let (a, b, c, d) = (s.shift_down, s.ctrl_down, s.win_down, s.alt_down);
    let m0: u8 = with_flag(0, ModifierFlags::SHIFT, a);
    let m1: u8 = with_flag(m0, ModifierFlags::CTRL, b);
    let m2: u8 = with_flag(m1, ModifierFlags::ALT, c);
    let m3: u8 = with_flag(m2, ModifierFlags::WIN, d);
    assert(m0 == (if a { 0u8 | 1u8 } else { 0u8 & !1u8 }));
    assert(m1 == (if b { m0 | 2u8 } else { m0 & !2u8 }));
    assert(m2 == (if c { m1 | 4u8 } else { m1 & !4u8 }));
    assert(m3 == (if d { m2 | 8u8 } else { m2 & !8u8 }));
    assert((m0 == (if a { 0u8 | 1u8 } else { 0u8 & !1u8 }) && m1 == (if b { m0 | 2u8 } else { m0 & !2u8 }) && m2 == (if c { m1 | 4u8 } else { m1 & !4u8 }) && m3 == (if d { m2 | 8u8 } else { m2 & !8u8 })) ==> (
        (m3 & 1u8 != 0) == a && (m3 & 2u8 != 0) == b && (m3 & 4u8 != 0) == c && (m3 & 8u8 != 0) == d)) by (bit_vector);
}

/// A forwarded mouse event (a hook call to act on, while locked, not
/// injected) sends the receiver what it names, whatever the lock point:
/// - a button message sends that button (left 0, right 1, middle 2), pressed
///   (1) for a down message and released (0) for an up message;
/// - a vertical wheel sends its signed delta (the high half of the data) as
///   the second amount, a horizontal wheel as the first;
/// - a move sends its offset from the lock point and puts the cursor back
///   there, or is swallowed when there is no offset.
pub proof fn lemma_forwarded_mouse_events(s: HookState, code: i32, x: i32, y: i32, data: u32, flags: u32)
    requires
        code >= 0,
        s.locked,
        flags & 1u32 == 0,
    ensures
        mouse_effect(s, code, 0x0201, x, y, data, flags) == HookEffect::Send(seq![0x4Du8, 0x43u8, 0x03u8, 0u8, 1u8]),
        mouse_effect(s, code, 0x0202, x, y, data, flags) == HookEffect::Send(seq![0x4Du8, 0x43u8, 0x03u8, 0u8, 0u8]),
        mouse_effect(s, code, 0x0204, x, y, data, flags) == HookEffect::Send(seq![0x4Du8, 0x43u8, 0x03u8, 1u8, 1u8]),
        mouse_effect(s, code, 0x0205, x, y, data, flags) == HookEffect::Send(seq![0x4Du8, 0x43u8, 0x03u8, 1u8, 0u8]),
        mouse_effect(s, code, 0x0207, x, y, data, flags) == HookEffect::Send(seq![0x4Du8, 0x43u8, 0x03u8, 2u8, 1u8]),
        mouse_effect(s, code, 0x0208, x, y, data, flags) == HookEffect::Send(seq![0x4Du8, 0x43u8, 0x03u8, 2u8, 0u8]),
        mouse_effect(s, code, 0x020A, x, y, data, flags) == HookEffect::Send(
            seq![0x4Du8, 0x43u8, 0x04u8] + le4(0u32) + le4((((data >> 16u32) as i16) as i32) as u32),
        ),
        mouse_effect(s, code, 0x020E, x, y, data, flags) == HookEffect::Send(
            seq![0x4Du8, 0x43u8, 0x04u8] + le4((((data >> 16u32) as i16) as i32) as u32) + le4(0u32),
        ),
        offset_fits(s, x, y) && (x != s.center_x || y != s.center_y) ==> mouse_effect(s, code, 0x0200, x, y, data, flags)
            == HookEffect::SendAndRecenter(
            seq![0x4Du8, 0x43u8, 0x01u8] + le4(((x - s.center_x) as i32) as u32) + le4(((y - s.center_y) as i32) as u32),
            s.center_x,
            s.center_y,
        ),
        x == s.center_x && y == s.center_y ==> mouse_effect(s, code, 0x0200, x, y, data, flags) == HookEffect::Swallow,
{
    assert(mouse_button_bytes(MouseButtonId::Left, ButtonAction::Press) =~= seq![0x4Du8, 0x43u8, 0x03u8, 0u8, 1u8]);
    assert(mouse_button_bytes(MouseButtonId::Left, ButtonAction::Release) =~= seq![0x4Du8, 0x43u8, 0x03u8, 0u8, 0u8]);
    assert(mouse_button_bytes(MouseButtonId::Right, ButtonAction::Press) =~= seq![0x4Du8, 0x43u8, 0x03u8, 1u8, 1u8]);
    assert(mouse_button_bytes(MouseButtonId::Right, ButtonAction::Release) =~= seq![0x4Du8, 0x43u8, 0x03u8, 1u8, 0u8]);
    assert(mouse_button_bytes(MouseButtonId::Middle, ButtonAction::Press) =~= seq![0x4Du8, 0x43u8, 0x03u8, 2u8, 1u8]);
    assert(mouse_button_bytes(MouseButtonId::Middle, ButtonAction::Release) =~= seq![0x4Du8, 0x43u8, 0x03u8, 2u8, 0u8]);
    let d = (((data >> 16u32) as i16) as i32);
    assert(mouse_wheel_bytes(0, d) =~= seq![0x4Du8, 0x43u8, 0x04u8] + le4(0u32) + le4(d as u32));
    assert(mouse_wheel_bytes(d, 0) =~= seq![0x4Du8, 0x43u8, 0x04u8] + le4(d as u32) + le4(0u32));
    let dx = (x - s.center_x) as i32;
    let dy = (y - s.center_y) as i32;
    assert(mouse_move_relative_bytes(dx, dy) =~= seq![0x4Du8, 0x43u8, 0x01u8] + le4(dx as u32) + le4(dy as u32));
}

/// Each modifier key is tracked by both its keys and by nothing else: a
/// hook call to act on (`code >= 0`) that does not release the lock sets
/// Ctrl (0x11, 0xA2, 0xA3), Alt (0x12, 0xA4, 0xA5), Shift (0x10) or the
/// Windows key (0x5B, 0x5C) down on a key-down message (0x100, 0x104) and up
/// otherwise, leaves the other modifiers and the lock point as they were,
/// and any other key changes no modifier.
pub proof fn lemma_modifier_keys_tracked(s: HookState, code: i32, vk: u16, msg: u32)
    requires
        code >= 0,
        key_next_state(s, code, vk, msg).locked == s.locked,
    ensures
        key_next_state(s, code, vk, msg).center_x == s.center_x,
        key_next_state(s, code, vk, msg).center_y == s.center_y,
        (vk == 0x11 || vk == 0xA2 || vk == 0xA3) ==> key_next_state(s, code, vk, msg).ctrl_down == (msg == 0x0100
            || msg == 0x0104),
        (vk == 0x12 || vk == 0xA4 || vk == 0xA5) ==> key_next_state(s, code, vk, msg).alt_down == (msg == 0x0100
            || msg == 0x0104),
        vk == 0x10 ==> key_next_state(s, code, vk, msg).shift_down == (msg == 0x0100 || msg == 0x0104),
        (vk == 0x5B || vk == 0x5C) ==> key_next_state(s, code, vk, msg).win_down == (msg == 0x0100 || msg == 0x0104),
        !(vk == 0x11 || vk == 0xA2 || vk == 0xA3) ==> key_next_state(s, code, vk, msg).ctrl_down == s.ctrl_down,
        !(vk == 0x12 || vk == 0xA4 || vk == 0xA5) ==> key_next_state(s, code, vk, msg).alt_down == s.alt_down,
        vk != 0x10 ==> key_next_state(s, code, vk, msg).shift_down == s.shift_down,
        !(vk == 0x5B || vk == 0x5C) ==> key_next_state(s, code, vk, msg).win_down == s.win_down,
{
}

/// While locked, a key event that does not release the lock goes to the
/// receiver as a key packet: the virtual-key code in little-endian order,
/// 1 for a key-down message (0x100, 0x104) and 0 otherwise, and the
/// modifiers held after the event, Shift as 1, Ctrl as 2, the Windows key as
/// 4 (Option) and Alt as 8 (Command).
pub proof fn lemma_locked_key_packet(s: HookState, code: i32, vk: u16, msg: u32)
    requires
        code >= 0,
        s.locked,
        key_next_state(s, code, vk, msg).locked,
    ensures
        key_effect(s, code, vk, msg) == HookEffect::Send(
            seq![0x4Du8, 0x43u8, 0x05u8] + le2(vk) + seq![
                if msg == 0x0100 || msg == 0x0104 { 1u8 } else { 0u8 },
                (if key_next_state(s, code, vk, msg).shift_down { 1u8 } else { 0u8 })
                    | (if key_next_state(s, code, vk, msg).ctrl_down { 2u8 } else { 0u8 })
                    | (if key_next_state(s, code, vk, msg).win_down { 4u8 } else { 0u8 })
                    | (if key_next_state(s, code, vk, msg).alt_down { 8u8 } else { 0u8 }),
            ],
        ),
{
    let t = key_next_state(s, code, vk, msg);
    let (a, b, c, d) = (t.shift_down, t.ctrl_down, t.win_down, t.alt_down);
    let m0: u8 = with_flag(0, ModifierFlags::SHIFT, a);
    let m1: u8 = with_flag(m0, ModifierFlags::CTRL, b);
    let m2: u8 = with_flag(m1, ModifierFlags::ALT, c);
    let m3: u8 = with_flag(m2, ModifierFlags::WIN, d);
    assert(m0 == (if a { 0u8 | 1u8 } else { 0u8 & !1u8 }));
    assert(m1 == (if b { m0 | 2u8 } else { m0 & !2u8 }));
    assert(m2 == (if c { m1 | 4u8 } else { m1 & !4u8 }));
    assert(m3 == (if d { m2 | 8u8 } else { m2 & !8u8 }));
    assert(m3 == (if a { 1u8 } else { 0u8 }) | (if b { 2u8 } else { 0u8 }) | (if c { 4u8 } else { 0u8 }) | (if d {
        8u8
    } else {
        0u8
    })) by (bit_vector)
        requires
            m0 == (if a { 0u8 | 1u8 } else { 0u8 & !1u8 }),
            m1 == (if b { m0 | 2u8 } else { m0 & !2u8 }),
            m2 == (if c { m1 | 4u8 } else { m1 & !4u8 }),
            m3 == (if d { m2 | 8u8 } else { m2 & !8u8 }),
    ;
    assert(mac_modifiers(t) == m3);
    let action = if key_is_down(msg) { KeyAction::KeyDown } else { KeyAction::KeyUp };
    assert(key_event_bytes(vk, action, m3) =~= seq![0x4Du8, 0x43u8, 0x05u8] + le2(vk) + seq![
        if msg == 0x0100 || msg == 0x0104 { 1u8 } else { 0u8 },
        m3,
    ]);
}

} // verus!
