//! What the window decides about input in VNC mode, about the cursor, and
//! about which capture device to start with.
use crate::keysym::{
    UiKey, ui_key_vk, vk_keysym, map_ui_key_to_keysym, XK_SUPER_L, XK_ALT_L, XK_CONTROL_L,
    XK_SHIFT_L,
};
use crate::video::VideoDeviceInfo;
use crate::vnc::VncCommand;
use vstd::prelude::*;

verus! {

/// Pointer button bits of the RFB protocol.
pub const BUTTON_LEFT: u8 = 1;
pub const BUTTON_MIDDLE: u8 = 2;
pub const BUTTON_RIGHT: u8 = 4;
pub const WHEEL_UP: u8 = 8;
pub const WHEEL_DOWN: u8 = 16;
pub const WHEEL_LEFT: u8 = 32;
pub const WHEEL_RIGHT: u8 = 64;

/// The button mask with the primary (left), middle and secondary (right)
/// buttons as given.
pub open spec fn button_mask_of(primary: bool, middle: bool, secondary: bool) -> u8 {
    ((if primary { 1u8 } else { 0u8 }) | (if middle { 2u8 } else { 0u8 }) | (if secondary { 4u8 } else { 0u8 })) as u8
}

/// The button mask for the buttons held.
pub fn pointer_button_mask(primary: bool, middle: bool, secondary: bool) -> (r: u8)
    ensures
        r == button_mask_of(primary, middle, secondary),
        r & BUTTON_LEFT != 0 <==> primary,
        r & BUTTON_MIDDLE != 0 <==> middle,
        r & BUTTON_RIGHT != 0 <==> secondary,
        r < 8,
{
    let mut mask: u8 = 0;
    if primary {
        mask = mask | 1;
    }
    if middle {
        mask = mask | 2;
    }
    if secondary {
        mask = mask | 4;
    }
    let p = primary;
    let m = middle;
    let s = secondary;
    assert(((if p { 1u8 } else { 0u8 }) | (if m { 2u8 } else { 0u8 }) | (if s { 4u8 } else { 0u8 })) & 1u8 != 0 <==> p) by (bit_vector);
    assert(((if p { 1u8 } else { 0u8 }) | (if m { 2u8 } else { 0u8 }) | (if s { 4u8 } else { 0u8 })) & 2u8 != 0 <==> m) by (bit_vector);
    assert(((if p { 1u8 } else { 0u8 }) | (if m { 2u8 } else { 0u8 }) | (if s { 4u8 } else { 0u8 })) & 4u8 != 0 <==> s) by (bit_vector);
    assert(((if p { 1u8 } else { 0u8 }) | (if m { 2u8 } else { 0u8 }) | (if s { 4u8 } else { 0u8 })) < 8u8) by (bit_vector);
    assert(mask == ((if p { 1u8 } else { 0u8 }) | (if m { 2u8 } else { 0u8 }) | (if s { 4u8 } else { 0u8 }))) by (bit_vector)
        requires
            mask == (if s { (if m { (if p { 0u8 | 1u8 } else { 0u8 }) | 2u8 } else { (if p { 0u8 | 1u8 } else { 0u8 }) }) | 4u8 } else { (if m { (if p { 0u8 | 1u8 } else { 0u8 }) | 2u8 } else { (if p { 0u8 | 1u8 } else { 0u8 }) }) }),
    ;
    mask
}

/// The pointer events a scroll sends at (`x`, `y`) with the buttons of
/// `mask` held: one wheel press per direction scrolled, vertical first.
pub open spec fn scroll_events(mask: u8, x: u16, y: u16, up: bool, down: bool, left: bool, right: bool) -> Seq<VncCommand> {
    let vertical: Seq<VncCommand> = if up {
        seq![VncCommand::Pointer { button_mask: mask | WHEEL_UP, x, y }]
    } else if down {
        seq![VncCommand::Pointer { button_mask: mask | WHEEL_DOWN, x, y }]
    } else {
        seq![]
    };
    let horizontal: Seq<VncCommand> = if left {
        seq![VncCommand::Pointer { button_mask: mask | WHEEL_LEFT, x, y }]
    } else if right {
        seq![VncCommand::Pointer { button_mask: mask | WHEEL_RIGHT, x, y }]
    } else {
        seq![]
    };
    vertical + horizontal
}

/// The wheel events for a scroll: `up` when the view scrolled up (a
/// positive vertical delta), `down` when it scrolled down, `left` for a
/// positive horizontal delta and `right` for a negative one.
pub fn scroll_commands(mask: u8, x: u16, y: u16, up: bool, down: bool, left: bool, right: bool) -> (r: Vec<VncCommand>)
    ensures
        r@ == scroll_events(mask, x, y, up, down, left, right),
{
    let mut out: Vec<VncCommand> = Vec::new();
    if up {
        out.push(VncCommand::Pointer { button_mask: mask | WHEEL_UP, x, y });
    } else if down {
        out.push(VncCommand::Pointer { button_mask: mask | WHEEL_DOWN, x, y });
    }
    if left {
        out.push(VncCommand::Pointer { button_mask: mask | WHEEL_LEFT, x, y });
    } else if right {
        out.push(VncCommand::Pointer { button_mask: mask | WHEEL_RIGHT, x, y });
    }
    assert(out@ =~= scroll_events(mask, x, y, up, down, left, right));
    out
}

/// The last pointer state sent, so that an unchanged pointer is not sent
/// again.
#[derive(Debug, Clone, Copy, PartialEq, Eq, Structural)]
pub struct PointerTracker {
    pub x: u16,
    pub y: u16,
    pub mask: u8,
}

impl PointerTracker {
    /// Nothing sent yet: the origin with no button.
    pub fn new() -> (r: Self)
        ensures
            r.x == 0 && r.y == 0 && r.mask == 0,
    {
        PointerTracker { x: 0, y: 0, mask: 0 }
    }

    /// The pointer event to send for the pointer at (`x`, `y`) with the
    /// buttons of `mask`, or `None` when nothing changed.
    pub fn update(&mut self, x: u16, y: u16, mask: u8) -> (r: Option<VncCommand>)
        ensures
            *final(self) == (PointerTracker { x, y, mask }),
            r == (if x == old(self).x && y == old(self).y && mask == old(self).mask {
                None
            } else {
                Some(VncCommand::Pointer { button_mask: mask, x, y })
            }),
    {
        if x == self.x && y == self.y && mask == self.mask {
            None
        } else {
            self.x = x;
            self.y = y;
            self.mask = mask;
            Some(VncCommand::Pointer { button_mask: mask, x, y })
        }
    }
}

/// The key events a key event of the VNC view sends: first the state of
/// each modifier (Alt as Command, the command key as Option, Ctrl, Shift),
/// then the key itself if it has a keysym.
pub open spec fn key_events(alt: bool, command: bool, ctrl: bool, shift: bool, key: UiKey, pressed: bool) -> Seq<VncCommand> {
    let modifiers = seq![
        VncCommand::Key { is_down: alt, keysym: XK_SUPER_L },
        VncCommand::Key { is_down: command, keysym: XK_ALT_L },
        VncCommand::Key { is_down: ctrl, keysym: XK_CONTROL_L },
        VncCommand::Key { is_down: shift, keysym: XK_SHIFT_L },
    ];
    match ui_key_vk(key) {
        Some(vk) => match vk_keysym(vk, shift) {
            Some(k) => modifiers.push(VncCommand::Key { is_down: pressed, keysym: k }),
            None => modifiers,
        },
        None => modifiers,
    }
}

/// The key events for a key event of the VNC view.
pub fn key_commands(alt: bool, command: bool, ctrl: bool, shift: bool, key: UiKey, pressed: bool) -> (r: Vec<VncCommand>)
    ensures
        r@ == key_events(alt, command, ctrl, shift, key, pressed),
{
    let mut out: Vec<VncCommand> = Vec::new();
    out.push(VncCommand::Key { is_down: alt, keysym: XK_SUPER_L });
    out.push(VncCommand::Key { is_down: command, keysym: XK_ALT_L });
    out.push(VncCommand::Key { is_down: ctrl, keysym: XK_CONTROL_L });
    out.push(VncCommand::Key { is_down: shift, keysym: XK_SHIFT_L });
    if let Some(k) = map_ui_key_to_keysym(key, shift) {
        out.push(VncCommand::Key { is_down: pressed, keysym: k });
    }
    assert(out@ =~= key_events(alt, command, ctrl, shift, key, pressed));
    out
}

/// The key events that type `text`: each character pressed and released,
/// its code point as keysym.
pub open spec fn text_events(text: Seq<char>) -> Seq<VncCommand>
    decreases text.len(),
{
    if text.len() == 0 {
        seq![]
    } else {
        text_events(text.drop_last()) + seq![
            VncCommand::Key { is_down: true, keysym: text.last() as u32 },
            VncCommand::Key { is_down: false, keysym: text.last() as u32 },
        ]
    }
}

/// The key events that type `text`.
pub fn text_commands(text: &[char]) -> (r: Vec<VncCommand>)
    ensures
        r@ == text_events(text@),
{
    let mut out: Vec<VncCommand> = Vec::new();
    let mut i: usize = 0;
    while i < text.len()
        invariant
            i <= text@.len(),
            out@ == text_events(text@.subrange(0, i as int)),
        decreases text.len() - i,
    {
        let c = text[i];
        let code = c as u32;
        out.push(VncCommand::Key { is_down: true, keysym: code });
        out.push(VncCommand::Key { is_down: false, keysym: code });
        proof {
            let pre = text@.subrange(0, i + 1);
            assert(pre.drop_last() =~= text@.subrange(0, i as int));
            assert(pre.last() == c);
        }
        i = i + 1;
    }
    assert(text@.subrange(0, text@.len() as int) =~= text@);
    out
}

/// Whether the cursor is to be shown or hidden now, and whether it is then
/// hidden by the window: hidden while the Mac holds the pointer (hidden
/// again whenever something showed it), shown once when it lets go.
pub open spec fn cursor_decision(hide: bool, hidden_by_us: bool, os_showing: bool) -> (Option<bool>, bool) {
    if hide {
        if !hidden_by_us || os_showing {
            (Some(false), true)
        } else {
            (None, hidden_by_us)
        }
    } else if hidden_by_us {
        (Some(true), false)
    } else {
        (None, hidden_by_us)
    }
}

/// Decides the cursor's visibility for a frame: `Some(visible)` when the
/// operating system's cursor is to be shown or hidden, with whether the
/// window then hides it.
pub fn sync_cursor_visibility(hide: bool, hidden_by_us: bool, os_showing: bool) -> (r: (Option<bool>, bool))
    ensures
        r == cursor_decision(hide, hidden_by_us, os_showing),
{
    if hide {
        if !hidden_by_us || os_showing {
            (Some(false), true)
        } else {
            (None, hidden_by_us)
        }
    } else if hidden_by_us {
        (Some(true), false)
    } else {
        (None, hidden_by_us)
    }
}

/// `s` in lower case, as `str::to_lowercase` gives it.
pub uninterp spec fn lowercase(s: Seq<char>) -> Seq<char>;

/// Lower-cases `s` with `str::to_lowercase`, whose result depends on the
/// text alone, and hands back its characters.
#[verifier::external_body]
fn lowercase_chars(s: &str) -> (r: Vec<char>)
    ensures
        r@ == lowercase(s@),
{
    s.to_lowercase().chars().collect()
}

/// Whether `needle` occurs in `hay` at position `i`.
pub open spec fn occurs_at(hay: Seq<char>, needle: Seq<char>, i: int) -> bool {
    0 <= i && i + needle.len() <= hay.len() && hay.subrange(i, i + needle.len()) == needle
}

/// Whether `needle` occurs in `hay`.
pub open spec fn occurs_in(hay: Seq<char>, needle: Seq<char>) -> bool {
    exists|i: int| occurs_at(hay, needle, i)
}

/// Whether `needle` occurs in `hay`.
fn contains_chars(hay: &[char], needle: &[char]) -> (r: bool)
    ensures
        r == occurs_in(hay@, needle@),
{
    if needle.len() > hay.len() {
        assert forall|i: int| !occurs_at(hay@, needle@, i) by {}
        return false;
    }
    let hl = hay.len();
    let last = hay.len() - needle.len();
    let mut i: usize = 0;
    while i <= last
        invariant
            last == hay@.len() - needle@.len(),
            hay@.len() == hl,
            forall|j: int| 0 <= j < i ==> !occurs_at(hay@, needle@, j),
        decreases last + 1 - i,
    {
        let mut k: usize = 0;
        let mut same = true;
        while k < needle.len()
            invariant
                i <= last,
                last == hay@.len() - needle@.len(),
                hay@.len() == hl,
                k <= needle@.len(),
                same <==> (forall|m: int| 0 <= m < k ==> hay@[i + m] == needle@[m]),
            decreases needle.len() - k,
        {
            if hay[i + k] != needle[k] {
                same = false;
            }
            k = k + 1;
        }
        if same {
            assert(hay@.subrange(i as int, i + needle@.len()) =~= needle@);
            assert(occurs_at(hay@, needle@, i as int));
            return true;
        }
        proof {
            if hay@.subrange(i as int, i + needle@.len()) == needle@ {
                let m = choose|m: int| 0 <= m < needle@.len() && hay@[i + m] != needle@[m];
                assert(hay@.subrange(i as int, i + needle@.len())[m] == hay@[i + m]);
            }
        }
        if i == last {
            assert forall|j: int| !occurs_at(hay@, needle@, j) by {
                if 0 <= j && j + needle@.len() <= hay@.len() {
                    assert(j <= last);
                }
            }
            return false;
        }
        i = i + 1;
    }
    false
}

/// The words that mark a device as a capture card.
pub open spec fn capture_words() -> Seq<Seq<char>> {
    seq![
        seq!['u', 'g', 'r', 'e', 'e', 'n'],
        seq!['c', 'a', 'p', 't', 'u', 'r', 'e'],
        seq!['c', 'a', 'm', ' ', 'l', 'i', 'n', 'k'],
        seq!['h', 'd', 'm', 'i'],
        seq!['u', 's', 'b', ' ', 'v', 'i', 'd', 'e', 'o'],
    ]
}

/// Whether a lower-cased device name marks a capture card.
pub open spec fn is_capture_name(lower: Seq<char>) -> bool {
    exists|w: int| 0 <= w < capture_words().len() && occurs_in(lower, #[trigger] capture_words()[w])
}

/// A lower-cased name marks a capture card exactly when it holds one of
/// the five words "ugreen", "capture", "cam link", "hdmi" or "usb video".
pub proof fn lemma_capture_name_words(lower: Seq<char>)
    ensures
        is_capture_name(lower) == (occurs_in(lower, seq!['u', 'g', 'r', 'e', 'e', 'n']) || occurs_in(lower, seq!['c', 'a', 'p', 't', 'u', 'r', 'e'])
            || occurs_in(lower, seq!['c', 'a', 'm', ' ', 'l', 'i', 'n', 'k']) || occurs_in(lower, seq!['h', 'd', 'm', 'i'])
            || occurs_in(lower, seq!['u', 's', 'b', ' ', 'v', 'i', 'd', 'e', 'o'])),
{
    let w0 = seq!['u', 'g', 'r', 'e', 'e', 'n'];
    let w1 = seq!['c', 'a', 'p', 't', 'u', 'r', 'e'];
    let w2 = seq!['c', 'a', 'm', ' ', 'l', 'i', 'n', 'k'];
    let w3 = seq!['h', 'd', 'm', 'i'];
    let w4 = seq!['u', 's', 'b', ' ', 'v', 'i', 'd', 'e', 'o'];
    assert(capture_words()[0] =~= w0);
    assert(capture_words()[1] =~= w1);
    assert(capture_words()[2] =~= w2);
    assert(capture_words()[3] =~= w3);
    assert(capture_words()[4] =~= w4);
    assert(capture_words().len() == 5);
    if is_capture_name(lower) {
        let w = choose|w: int| 0 <= w < capture_words().len() && occurs_in(lower, #[trigger] capture_words()[w]);
        assert(w == 0 || w == 1 || w == 2 || w == 3 || w == 4);
    }
}

/// Whether a lower-cased device name names a capture card: it holds
/// "ugreen", "capture", "cam link", "hdmi" or "usb video".
pub fn is_capture_device_name(lower: &[char]) -> (r: bool)
    ensures
        r == is_capture_name(lower@),
        r == (occurs_in(lower@, seq!['u', 'g', 'r', 'e', 'e', 'n']) || occurs_in(lower@, seq!['c', 'a', 'p', 't', 'u', 'r', 'e'])
            || occurs_in(lower@, seq!['c', 'a', 'm', ' ', 'l', 'i', 'n', 'k']) || occurs_in(lower@, seq!['h', 'd', 'm', 'i'])
            || occurs_in(lower@, seq!['u', 's', 'b', ' ', 'v', 'i', 'd', 'e', 'o'])),
{
    let w0 = ['u', 'g', 'r', 'e', 'e', 'n'];
    let w1 = ['c', 'a', 'p', 't', 'u', 'r', 'e'];
    let w2 = ['c', 'a', 'm', ' ', 'l', 'i', 'n', 'k'];
    let w3 = ['h', 'd', 'm', 'i'];
    let w4 = ['u', 's', 'b', ' ', 'v', 'i', 'd', 'e', 'o'];
    assert(w0@ =~= capture_words()[0]);
    assert(w1@ =~= capture_words()[1]);
    assert(w2@ =~= capture_words()[2]);
    assert(w3@ =~= capture_words()[3]);
    assert(w4@ =~= capture_words()[4]);
    let r = contains_chars(lower, &w0) || contains_chars(lower, &w1) || contains_chars(lower, &w2)
        || contains_chars(lower, &w3) || contains_chars(lower, &w4);
    proof {
        if is_capture_name(lower@) {
            let w = choose|w: int| 0 <= w < capture_words().len() && occurs_in(lower@, #[trigger] capture_words()[w]);
            assert(w == 0 || w == 1 || w == 2 || w == 3 || w == 4);
        }
        if r {
            if occurs_in(lower@, w0@) {
                assert(occurs_in(lower@, capture_words()[0]));
            } else if occurs_in(lower@, w1@) {
                assert(occurs_in(lower@, capture_words()[1]));
            } else if occurs_in(lower@, w2@) {
                assert(occurs_in(lower@, capture_words()[2]));
            } else if occurs_in(lower@, w3@) {
                assert(occurs_in(lower@, capture_words()[3]));
            } else {
                assert(occurs_in(lower@, capture_words()[4]));
            }
        }
        lemma_capture_name_words(lower@);
    }
    r
}

/// The device to start with, given the devices' lower-cased names: the
/// first whose name marks a capture card, else the first device.
pub open spec fn preferred_device(lowered: Seq<Seq<char>>, indices: Seq<u32>) -> Option<u32> {
    if exists|i: int| 0 <= i < lowered.len() && is_capture_name(#[trigger] lowered[i]) {
        let i = choose|i: int| 0 <= i < lowered.len() && is_capture_name(lowered[i]) && forall|j: int| 0 <= j < i ==> !is_capture_name(#[trigger] lowered[j]);
        Some(indices[i])
    } else if indices.len() > 0 {
        Some(indices[0])
    } else {
        None
    }
}

/// Picks the capture device to start with: the first whose name, in lower
/// case, holds one of the capture-card words, else the first device.
pub fn pick_capture_device(devices: &[VideoDeviceInfo]) -> (r: Option<u32>)
    ensures
        r == preferred_device(
            devices@.map_values(|d: VideoDeviceInfo| lowercase(d.name@)),
            devices@.map_values(|d: VideoDeviceInfo| d.index),
        ),
{
    let ghost lowered = devices@.map_values(|d: VideoDeviceInfo| lowercase(d.name@));
    let ghost indices = devices@.map_values(|d: VideoDeviceInfo| d.index);
    let mut i: usize = 0;
    while i < devices.len()
        invariant
            i <= devices@.len(),
            lowered.len() == devices@.len(),
            indices.len() == devices@.len(),
            lowered == devices@.map_values(|d: VideoDeviceInfo| lowercase(d.name@)),
            indices == devices@.map_values(|d: VideoDeviceInfo| d.index),
            forall|j: int| 0 <= j < i ==> !is_capture_name(#[trigger] lowered[j]),
        decreases devices.len() - i,
    {
        let lower = lowercase_chars(devices[i].name.as_str());
        if is_capture_device_name(lower.as_slice()) {
            proof {
                assert(lowered[i as int] == lower@);
                let k = choose|k: int| 0 <= k < lowered.len() && is_capture_name(lowered[k]) && forall|j: int| 0 <= j < k ==> !is_capture_name(#[trigger] lowered[j]);
                if k < i {
                } else if k > i {
                    assert(!is_capture_name(lowered[i as int]));
                }
                assert(k == i);
            }
            return Some(devices[i].index);
        }
        i = i + 1;
    }
    if devices.len() > 0 {
        Some(devices[0].index)
    } else {
        None
    }
}

/// What the window shows and holds across frames: whether the Mac has the
/// VNC view's input, whether the settings bar is shown, and whether the
/// window is fullscreen.
#[derive(Debug, Clone, Copy, PartialEq, Eq, Structural)]
pub struct ViewState {
    pub vnc_locked: bool,
    pub show_settings: bool,
    pub fullscreen: bool,
}

/// The button of the settings bar clicked this frame, if any.
#[derive(Debug, Clone, Copy, PartialEq, Eq, Structural)]
pub enum BarButton {
    Nothing,
    /// "Disconnect" in VNC mode.
    VncDisconnect,
    /// "Lock Mac" in VNC mode.
    VncLock,
    /// "Unlock" in VNC mode.
    VncUnlock,
    /// "Unlink" in capture-card mode.
    CaptureUnlink,
    /// "Lock Mac" in capture-card mode.
    CaptureLock,
    /// "Unlock" in capture-card mode.
    CaptureUnlock,
    /// "Fullscreen" / "Windowed".
    Fullscreen,
    /// "Hide Bar".
    HideBar,
}

/// What happened in a frame, after the focus check: the bar button clicked,
/// the shortcut keys pressed (F10, F11, Escape, F12) and the modifiers held,
/// whether the screen area was clicked, the mode, and what the VNC session
/// and the receiver link stand at.
#[derive(Debug, Clone, Copy, PartialEq, Eq, Structural)]
pub struct FrameInput {
    pub bar: BarButton,
    pub f10: bool,
    pub f11: bool,
    pub escape: bool,
    pub f12: bool,
    pub ctrl: bool,
    pub alt: bool,
    pub clicked: bool,
    pub vnc_mode: bool,
    pub vnc_connected: bool,
    pub vnc_dims_known: bool,
    pub link_connected: bool,
}

/// The view after the focus check, and whether the capture-card lock is to
/// be released now.
#[derive(Debug, Clone, Copy, PartialEq, Eq, Structural)]
pub struct FocusOutcome {
    pub view: ViewState,
    pub release_capture: bool,
}

/// What the rest of a frame decides: the view, the capture-card lock at
/// its end, each change of that lock in the order made (`true` to take it),
/// and each fullscreen state the window is to be set to, in order.
pub struct FrameDecision {
    pub view: ViewState,
    pub capture_locked: bool,
    pub capture_changes: Vec<bool>,
    pub fullscreen_commands: Vec<bool>,
}

/// A frame's decisions as they build up.
pub struct FrameModel {
    pub view: ViewState,
    pub capture_locked: bool,
    pub capture_changes: Seq<bool>,
    pub fullscreen_commands: Seq<bool>,
}

/// The focus check: a window that lost focus gives the Mac up in both modes.
pub open spec fn focus_outcome(s: ViewState, capture_locked: bool, focused: bool) -> FocusOutcome {
    if focused {
        FocusOutcome { view: s, release_capture: false }
    } else {
        FocusOutcome { view: ViewState { vnc_locked: false, ..s }, release_capture: capture_locked }
    }
}

/// `m` with the capture-card lock set to `on`; a change is recorded.
pub open spec fn set_capture(m: FrameModel, on: bool) -> FrameModel {
    if m.capture_locked == on {
        m
    } else {
        FrameModel { capture_locked: on, capture_changes: m.capture_changes.push(on), ..m }
    }
}

/// `m` with the VNC lock set to `on`.
pub open spec fn set_vnc_lock(m: FrameModel, on: bool) -> FrameModel {
    FrameModel { view: ViewState { vnc_locked: on, ..m.view }, ..m }
}

/// `m` with fullscreen toggled, and the new state sent to the window.
pub open spec fn toggle_fullscreen(m: FrameModel) -> FrameModel {
    let f = !m.view.fullscreen;
    FrameModel { view: ViewState { fullscreen: f, ..m.view }, fullscreen_commands: m.fullscreen_commands.push(f), ..m }
}

/// The settings bar, when it is shown.
pub open spec fn bar_step(m: FrameModel, b: BarButton) -> FrameModel {
    if !m.view.show_settings {
        m
    } else {
        match b {
            BarButton::Nothing => m,
            BarButton::VncDisconnect => set_vnc_lock(m, false),
            BarButton::VncLock => set_vnc_lock(m, true),
            BarButton::VncUnlock => set_vnc_lock(m, false),
            BarButton::CaptureUnlink => set_capture(m, false),
            BarButton::CaptureLock => set_capture(m, true),
            BarButton::CaptureUnlock => set_capture(m, false),
            BarButton::Fullscreen => toggle_fullscreen(m),
            BarButton::HideBar => FrameModel { view: ViewState { show_settings: false, ..m.view }, ..m },
        }
    }
}

/// Whether the keys ask to give the Mac up: Escape, F12, or Ctrl and Alt
/// together.
pub open spec fn wants_release(i: FrameInput) -> bool {
    i.escape || i.f12 || (i.ctrl && i.alt)
}

/// The shortcuts: F10 shows or hides the bar, F11 toggles fullscreen, and
/// Escape, F12 or Ctrl+Alt give the Mac up in both modes.
pub open spec fn shortcut_step(m: FrameModel, i: FrameInput) -> FrameModel {
    let a = if i.f10 {
        FrameModel { view: ViewState { show_settings: !m.view.show_settings, ..m.view }, ..m }
    } else {
        m
    };
    let b = if i.f11 {
        toggle_fullscreen(a)
    } else {
        a
    };
    if wants_release(i) {
        set_vnc_lock(set_capture(b, false), false)
    } else {
        b
    }
}

/// A click on the screen hands the Mac its input: in VNC mode once the
/// session is up and the screen size is known, in capture-card mode once
/// the link is up and the lock was not held when the frame began.
pub open spec fn click_step(m: FrameModel, capture_locked_at_start: bool, i: FrameInput) -> FrameModel {
    if i.vnc_mode {
        if i.vnc_connected && i.vnc_dims_known && i.clicked && !m.view.vnc_locked {
            set_vnc_lock(m, true)
        } else {
            m
        }
    } else if i.link_connected && i.clicked && !capture_locked_at_start {
        set_capture(m, true)
    } else {
        m
    }
}

/// The rest of a frame from view `s` and capture-card lock `c` (both as
/// the focus check left them): the bar, then the shortcuts, then the click.
pub open spec fn frame_after(s: ViewState, c: bool, i: FrameInput) -> FrameModel {
    let start = FrameModel { view: s, capture_locked: c, capture_changes: seq![], fullscreen_commands: seq![] };
    click_step(shortcut_step(bar_step(start, i.bar), i), c, i)
}

/// The focus check at the start of a frame.
pub fn focus_step(s: ViewState, capture_locked: bool, focused: bool) -> (r: FocusOutcome)
    ensures
        r == focus_outcome(s, capture_locked, focused),
{
    if focused {
        FocusOutcome { view: s, release_capture: false }
    } else {
        FocusOutcome { view: ViewState { vnc_locked: false, ..s }, release_capture: capture_locked }
    }
}

/// Sets the capture-card lock to `on`, recording a change.
fn set_capture_lock(locked: &mut bool, changes: &mut Vec<bool>, on: bool)
    ensures
        *final(locked) == on,
        final(changes)@ == (if *old(locked) == on { old(changes)@ } else { old(changes)@.push(on) }),
{
    if *locked != on {
        *locked = on;
        changes.push(on);
    }
}

/// Decides the rest of a frame, in the order the window takes it: the
/// settings bar, then the shortcuts, then a click on the screen. `s` and
/// `capture_locked` are as the focus check left them.
pub fn decide_frame(s: ViewState, capture_locked: bool, i: FrameInput) -> (r: FrameDecision)
    ensures
        r.view == frame_after(s, capture_locked, i).view,
        r.capture_locked == frame_after(s, capture_locked, i).capture_locked,
        r.capture_changes@ == frame_after(s, capture_locked, i).capture_changes,
        r.fullscreen_commands@ == frame_after(s, capture_locked, i).fullscreen_commands,
{
    let mut view = s;
    let mut locked = capture_locked;
    let mut changes: Vec<bool> = Vec::new();
    let mut commands: Vec<bool> = Vec::new();
    let ghost start = FrameModel { view: s, capture_locked, capture_changes: seq![], fullscreen_commands: seq![] };
    assert(changes@ =~= start.capture_changes);
    assert(commands@ =~= start.fullscreen_commands);
    if view.show_settings {
        match i.bar {
            BarButton::Nothing => {},
            BarButton::VncDisconnect => {
                view.vnc_locked = false;
            },
            BarButton::VncLock => {
                view.vnc_locked = true;
            },
            BarButton::VncUnlock => {
                view.vnc_locked = false;
            },
            BarButton::CaptureUnlink => {
                set_capture_lock(&mut locked, &mut changes, false);
            },
            BarButton::CaptureLock => {
                set_capture_lock(&mut locked, &mut changes, true);
            },
            BarButton::CaptureUnlock => {
                set_capture_lock(&mut locked, &mut changes, false);
            },
            BarButton::Fullscreen => {
                view.fullscreen = !view.fullscreen;
                commands.push(view.fullscreen);
            },
            BarButton::HideBar => {
                view.show_settings = false;
            },
        }
    }
    let ghost after_bar = bar_step(start, i.bar);
    assert(view == after_bar.view && locked == after_bar.capture_locked);
    assert(changes@ =~= after_bar.capture_changes && commands@ =~= after_bar.fullscreen_commands);
    if i.f10 {
        view.show_settings = !view.show_settings;
    }
    if i.f11 {
        view.fullscreen = !view.fullscreen;
        commands.push(view.fullscreen);
    }
    if i.escape || i.f12 || (i.ctrl && i.alt) {
        set_capture_lock(&mut locked, &mut changes, false);
        view.vnc_locked = false;
    }
    let ghost after_keys = shortcut_step(after_bar, i);
    assert(view == after_keys.view && locked == after_keys.capture_locked);
    assert(changes@ =~= after_keys.capture_changes && commands@ =~= after_keys.fullscreen_commands);
    if i.vnc_mode {
        if i.vnc_connected && i.vnc_dims_known && i.clicked && !view.vnc_locked {
            view.vnc_locked = true;
        }
    } else if i.link_connected && i.clicked && !capture_locked {
        set_capture_lock(&mut locked, &mut changes, true);
    }
    FrameDecision { view, capture_locked: locked, capture_changes: changes, fullscreen_commands: commands }
}

/// The VNC lock after the settings bar: its Lock button takes it, its
/// Disconnect and Unlock buttons release it.
pub open spec fn vnc_lock_after_bar(s: ViewState, b: BarButton) -> bool {
    if s.show_settings && b == BarButton::VncLock {
        true
    } else if s.show_settings && (b == BarButton::VncDisconnect || b == BarButton::VncUnlock) {
        false
    } else {
        s.vnc_locked
    }
}

/// The capture-card lock after the settings bar: its Lock button takes it,
/// its Unlink and Unlock buttons release it.
pub open spec fn capture_lock_after_bar(s: ViewState, c: bool, b: BarButton) -> bool {
    if s.show_settings && b == BarButton::CaptureLock {
        true
    } else if s.show_settings && (b == BarButton::CaptureUnlink || b == BarButton::CaptureUnlock) {
        false
    } else {
        c
    }
}

/// Over a frame (after the focus check):
/// - the Mac keeps the VNC view's input only if it had it after the bar and
///   no release key was pressed, or a click handed it over;
/// - likewise for the capture-card lock, whose click counts only if the lock
///   was not held when the frame began;
/// - so Escape, F12 or Ctrl+Alt without a click unlocks both modes;
/// - F10 toggles the bar (after its Hide button), F11 toggles fullscreen
///   (after its button), and the last fullscreen command is the final state;
/// - the recorded lock changes each flip the lock, and the last one is where
///   it ends.
pub proof fn lemma_frame_laws(s: ViewState, c: bool, i: FrameInput)
    ensures
        frame_after(s, c, i).view.vnc_locked == ((i.vnc_mode && i.vnc_connected && i.vnc_dims_known && i.clicked)
            || (vnc_lock_after_bar(s, i.bar) && !wants_release(i))),
        frame_after(s, c, i).capture_locked == ((!i.vnc_mode && i.link_connected && i.clicked && !c)
            || (capture_lock_after_bar(s, c, i.bar) && !wants_release(i))),
        wants_release(i) && !i.clicked ==> !frame_after(s, c, i).view.vnc_locked && !frame_after(s, c, i).capture_locked,
        frame_after(s, c, i).view.show_settings == ((s.show_settings && i.bar != BarButton::HideBar) != i.f10),
        frame_after(s, c, i).view.fullscreen == ((s.fullscreen != (s.show_settings && i.bar == BarButton::Fullscreen))
            != i.f11),
        i.f11 ==> frame_after(s, c, i).fullscreen_commands.len() > 0
            && frame_after(s, c, i).fullscreen_commands.last() == frame_after(s, c, i).view.fullscreen,
        frame_after(s, c, i).capture_changes.len() == 0 ==> frame_after(s, c, i).capture_locked == c,
        frame_after(s, c, i).capture_changes.len() > 0 ==> frame_after(s, c, i).capture_changes.last()
            == frame_after(s, c, i).capture_locked && frame_after(s, c, i).capture_changes[0] != c,
        forall|k: int| 0 < k < frame_after(s, c, i).capture_changes.len() ==> #[trigger] frame_after(s, c, i).capture_changes[k]
            != frame_after(s, c, i).capture_changes[k - 1],
{
}

/// A window that loses focus gives the Mac up in both modes: the capture
/// lock is released at once if held, and, unless a lock button or a click
/// hands the Mac its input again in the same frame, neither mode is locked
/// when the frame ends.
pub proof fn lemma_losing_focus_unlocks(s: ViewState, c: bool, i: FrameInput)
    requires
        !i.clicked,
        i.bar != BarButton::VncLock,
        i.bar != BarButton::CaptureLock,
    ensures
        focus_outcome(s, c, false).release_capture == c,
        !frame_after(focus_outcome(s, c, false).view, false, i).view.vnc_locked,
        !frame_after(focus_outcome(s, c, false).view, false, i).capture_locked,
{
    lemma_frame_laws(focus_outcome(s, c, false).view, false, i);
}

/// The frame rate shown in the bar: frames counted since the current
/// one-second window began (monotonic milliseconds), and the count of the
/// last whole window.
#[derive(Debug, Clone, Copy, PartialEq, Eq, Structural)]
pub struct FpsCounter {
    pub window_start_ms: u64,
    pub frames: u32,
    pub current_fps: u32,
}

impl FpsCounter {
    /// No frame yet; the first window begins at `now_ms`.
    pub fn new(now_ms: u64) -> (r: Self)
        ensures
            r == (FpsCounter { window_start_ms: now_ms, frames: 0, current_fps: 0 }),
    {
        FpsCounter { window_start_ms: now_ms, frames: 0, current_fps: 0 }
    }

    /// A new frame was displayed.
    pub fn frame_shown(&mut self)
        requires
            old(self).frames < u32::MAX,
        ensures
            *final(self) == (FpsCounter { frames: (old(self).frames + 1) as u32, ..*old(self) }),
    {
        self.frames = self.frames + 1;
    }

    /// At `now_ms`: once a second has passed since the window began, the
    /// window's count becomes the rate shown and a new window begins.
    pub fn tick(&mut self, now_ms: u64)
        ensures
            *final(self) == (if now_ms >= old(self).window_start_ms + 1000 {
                FpsCounter { window_start_ms: now_ms, frames: 0, current_fps: old(self).frames }
            } else {
                *old(self)
            }),
    {
        if now_ms >= self.window_start_ms && now_ms - self.window_start_ms >= 1000 {
            self.current_fps = self.frames;
            self.frames = 0;
            self.window_start_ms = now_ms;
        }
    }
}

} // verus!
