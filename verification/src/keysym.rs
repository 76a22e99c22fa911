//! X11 keysyms (the key numbers of the RFB protocol) and the translation of
//! Windows virtual-key codes and of the VNC view's keys to them, for a US
//! keyboard layout.
//!
//! The modifiers are swapped for a Mac: the Alt key becomes Command (Super)
//! and the Windows key becomes Option (Alt).
use vstd::prelude::*;

verus! {

pub const XK_BACKSPACE: u32 = 0xFF08;
pub const XK_TAB: u32 = 0xFF09;
pub const XK_RETURN: u32 = 0xFF0D;
pub const XK_ESCAPE: u32 = 0xFF1B;
pub const XK_DELETE: u32 = 0xFFFF;
pub const XK_HOME: u32 = 0xFF50;
pub const XK_LEFT: u32 = 0xFF51;
pub const XK_UP: u32 = 0xFF52;
pub const XK_RIGHT: u32 = 0xFF53;
pub const XK_DOWN: u32 = 0xFF54;
pub const XK_PAGE_UP: u32 = 0xFF55;
pub const XK_PAGE_DOWN: u32 = 0xFF56;
pub const XK_END: u32 = 0xFF57;

pub const XK_SHIFT_L: u32 = 0xFFE1;
pub const XK_SHIFT_R: u32 = 0xFFE2;
pub const XK_CONTROL_L: u32 = 0xFFE3;
pub const XK_CONTROL_R: u32 = 0xFFE4;
pub const XK_CAPS_LOCK: u32 = 0xFFE5;
pub const XK_META_L: u32 = 0xFFE7;
/// Option on the Mac.
pub const XK_ALT_L: u32 = 0xFFE9;
pub const XK_ALT_R: u32 = 0xFFEA;
/// Command on the Mac.
pub const XK_SUPER_L: u32 = 0xFFEB;
pub const XK_SUPER_R: u32 = 0xFFEC;

pub const XK_F1: u32 = 0xFFBE;
pub const XK_F2: u32 = 0xFFBF;
pub const XK_F3: u32 = 0xFFC0;
pub const XK_F4: u32 = 0xFFC1;
pub const XK_F5: u32 = 0xFFC2;
pub const XK_F6: u32 = 0xFFC3;
pub const XK_F7: u32 = 0xFFC4;
pub const XK_F8: u32 = 0xFFC5;
pub const XK_F9: u32 = 0xFFC6;
pub const XK_F10: u32 = 0xFFC7;
pub const XK_F11: u32 = 0xFFC8;
pub const XK_F12: u32 = 0xFFC9;

/// Whether `vk` is one of the letter keys A to Z.
pub open spec fn is_letter_vk(vk: u16) -> bool {
    0x41 <= vk <= 0x5A
}

/// The keys whose keysym depends on Shift, with the character typed without
/// and with it.
pub open spec fn shifted_pair(vk: u16) -> Option<(u32, u32)> {
    if is_letter_vk(vk) {
        Some(((vk + 0x20) as u32, vk as u32))
    } else {
        match vk {
            0x30 => Some(('0' as u32, ')' as u32)),
            0x31 => Some(('1' as u32, '!' as u32)),
            0x32 => Some(('2' as u32, '@' as u32)),
            0x33 => Some(('3' as u32, '#' as u32)),
            0x34 => Some(('4' as u32, '$' as u32)),
            0x35 => Some(('5' as u32, '%' as u32)),
            0x36 => Some(('6' as u32, '^' as u32)),
            0x37 => Some(('7' as u32, '&' as u32)),
            0x38 => Some(('8' as u32, '*' as u32)),
            0x39 => Some(('9' as u32, '(' as u32)),
            0xBA => Some((';' as u32, ':' as u32)),
            0xBB => Some(('=' as u32, '+' as u32)),
            0xBC => Some((',' as u32, '<' as u32)),
            0xBD => Some(('-' as u32, '_' as u32)),
            0xBE => Some(('.' as u32, '>' as u32)),
            0xBF => Some(('/' as u32, '?' as u32)),
            0xC0 => Some(('`' as u32, '~' as u32)),
            0xDB => Some(('[' as u32, '{' as u32)),
            0xDC => Some(('\\' as u32, '|' as u32)),
            0xDD => Some((']' as u32, '}' as u32)),
            0xDE => Some(('\'' as u32, '"' as u32)),
            _ => None,
        }
    }
}

/// The keys whose keysym does not depend on Shift.
pub open spec fn fixed_keysym(vk: u16) -> Option<u32> {
    match vk {
        0x08 => Some(XK_BACKSPACE),
        0x09 => Some(XK_TAB),
        0x0D => Some(XK_RETURN),
        0x1B => Some(XK_ESCAPE),
        0x20 => Some(' ' as u32),
        0x21 => Some(XK_PAGE_UP),
        0x22 => Some(XK_PAGE_DOWN),
        0x23 => Some(XK_END),
        0x24 => Some(XK_HOME),
        0x25 => Some(XK_LEFT),
        0x26 => Some(XK_UP),
        0x27 => Some(XK_RIGHT),
        0x28 => Some(XK_DOWN),
        0x2E => Some(XK_DELETE),
        0x10 | 0xA0 => Some(XK_SHIFT_L),
        0xA1 => Some(XK_SHIFT_R),
        0x11 | 0xA2 => Some(XK_CONTROL_L),
        0xA3 => Some(XK_CONTROL_R),
        0x12 | 0xA4 => Some(XK_SUPER_L),
        0xA5 => Some(XK_SUPER_R),
        0x5B => Some(XK_ALT_L),
        0x5C => Some(XK_ALT_R),
        0x14 => Some(XK_CAPS_LOCK),
        0x70 => Some(XK_F1),
        0x71 => Some(XK_F2),
        0x72 => Some(XK_F3),
        0x73 => Some(XK_F4),
        0x74 => Some(XK_F5),
        0x75 => Some(XK_F6),
        0x76 => Some(XK_F7),
        0x77 => Some(XK_F8),
        0x78 => Some(XK_F9),
        0x79 => Some(XK_F10),
        0x7A => Some(XK_F11),
        0x7B => Some(XK_F12),
        0x60 => Some('0' as u32),
        0x61 => Some('1' as u32),
        0x62 => Some('2' as u32),
        0x63 => Some('3' as u32),
        0x64 => Some('4' as u32),
        0x65 => Some('5' as u32),
        0x66 => Some('6' as u32),
        0x67 => Some('7' as u32),
        0x68 => Some('8' as u32),
        0x69 => Some('9' as u32),
        0x6A => Some('*' as u32),
        0x6B => Some('+' as u32),
        0x6D => Some('-' as u32),
        0x6E => Some('.' as u32),
        0x6F => Some('/' as u32),
        _ => None,
    }
}

/// The keysym of Windows virtual key `vk` with Shift held or not, or `None`
/// for a key the table leaves out.
pub open spec fn vk_keysym(vk: u16, is_shift: bool) -> Option<u32> {
    match shifted_pair(vk) {
        Some((plain, shifted)) => Some(if is_shift { shifted } else { plain }),
        None => fixed_keysym(vk),
    }
}

/// Maps a Windows virtual-key code and the Shift state to an X11 keysym.
pub fn map_vk_to_keysym(vk: u16, is_shift: bool) -> (r: Option<u32>)
    ensures
        r == vk_keysym(vk, is_shift),
{
    match vk {
        0x41..=0x5A => {
            let base: u32 = if is_shift { 0x41 } else { 0x61 };
            Some(base + (vk as u32 - 0x41))
        },
        0x30 => Some(if is_shift { ')' as u32 } else { '0' as u32 }),
        0x31 => Some(if is_shift { '!' as u32 } else { '1' as u32 }),
        0x32 => Some(if is_shift { '@' as u32 } else { '2' as u32 }),
        0x33 => Some(if is_shift { '#' as u32 } else { '3' as u32 }),
        0x34 => Some(if is_shift { '$' as u32 } else { '4' as u32 }),
        0x35 => Some(if is_shift { '%' as u32 } else { '5' as u32 }),
        0x36 => Some(if is_shift { '^' as u32 } else { '6' as u32 }),
        0x37 => Some(if is_shift { '&' as u32 } else { '7' as u32 }),
        0x38 => Some(if is_shift { '*' as u32 } else { '8' as u32 }),
        0x39 => Some(if is_shift { '(' as u32 } else { '9' as u32 }),
        0x08 => Some(XK_BACKSPACE),
        0x09 => Some(XK_TAB),
        0x0D => Some(XK_RETURN),
        0x1B => Some(XK_ESCAPE),
        0x20 => Some(' ' as u32),
        0x21 => Some(XK_PAGE_UP),
        0x22 => Some(XK_PAGE_DOWN),
        0x23 => Some(XK_END),
        0x24 => Some(XK_HOME),
        0x25 => Some(XK_LEFT),
        0x26 => Some(XK_UP),
        0x27 => Some(XK_RIGHT),
        0x28 => Some(XK_DOWN),
        0x2E => Some(XK_DELETE),
        0x10 | 0xA0 => Some(XK_SHIFT_L),
        0xA1 => Some(XK_SHIFT_R),
        0x11 | 0xA2 => Some(XK_CONTROL_L),
        0xA3 => Some(XK_CONTROL_R),
        0x12 | 0xA4 => Some(XK_SUPER_L),
        0xA5 => Some(XK_SUPER_R),
        0x5B => Some(XK_ALT_L),
        0x5C => Some(XK_ALT_R),
        0x14 => Some(XK_CAPS_LOCK),
        0x70 => Some(XK_F1),
        0x71 => Some(XK_F2),
        0x72 => Some(XK_F3),
        0x73 => Some(XK_F4),
        0x74 => Some(XK_F5),
        0x75 => Some(XK_F6),
        0x76 => Some(XK_F7),
        0x77 => Some(XK_F8),
        0x78 => Some(XK_F9),
        0x79 => Some(XK_F10),
        0x7A => Some(XK_F11),
        0x7B => Some(XK_F12),
        0xBA => Some(if is_shift { ':' as u32 } else { ';' as u32 }),
        0xBB => Some(if is_shift { '+' as u32 } else { '=' as u32 }),
        0xBC => Some(if is_shift { '<' as u32 } else { ',' as u32 }),
        0xBD => Some(if is_shift { '_' as u32 } else { '-' as u32 }),
        0xBE => Some(if is_shift { '>' as u32 } else { '.' as u32 }),
        0xBF => Some(if is_shift { '?' as u32 } else { '/' as u32 }),
        0xC0 => Some(if is_shift { '~' as u32 } else { '`' as u32 }),
        0xDB => Some(if is_shift { '{' as u32 } else { '[' as u32 }),
        0xDC => Some(if is_shift { '|' as u32 } else { '\\' as u32 }),
        0xDD => Some(if is_shift { '}' as u32 } else { ']' as u32 }),
        0xDE => Some(if is_shift { '"' as u32 } else { '\'' as u32 }),
        0x60 => Some('0' as u32),
        0x61 => Some('1' as u32),
        0x62 => Some('2' as u32),
        0x63 => Some('3' as u32),
        0x64 => Some('4' as u32),
        0x65 => Some('5' as u32),
        0x66 => Some('6' as u32),
        0x67 => Some('7' as u32),
        0x68 => Some('8' as u32),
        0x69 => Some('9' as u32),
        0x6A => Some('*' as u32),
        0x6B => Some('+' as u32),
        0x6D => Some('-' as u32),
        0x6E => Some('.' as u32),
        0x6F => Some('/' as u32),
        _ => None,
    }
}

/// The keys the VNC view translates, as the windowing toolkit reports them;
/// `Other` stands for every key it leaves alone.
#[derive(Debug, Clone, Copy, PartialEq, Eq, Structural)]
pub enum UiKey {
    A,
    B,
    C,
    D,
    E,
    F,
    G,
    H,
    I,
    J,
    K,
    L,
    M,
    N,
    O,
    P,
    Q,
    R,
    S,
    T,
    U,
    V,
    W,
    X,
    Y,
    Z,
    Num0,
    Num1,
    Num2,
    Num3,
    Num4,
    Num5,
    Num6,
    Num7,
    Num8,
    Num9,
    Backspace,
    Tab,
    Enter,
    Escape,
    Space,
    Delete,
    ArrowLeft,
    ArrowUp,
    ArrowRight,
    ArrowDown,
    Home,
    End,
    PageUp,
    PageDown,
    F1,
    F2,
    F3,
    F4,
    F5,
    F6,
    F7,
    F8,
    F9,
    F10,
    F11,
    F12,
    Other,
}

/// The Windows virtual-key code of the same physical key, for every key
/// but `Other`.
pub open spec fn ui_key_vk(key: UiKey) -> Option<u16> {
    match key {
        UiKey::A => Some(0x41),
        UiKey::B => Some(0x42),
        UiKey::C => Some(0x43),
        UiKey::D => Some(0x44),
        UiKey::E => Some(0x45),
        UiKey::F => Some(0x46),
        UiKey::G => Some(0x47),
        UiKey::H => Some(0x48),
        UiKey::I => Some(0x49),
        UiKey::J => Some(0x4A),
        UiKey::K => Some(0x4B),
        UiKey::L => Some(0x4C),
        UiKey::M => Some(0x4D),
        UiKey::N => Some(0x4E),
        UiKey::O => Some(0x4F),
        UiKey::P => Some(0x50),
        UiKey::Q => Some(0x51),
        UiKey::R => Some(0x52),
        UiKey::S => Some(0x53),
        UiKey::T => Some(0x54),
        UiKey::U => Some(0x55),
        UiKey::V => Some(0x56),
        UiKey::W => Some(0x57),
        UiKey::X => Some(0x58),
        UiKey::Y => Some(0x59),
        UiKey::Z => Some(0x5A),
        UiKey::Num0 => Some(0x30),
        UiKey::Num1 => Some(0x31),
        UiKey::Num2 => Some(0x32),
        UiKey::Num3 => Some(0x33),
        UiKey::Num4 => Some(0x34),
        UiKey::Num5 => Some(0x35),
        UiKey::Num6 => Some(0x36),
        UiKey::Num7 => Some(0x37),
        UiKey::Num8 => Some(0x38),
        UiKey::Num9 => Some(0x39),
        UiKey::Backspace => Some(0x08),
        UiKey::Tab => Some(0x09),
        UiKey::Enter => Some(0x0D),
        UiKey::Escape => Some(0x1B),
        UiKey::Space => Some(0x20),
        UiKey::Delete => Some(0x2E),
        UiKey::ArrowLeft => Some(0x25),
        UiKey::ArrowUp => Some(0x26),
        UiKey::ArrowRight => Some(0x27),
        UiKey::ArrowDown => Some(0x28),
        UiKey::Home => Some(0x24),
        UiKey::End => Some(0x23),
        UiKey::PageUp => Some(0x21),
        UiKey::PageDown => Some(0x22),
        UiKey::F1 => Some(0x70),
        UiKey::F2 => Some(0x71),
        UiKey::F3 => Some(0x72),
        UiKey::F4 => Some(0x73),
        UiKey::F5 => Some(0x74),
        UiKey::F6 => Some(0x75),
        UiKey::F7 => Some(0x76),
        UiKey::F8 => Some(0x77),
        UiKey::F9 => Some(0x78),
        UiKey::F10 => Some(0x79),
        UiKey::F11 => Some(0x7A),
        UiKey::F12 => Some(0x7B),
        UiKey::Other => None,
    }
}

/// Translates a key of the VNC view and the Shift state to an X11 keysym.
pub fn map_ui_key_to_keysym(key: UiKey, is_shift: bool) -> (r: Option<u32>)
    ensures
        r == (match ui_key_vk(key) {
            Some(vk) => vk_keysym(vk, is_shift),
            None => None::<u32>,
        }),
        r == ui_key_keysym(key, is_shift),
{
    match key {
        UiKey::A => Some(if is_shift { 'A' as u32 } else { 'a' as u32 }),
        UiKey::B => Some(if is_shift { 'B' as u32 } else { 'b' as u32 }),
        UiKey::C => Some(if is_shift { 'C' as u32 } else { 'c' as u32 }),
        UiKey::D => Some(if is_shift { 'D' as u32 } else { 'd' as u32 }),
        UiKey::E => Some(if is_shift { 'E' as u32 } else { 'e' as u32 }),
        UiKey::F => Some(if is_shift { 'F' as u32 } else { 'f' as u32 }),
        UiKey::G => Some(if is_shift { 'G' as u32 } else { 'g' as u32 }),
        UiKey::H => Some(if is_shift { 'H' as u32 } else { 'h' as u32 }),
        UiKey::I => Some(if is_shift { 'I' as u32 } else { 'i' as u32 }),
        UiKey::J => Some(if is_shift { 'J' as u32 } else { 'j' as u32 }),
        UiKey::K => Some(if is_shift { 'K' as u32 } else { 'k' as u32 }),
        UiKey::L => Some(if is_shift { 'L' as u32 } else { 'l' as u32 }),
        UiKey::M => Some(if is_shift { 'M' as u32 } else { 'm' as u32 }),
        UiKey::N => Some(if is_shift { 'N' as u32 } else { 'n' as u32 }),
        UiKey::O => Some(if is_shift { 'O' as u32 } else { 'o' as u32 }),
        UiKey::P => Some(if is_shift { 'P' as u32 } else { 'p' as u32 }),
        UiKey::Q => Some(if is_shift { 'Q' as u32 } else { 'q' as u32 }),
        UiKey::R => Some(if is_shift { 'R' as u32 } else { 'r' as u32 }),
        UiKey::S => Some(if is_shift { 'S' as u32 } else { 's' as u32 }),
        UiKey::T => Some(if is_shift { 'T' as u32 } else { 't' as u32 }),
        UiKey::U => Some(if is_shift { 'U' as u32 } else { 'u' as u32 }),
        UiKey::V => Some(if is_shift { 'V' as u32 } else { 'v' as u32 }),
        UiKey::W => Some(if is_shift { 'W' as u32 } else { 'w' as u32 }),
        UiKey::X => Some(if is_shift { 'X' as u32 } else { 'x' as u32 }),
        UiKey::Y => Some(if is_shift { 'Y' as u32 } else { 'y' as u32 }),
        UiKey::Z => Some(if is_shift { 'Z' as u32 } else { 'z' as u32 }),
        UiKey::Num0 => Some(if is_shift { ')' as u32 } else { '0' as u32 }),
        UiKey::Num1 => Some(if is_shift { '!' as u32 } else { '1' as u32 }),
        UiKey::Num2 => Some(if is_shift { '@' as u32 } else { '2' as u32 }),
        UiKey::Num3 => Some(if is_shift { '#' as u32 } else { '3' as u32 }),
        UiKey::Num4 => Some(if is_shift { '$' as u32 } else { '4' as u32 }),
        UiKey::Num5 => Some(if is_shift { '%' as u32 } else { '5' as u32 }),
        UiKey::Num6 => Some(if is_shift { '^' as u32 } else { '6' as u32 }),
        UiKey::Num7 => Some(if is_shift { '&' as u32 } else { '7' as u32 }),
        UiKey::Num8 => Some(if is_shift { '*' as u32 } else { '8' as u32 }),
        UiKey::Num9 => Some(if is_shift { '(' as u32 } else { '9' as u32 }),
        UiKey::Backspace => Some(XK_BACKSPACE),
        UiKey::Tab => Some(XK_TAB),
        UiKey::Enter => Some(XK_RETURN),
        UiKey::Escape => Some(XK_ESCAPE),
        UiKey::Space => Some(' ' as u32),
        UiKey::Delete => Some(XK_DELETE),
        UiKey::ArrowLeft => Some(XK_LEFT),
        UiKey::ArrowUp => Some(XK_UP),
        UiKey::ArrowRight => Some(XK_RIGHT),
        UiKey::ArrowDown => Some(XK_DOWN),
        UiKey::Home => Some(XK_HOME),
        UiKey::End => Some(XK_END),
        UiKey::PageUp => Some(XK_PAGE_UP),
        UiKey::PageDown => Some(XK_PAGE_DOWN),
        UiKey::F1 => Some(XK_F1),
        UiKey::F2 => Some(XK_F2),
        UiKey::F3 => Some(XK_F3),
        UiKey::F4 => Some(XK_F4),
        UiKey::F5 => Some(XK_F5),
        UiKey::F6 => Some(XK_F6),
        UiKey::F7 => Some(XK_F7),
        UiKey::F8 => Some(XK_F8),
        UiKey::F9 => Some(XK_F9),
        UiKey::F10 => Some(XK_F10),
        UiKey::F11 => Some(XK_F11),
        UiKey::F12 => Some(XK_F12),
        UiKey::Other => None,
    }
}
/// Whether Shift changes what a key types, no key gains or loses a keysym
/// with Shift: the table covers the same keys either way.
pub proof fn lemma_shift_keeps_coverage(vk: u16)
    ensures
        vk_keysym(vk, true).is_some() == vk_keysym(vk, false).is_some(),
{
}

/// A letter key types the lower-case letter without Shift and the
/// upper-case one with it, 0x20 apart.
pub proof fn lemma_letters_case(vk: u16)
    requires
        is_letter_vk(vk),
    ensures
        vk_keysym(vk, false) == Some((vk + 0x20) as u32),
        vk_keysym(vk, true) == Some(vk as u32),
        'a' as u32 <= vk + 0x20 <= 'z' as u32,
{
}

/// A key outside the Shift table gives the same keysym with or without
/// Shift.
pub proof fn lemma_unshiftable_keys_ignore_shift(vk: u16)
    requires
        shifted_pair(vk).is_none(),
    ensures
        vk_keysym(vk, true) == vk_keysym(vk, false),
{
}

/// Every keysym of the table is either a printable ASCII character or one
/// of the X11 function keysyms (0xFF00 to 0xFFFF).
pub proof fn lemma_keysym_ranges(vk: u16, is_shift: bool)
    ensures
        vk_keysym(vk, is_shift) matches Some(k) ==> (0x20 <= k <= 0x7E || 0xFF00 <= k <= 0xFFFF),
{
}

/// The Alt keys type Command and the Windows keys type Option on the Mac.
pub proof fn lemma_mac_modifier_swap(is_shift: bool)
    ensures
        vk_keysym(0x12, is_shift) == Some(XK_SUPER_L),
        vk_keysym(0xA4, is_shift) == Some(XK_SUPER_L),
        vk_keysym(0xA5, is_shift) == Some(XK_SUPER_R),
        vk_keysym(0x5B, is_shift) == Some(XK_ALT_L),
        vk_keysym(0x5C, is_shift) == Some(XK_ALT_R),
{
}

/// The VNC view and the input hooks translate the same key to the same
/// keysym.
pub proof fn lemma_ui_keys_agree_with_vk(key: UiKey, is_shift: bool)
    requires
        ui_key_vk(key).is_some(),
    ensures
        vk_keysym(ui_key_vk(key).unwrap(), is_shift).is_some(),
{
}

/// The Windows key table, written out: letters give the lower-case letter
/// (the code plus 0x20) without Shift and the upper-case one (the code)
/// with it; the digit row and the US punctuation keys give their unshifted
/// or shifted character; control, navigation, modifier, function and
/// keypad keys give their keysym whatever Shift; every other code gives
/// none.
pub proof fn lemma_vk_table(vk: u16, shift: bool)
    ensures
        0x41 <= vk <= 0x5A ==> vk_keysym(vk, shift) == Some(if shift { vk as u32 } else { (vk + 0x20) as u32 }),
        vk_keysym(0x30, shift) == Some(if shift { 0x29u32 } else { 0x30u32 }),
        vk_keysym(0x31, shift) == Some(if shift { 0x21u32 } else { 0x31u32 }),
        vk_keysym(0x32, shift) == Some(if shift { 0x40u32 } else { 0x32u32 }),
        vk_keysym(0x33, shift) == Some(if shift { 0x23u32 } else { 0x33u32 }),
        vk_keysym(0x34, shift) == Some(if shift { 0x24u32 } else { 0x34u32 }),
        vk_keysym(0x35, shift) == Some(if shift { 0x25u32 } else { 0x35u32 }),
        vk_keysym(0x36, shift) == Some(if shift { 0x5Eu32 } else { 0x36u32 }),
        vk_keysym(0x37, shift) == Some(if shift { 0x26u32 } else { 0x37u32 }),
        vk_keysym(0x38, shift) == Some(if shift { 0x2Au32 } else { 0x38u32 }),
        vk_keysym(0x39, shift) == Some(if shift { 0x28u32 } else { 0x39u32 }),
        vk_keysym(0xBA, shift) == Some(if shift { 0x3Au32 } else { 0x3Bu32 }),
        vk_keysym(0xBB, shift) == Some(if shift { 0x2Bu32 } else { 0x3Du32 }),
        vk_keysym(0xBC, shift) == Some(if shift { 0x3Cu32 } else { 0x2Cu32 }),
        vk_keysym(0xBD, shift) == Some(if shift { 0x5Fu32 } else { 0x2Du32 }),
        vk_keysym(0xBE, shift) == Some(if shift { 0x3Eu32 } else { 0x2Eu32 }),
        vk_keysym(0xBF, shift) == Some(if shift { 0x3Fu32 } else { 0x2Fu32 }),
        vk_keysym(0xC0, shift) == Some(if shift { 0x7Eu32 } else { 0x60u32 }),
        vk_keysym(0xDB, shift) == Some(if shift { 0x7Bu32 } else { 0x5Bu32 }),
        vk_keysym(0xDC, shift) == Some(if shift { 0x7Cu32 } else { 0x5Cu32 }),
        vk_keysym(0xDD, shift) == Some(if shift { 0x7Du32 } else { 0x5Du32 }),
        vk_keysym(0xDE, shift) == Some(if shift { 0x22u32 } else { 0x27u32 }),
        vk_keysym(0x08, shift) == Some(0xFF08u32),
        vk_keysym(0x09, shift) == Some(0xFF09u32),
        vk_keysym(0x0D, shift) == Some(0xFF0Du32),
        vk_keysym(0x1B, shift) == Some(0xFF1Bu32),
        vk_keysym(0x20, shift) == Some(0x0020u32),
        vk_keysym(0x21, shift) == Some(0xFF55u32),
        vk_keysym(0x22, shift) == Some(0xFF56u32),
        vk_keysym(0x23, shift) == Some(0xFF57u32),
        vk_keysym(0x24, shift) == Some(0xFF50u32),
        vk_keysym(0x25, shift) == Some(0xFF51u32),
        vk_keysym(0x26, shift) == Some(0xFF52u32),
        vk_keysym(0x27, shift) == Some(0xFF53u32),
        vk_keysym(0x28, shift) == Some(0xFF54u32),
        vk_keysym(0x2E, shift) == Some(0xFFFFu32),
        vk_keysym(0x10, shift) == Some(0xFFE1u32),
        vk_keysym(0xA0, shift) == Some(0xFFE1u32),
        vk_keysym(0xA1, shift) == Some(0xFFE2u32),
        vk_keysym(0x11, shift) == Some(0xFFE3u32),
        vk_keysym(0xA2, shift) == Some(0xFFE3u32),
        vk_keysym(0xA3, shift) == Some(0xFFE4u32),
        vk_keysym(0x12, shift) == Some(0xFFEBu32),
        vk_keysym(0xA4, shift) == Some(0xFFEBu32),
        vk_keysym(0xA5, shift) == Some(0xFFECu32),
        vk_keysym(0x5B, shift) == Some(0xFFE9u32),
        vk_keysym(0x5C, shift) == Some(0xFFEAu32),
        vk_keysym(0x14, shift) == Some(0xFFE5u32),
        vk_keysym(0x70, shift) == Some(0xFFBEu32),
        vk_keysym(0x71, shift) == Some(0xFFBFu32),
        vk_keysym(0x72, shift) == Some(0xFFC0u32),
        vk_keysym(0x73, shift) == Some(0xFFC1u32),
        vk_keysym(0x74, shift) == Some(0xFFC2u32),
        vk_keysym(0x75, shift) == Some(0xFFC3u32),
        vk_keysym(0x76, shift) == Some(0xFFC4u32),
        vk_keysym(0x77, shift) == Some(0xFFC5u32),
        vk_keysym(0x78, shift) == Some(0xFFC6u32),
        vk_keysym(0x79, shift) == Some(0xFFC7u32),
        vk_keysym(0x7A, shift) == Some(0xFFC8u32),
        vk_keysym(0x7B, shift) == Some(0xFFC9u32),
        vk_keysym(0x60, shift) == Some(0x0030u32),
        vk_keysym(0x61, shift) == Some(0x0031u32),
        vk_keysym(0x62, shift) == Some(0x0032u32),
        vk_keysym(0x63, shift) == Some(0x0033u32),
        vk_keysym(0x64, shift) == Some(0x0034u32),
        vk_keysym(0x65, shift) == Some(0x0035u32),
        vk_keysym(0x66, shift) == Some(0x0036u32),
        vk_keysym(0x67, shift) == Some(0x0037u32),
        vk_keysym(0x68, shift) == Some(0x0038u32),
        vk_keysym(0x69, shift) == Some(0x0039u32),
        vk_keysym(0x6A, shift) == Some(0x002Au32),
        vk_keysym(0x6B, shift) == Some(0x002Bu32),
        vk_keysym(0x6D, shift) == Some(0x002Du32),
        vk_keysym(0x6E, shift) == Some(0x002Eu32),
        vk_keysym(0x6F, shift) == Some(0x002Fu32),
        !(0x41 <= vk <= 0x5A || vk == 0x08 || vk == 0x09 || vk == 0x0D || vk == 0x10 || vk == 0x11 || vk == 0x12 || vk == 0x14
            || vk == 0x1B || vk == 0x20 || vk == 0x21 || vk == 0x22 || vk == 0x23 || vk == 0x24 || vk == 0x25 || vk == 0x26
            || vk == 0x27 || vk == 0x28 || vk == 0x2E || vk == 0x30 || vk == 0x31 || vk == 0x32 || vk == 0x33 || vk == 0x34
            || vk == 0x35 || vk == 0x36 || vk == 0x37 || vk == 0x38 || vk == 0x39 || vk == 0x5B || vk == 0x5C || vk == 0x60
            || vk == 0x61 || vk == 0x62 || vk == 0x63 || vk == 0x64 || vk == 0x65 || vk == 0x66 || vk == 0x67 || vk == 0x68
            || vk == 0x69 || vk == 0x6A || vk == 0x6B || vk == 0x6D || vk == 0x6E || vk == 0x6F || vk == 0x70 || vk == 0x71
            || vk == 0x72 || vk == 0x73 || vk == 0x74 || vk == 0x75 || vk == 0x76 || vk == 0x77 || vk == 0x78 || vk == 0x79
            || vk == 0x7A || vk == 0x7B || vk == 0xA0 || vk == 0xA1 || vk == 0xA2 || vk == 0xA3 || vk == 0xA4 || vk == 0xA5
            || vk == 0xBA || vk == 0xBB || vk == 0xBC || vk == 0xBD || vk == 0xBE || vk == 0xBF || vk == 0xC0 || vk == 0xDB
            || vk == 0xDC || vk == 0xDD || vk == 0xDE) ==> vk_keysym(vk, shift).is_none(),
{
}

/// The keysym a key of the VNC view types, as `map_ui_key_to_keysym`
/// gives it.
pub open spec fn ui_key_keysym(key: UiKey, is_shift: bool) -> Option<u32> {
    match ui_key_vk(key) {
        Some(vk) => vk_keysym(vk, is_shift),
        None => None::<u32>,
    }
}

/// The VNC view's key table, written out: each key types its own keysym,
/// letters and the digit row following Shift, every other named key the
/// same keysym either way, and `Other` none.
pub proof fn lemma_ui_key_table(shift: bool)
    ensures
        ui_key_keysym(UiKey::A, shift) == Some(if shift { 0x41u32 } else { 0x61u32 }),
        ui_key_keysym(UiKey::B, shift) == Some(if shift { 0x42u32 } else { 0x62u32 }),
        ui_key_keysym(UiKey::C, shift) == Some(if shift { 0x43u32 } else { 0x63u32 }),
        ui_key_keysym(UiKey::D, shift) == Some(if shift { 0x44u32 } else { 0x64u32 }),
        ui_key_keysym(UiKey::E, shift) == Some(if shift { 0x45u32 } else { 0x65u32 }),
        ui_key_keysym(UiKey::F, shift) == Some(if shift { 0x46u32 } else { 0x66u32 }),
        ui_key_keysym(UiKey::G, shift) == Some(if shift { 0x47u32 } else { 0x67u32 }),
        ui_key_keysym(UiKey::H, shift) == Some(if shift { 0x48u32 } else { 0x68u32 }),
        ui_key_keysym(UiKey::I, shift) == Some(if shift { 0x49u32 } else { 0x69u32 }),
        ui_key_keysym(UiKey::J, shift) == Some(if shift { 0x4Au32 } else { 0x6Au32 }),
        ui_key_keysym(UiKey::K, shift) == Some(if shift { 0x4Bu32 } else { 0x6Bu32 }),
        ui_key_keysym(UiKey::L, shift) == Some(if shift { 0x4Cu32 } else { 0x6Cu32 }),
        ui_key_keysym(UiKey::M, shift) == Some(if shift { 0x4Du32 } else { 0x6Du32 }),
        ui_key_keysym(UiKey::N, shift) == Some(if shift { 0x4Eu32 } else { 0x6Eu32 }),
        ui_key_keysym(UiKey::O, shift) == Some(if shift { 0x4Fu32 } else { 0x6Fu32 }),
        ui_key_keysym(UiKey::P, shift) == Some(if shift { 0x50u32 } else { 0x70u32 }),
        ui_key_keysym(UiKey::Q, shift) == Some(if shift { 0x51u32 } else { 0x71u32 }),
        ui_key_keysym(UiKey::R, shift) == Some(if shift { 0x52u32 } else { 0x72u32 }),
        ui_key_keysym(UiKey::S, shift) == Some(if shift { 0x53u32 } else { 0x73u32 }),
        ui_key_keysym(UiKey::T, shift) == Some(if shift { 0x54u32 } else { 0x74u32 }),
        ui_key_keysym(UiKey::U, shift) == Some(if shift { 0x55u32 } else { 0x75u32 }),
        ui_key_keysym(UiKey::V, shift) == Some(if shift { 0x56u32 } else { 0x76u32 }),
        ui_key_keysym(UiKey::W, shift) == Some(if shift { 0x57u32 } else { 0x77u32 }),
        ui_key_keysym(UiKey::X, shift) == Some(if shift { 0x58u32 } else { 0x78u32 }),
        ui_key_keysym(UiKey::Y, shift) == Some(if shift { 0x59u32 } else { 0x79u32 }),
        ui_key_keysym(UiKey::Z, shift) == Some(if shift { 0x5Au32 } else { 0x7Au32 }),
        ui_key_keysym(UiKey::Num0, shift) == Some(if shift { 0x29u32 } else { 0x30u32 }),
        ui_key_keysym(UiKey::Num1, shift) == Some(if shift { 0x21u32 } else { 0x31u32 }),
        ui_key_keysym(UiKey::Num2, shift) == Some(if shift { 0x40u32 } else { 0x32u32 }),
        ui_key_keysym(UiKey::Num3, shift) == Some(if shift { 0x23u32 } else { 0x33u32 }),
        ui_key_keysym(UiKey::Num4, shift) == Some(if shift { 0x24u32 } else { 0x34u32 }),
        ui_key_keysym(UiKey::Num5, shift) == Some(if shift { 0x25u32 } else { 0x35u32 }),
        ui_key_keysym(UiKey::Num6, shift) == Some(if shift { 0x5Eu32 } else { 0x36u32 }),
        ui_key_keysym(UiKey::Num7, shift) == Some(if shift { 0x26u32 } else { 0x37u32 }),
        ui_key_keysym(UiKey::Num8, shift) == Some(if shift { 0x2Au32 } else { 0x38u32 }),
        ui_key_keysym(UiKey::Num9, shift) == Some(if shift { 0x28u32 } else { 0x39u32 }),
        ui_key_keysym(UiKey::Backspace, shift) == Some(0xFF08u32),
        ui_key_keysym(UiKey::Tab, shift) == Some(0xFF09u32),
        ui_key_keysym(UiKey::Enter, shift) == Some(0xFF0Du32),
        ui_key_keysym(UiKey::Escape, shift) == Some(0xFF1Bu32),
        ui_key_keysym(UiKey::Space, shift) == Some(0x0020u32),
        ui_key_keysym(UiKey::Delete, shift) == Some(0xFFFFu32),
        ui_key_keysym(UiKey::ArrowLeft, shift) == Some(0xFF51u32),
        ui_key_keysym(UiKey::ArrowUp, shift) == Some(0xFF52u32),
        ui_key_keysym(UiKey::ArrowRight, shift) == Some(0xFF53u32),
        ui_key_keysym(UiKey::ArrowDown, shift) == Some(0xFF54u32),
        ui_key_keysym(UiKey::Home, shift) == Some(0xFF50u32),
        ui_key_keysym(UiKey::End, shift) == Some(0xFF57u32),
        ui_key_keysym(UiKey::PageUp, shift) == Some(0xFF55u32),
        ui_key_keysym(UiKey::PageDown, shift) == Some(0xFF56u32),
        ui_key_keysym(UiKey::F1, shift) == Some(0xFFBEu32),
        ui_key_keysym(UiKey::F2, shift) == Some(0xFFBFu32),
        ui_key_keysym(UiKey::F3, shift) == Some(0xFFC0u32),
        ui_key_keysym(UiKey::F4, shift) == Some(0xFFC1u32),
        ui_key_keysym(UiKey::F5, shift) == Some(0xFFC2u32),
        ui_key_keysym(UiKey::F6, shift) == Some(0xFFC3u32),
        ui_key_keysym(UiKey::F7, shift) == Some(0xFFC4u32),
        ui_key_keysym(UiKey::F8, shift) == Some(0xFFC5u32),
        ui_key_keysym(UiKey::F9, shift) == Some(0xFFC6u32),
        ui_key_keysym(UiKey::F10, shift) == Some(0xFFC7u32),
        ui_key_keysym(UiKey::F11, shift) == Some(0xFFC8u32),
        ui_key_keysym(UiKey::F12, shift) == Some(0xFFC9u32),
        ui_key_keysym(UiKey::Other, shift).is_none(),
{
}

} // verus!
