//! The UDP packet format spoken to the Mac-side receiver.
//!
//! Every packet starts with the two magic bytes `M`, `C` and a type byte;
//! multi-byte fields follow in little-endian order.
use crate::wire::{le2, le4, le8, le8_value, push_i32_le, push_u16_le, push_u32_le, push_u64_le, read_u64_le, lemma_le8_roundtrip};
use vstd::prelude::*;

verus! {

/// First magic byte of every packet: `'M'`.
pub const MAGIC0: u8 = 0x4D;

/// Second magic byte of every packet: `'C'`.
pub const MAGIC1: u8 = 0x43;

/// The kinds of packet, each with its type byte on the wire.
#[derive(Debug, Clone, Copy, PartialEq, Eq, Structural)]
pub enum PacketType {
    MouseMoveRelative,
    MouseMoveAbsolute,
    MouseButton,
    MouseWheel,
    KeyEvent,
    Ping,
    Pong,
    ResetModifiers,
}

impl PacketType {
    /// The type byte of this kind of packet.
    pub open spec fn wire_code(self) -> u8 {
        match self {
            PacketType::MouseMoveRelative => 0x01,
            PacketType::MouseMoveAbsolute => 0x02,
            PacketType::MouseButton => 0x03,
            PacketType::MouseWheel => 0x04,
            PacketType::KeyEvent => 0x05,
            PacketType::Ping => 0x06,
            PacketType::Pong => 0x07,
            PacketType::ResetModifiers => 0x08,
        }
    }

    /// The type byte of this kind of packet.
    pub fn code(self) -> (c: u8)
        ensures
            c == self.wire_code(),
    {
        match self {
            PacketType::MouseMoveRelative => 0x01,
            PacketType::MouseMoveAbsolute => 0x02,
            PacketType::MouseButton => 0x03,
            PacketType::MouseWheel => 0x04,
            PacketType::KeyEvent => 0x05,
            PacketType::Ping => 0x06,
            PacketType::Pong => 0x07,
            PacketType::ResetModifiers => 0x08,
        }
    }
}

/// Mouse buttons, each with its number on the wire.
#[derive(Debug, Clone, Copy, PartialEq, Eq, Structural)]
pub enum MouseButtonId {
    Left,
    Right,
    Middle,
    Back,
    Forward,
}

impl MouseButtonId {
    /// The number of this button on the wire.
    pub open spec fn wire_code(self) -> u8 {
        match self {
            MouseButtonId::Left => 0,
            MouseButtonId::Right => 1,
            MouseButtonId::Middle => 2,
            MouseButtonId::Back => 3,
            MouseButtonId::Forward => 4,
        }
    }

    /// The number of this button on the wire.
    pub fn code(self) -> (c: u8)
        ensures
            c == self.wire_code(),
    {
        match self {
            MouseButtonId::Left => 0,
            MouseButtonId::Right => 1,
            MouseButtonId::Middle => 2,
            MouseButtonId::Back => 3,
            MouseButtonId::Forward => 4,
        }
    }
}

/// Whether a mouse button goes up or down.
#[derive(Debug, Clone, Copy, PartialEq, Eq, Structural)]
pub enum ButtonAction {
    Release,
    Press,
}

impl ButtonAction {
    /// The number of this action on the wire.
    pub open spec fn wire_code(self) -> u8 {
        match self {
            ButtonAction::Release => 0,
            ButtonAction::Press => 1,
        }
    }

    /// The number of this action on the wire.
    pub fn code(self) -> (c: u8)
        ensures
            c == self.wire_code(),
    {
        match self {
            ButtonAction::Release => 0,
            ButtonAction::Press => 1,
        }
    }
}

/// Whether a key goes up or down.
#[derive(Debug, Clone, Copy, PartialEq, Eq, Structural)]
pub enum KeyAction {
    KeyUp,
    KeyDown,
}

impl KeyAction {
    /// The number of this action on the wire.
    pub open spec fn wire_code(self) -> u8 {
        match self {
            KeyAction::KeyUp => 0,
            KeyAction::KeyDown => 1,
        }
    }

    /// The number of this action on the wire.
    pub fn code(self) -> (c: u8)
        ensures
            c == self.wire_code(),
    {
        match self {
            KeyAction::KeyUp => 0,
            KeyAction::KeyDown => 1,
        }
    }
}

/// `bits` with the bits of `mask` set when `on`, cleared otherwise.
pub open spec fn with_flag(bits: u8, mask: u8, on: bool) -> u8 {
    if on {
        bits | mask
    } else {
        bits & !mask
    }
}

/// Whether any bit of `mask` is set in `bits`.
pub open spec fn has_flag(bits: u8, mask: u8) -> bool {
    bits & mask != 0
}

/// The modifier keys held down with a key event, one bit each.
#[derive(Debug, Clone, Copy, Default)]
pub struct ModifierFlags(pub u8);

impl ModifierFlags {
    /// The bit of the Shift modifier.
    pub const SHIFT: u8 = 1;

    /// The bit of the Control modifier.
    pub const CTRL: u8 = 2;

    /// The bit of the Alt (Option on the Mac) modifier.
    pub const ALT: u8 = 4;

    /// The bit of the Windows (Command on the Mac) modifier.
    pub const WIN: u8 = 8;

    /// No modifier held.
    pub fn new() -> (r: Self)
        ensures
            r.0 == 0,
    {
        ModifierFlags(0)
    }

    /// Sets or clears the Shift bit.
    pub fn set_shift(&mut self, on: bool)
        ensures
            final(self).0 == with_flag(old(self).0, ModifierFlags::SHIFT, on),
    {
        if on {
            self.0 = self.0 | ModifierFlags::SHIFT;
        } else {
            self.0 = self.0 & !ModifierFlags::SHIFT;
        }
    }

    /// Sets or clears the Control bit.
    pub fn set_ctrl(&mut self, on: bool)
        ensures
            final(self).0 == with_flag(old(self).0, ModifierFlags::CTRL, on),
    {
        if on {
            self.0 = self.0 | ModifierFlags::CTRL;
        } else {
            self.0 = self.0 & !ModifierFlags::CTRL;
        }
    }

    /// Sets or clears the Alt bit.
    pub fn set_alt(&mut self, on: bool)
        ensures
            final(self).0 == with_flag(old(self).0, ModifierFlags::ALT, on),
    {
        if on {
            self.0 = self.0 | ModifierFlags::ALT;
        } else {
            self.0 = self.0 & !ModifierFlags::ALT;
        }
    }

    /// Sets or clears the Windows bit.
    pub fn set_win(&mut self, on: bool)
        ensures
            final(self).0 == with_flag(old(self).0, ModifierFlags::WIN, on),
    {
        if on {
            self.0 = self.0 | ModifierFlags::WIN;
        } else {
            self.0 = self.0 & !ModifierFlags::WIN;
        }
    }
}

/// Setting or clearing one modifier leaves that modifier in the state asked
/// for and every other modifier as it was.
pub proof fn lemma_with_flag_touches_only_its_bit(bits: u8, mask: u8, other: u8, on: bool)
    requires
        mask == ModifierFlags::SHIFT || mask == ModifierFlags::CTRL || mask == ModifierFlags::ALT || mask == ModifierFlags::WIN,
        other == ModifierFlags::SHIFT || other == ModifierFlags::CTRL || other == ModifierFlags::ALT || other == ModifierFlags::WIN,
        other != mask,
    ensures
        has_flag(with_flag(bits, mask, on), mask) == on,
        has_flag(with_flag(bits, mask, on), other) == has_flag(bits, other),
{
    assert((bits | mask) & mask != 0 || !(mask == 1u8 || mask == 2u8 || mask == 4u8 || mask == 8u8))
        by (bit_vector);
    assert((bits & !mask) & mask == 0) by (bit_vector);
    assert((mask == 1u8 || mask == 2u8 || mask == 4u8 || mask == 8u8) && (other == 1u8 || other
        == 2u8 || other == 4u8 || other == 8u8) && other != mask ==> ((bits | mask) & other == bits
        & other) && ((bits & !mask) & other == bits & other)) by (bit_vector);
}

/// Setting one modifier twice is the same as setting it once to the last
/// value, whatever came first.
pub proof fn lemma_with_flag_last_write_wins(bits: u8, mask: u8, first: bool, second: bool)
    ensures
        with_flag(with_flag(bits, mask, first), mask, second) == with_flag(bits, mask, second),
{
    assert(((bits | mask) | mask) == bits | mask) by (bit_vector);
    assert(((bits & !mask) | mask) == bits | mask) by (bit_vector);
    assert(((bits | mask) & !mask) == bits & !mask) by (bit_vector);
    assert(((bits & !mask) & !mask) == bits & !mask) by (bit_vector);
}

/// Two different modifiers can be set in either order with the same result.
pub proof fn lemma_with_flag_commutes(bits: u8, a: u8, b: u8, on_a: bool, on_b: bool)
    requires
        a == ModifierFlags::SHIFT || a == ModifierFlags::CTRL || a == ModifierFlags::ALT || a == ModifierFlags::WIN,
        b == ModifierFlags::SHIFT || b == ModifierFlags::CTRL || b == ModifierFlags::ALT || b == ModifierFlags::WIN,
        a != b,
    ensures
        with_flag(with_flag(bits, a, on_a), b, on_b) == with_flag(with_flag(bits, b, on_b), a, on_a),
{
    assert((a & b == 0) ==> ((bits | a) | b == (bits | b) | a) && ((bits & !a) | b == (bits | b)
        & !a) && ((bits | a) & !b == (bits & !b) | a) && ((bits & !a) & !b == (bits & !b) & !a))
        by (bit_vector);
    assert((a == 1u8 || a == 2u8 || a == 4u8 || a == 8u8) && (b == 1u8 || b == 2u8 || b == 4u8 || b
        == 8u8) && a != b ==> a & b == 0) by (bit_vector);
}

/// The three bytes that open every packet of type `t`.
pub open spec fn header(t: PacketType) -> Seq<u8> {
    seq![MAGIC0, MAGIC1, t.wire_code()]
}

/// The number of bytes of a packet of type `t`.
pub open spec fn packet_len(t: PacketType) -> nat {
    match t {
        PacketType::MouseMoveRelative => 11,
        PacketType::MouseMoveAbsolute => 11,
        PacketType::MouseButton => 5,
        PacketType::MouseWheel => 11,
        PacketType::KeyEvent => 7,
        PacketType::Ping => 11,
        PacketType::Pong => 11,
        PacketType::ResetModifiers => 3,
    }
}

/// A relative mouse move by `dx`, `dy` pixels.
pub open spec fn mouse_move_relative_bytes(dx: i32, dy: i32) -> Seq<u8> {
    header(PacketType::MouseMoveRelative) + le4(dx as u32) + le4(dy as u32)
}

/// An absolute mouse position, each coordinate given by the bits of an
/// IEEE-754 single-precision number.
pub open spec fn mouse_move_absolute_bytes(x_bits: u32, y_bits: u32) -> Seq<u8> {
    header(PacketType::MouseMoveAbsolute) + le4(x_bits) + le4(y_bits)
}

/// A button press or release.
pub open spec fn mouse_button_bytes(button: MouseButtonId, action: ButtonAction) -> Seq<u8> {
    header(PacketType::MouseButton) + seq![button.wire_code(), action.wire_code()]
}

/// A scroll by `delta_x`, `delta_y` wheel units.
pub open spec fn mouse_wheel_bytes(delta_x: i32, delta_y: i32) -> Seq<u8> {
    header(PacketType::MouseWheel) + le4(delta_x as u32) + le4(delta_y as u32)
}

/// A key going up or down, with the Windows virtual-key code and the
/// modifiers held.
pub open spec fn key_event_bytes(win_vk: u16, action: KeyAction, modifiers: u8) -> Seq<u8> {
    header(PacketType::KeyEvent) + le2(win_vk) + seq![action.wire_code(), modifiers]
}

/// A ping carrying a timestamp in milliseconds.
pub open spec fn ping_bytes(timestamp: u64) -> Seq<u8> {
    header(PacketType::Ping) + le8(timestamp)
}

/// The receiver's answer to a ping: the same timestamp under the pong type.
pub open spec fn pong_bytes(timestamp: u64) -> Seq<u8> {
    header(PacketType::Pong) + le8(timestamp)
}

/// A request to release every modifier on the Mac.
pub open spec fn reset_modifiers_bytes() -> Seq<u8> {
    header(PacketType::ResetModifiers)
}

/// Builds the packets sent to the receiver.
pub struct PacketSerializer;

impl PacketSerializer {
    /// Relative mouse move by `dx`, `dy`.
    pub fn mouse_move_relative(dx: i32, dy: i32) -> (r: Vec<u8>)
        ensures
            r@ == mouse_move_relative_bytes(dx, dy),
    {
        let mut buf: Vec<u8> = Vec::with_capacity(11);
        buf.push(MAGIC0);
        buf.push(MAGIC1);
        buf.push(PacketType::MouseMoveRelative.code());
        push_i32_le(&mut buf, dx);
        push_i32_le(&mut buf, dy);
        buf
    }

    /// Absolute mouse position; the coordinates come as the bits of the
    /// single-precision numbers, in `[0, 1]` across the screen.
    pub fn mouse_move_absolute_bits(x_bits: u32, y_bits: u32) -> (r: Vec<u8>)
        ensures
            r@ == mouse_move_absolute_bytes(x_bits, y_bits),
    {
        let mut buf: Vec<u8> = Vec::with_capacity(11);
        buf.push(MAGIC0);
        buf.push(MAGIC1);
        buf.push(PacketType::MouseMoveAbsolute.code());
        push_u32_le(&mut buf, x_bits);
        push_u32_le(&mut buf, y_bits);
        buf
    }

    /// Button press or release.
    pub fn mouse_button(button: MouseButtonId, action: ButtonAction) -> (r: Vec<u8>)
        ensures
            r@ == mouse_button_bytes(button, action),
    {
        let r = vec![MAGIC0, MAGIC1, PacketType::MouseButton.code(), button.code(), action.code()];
        assert(r@ =~= mouse_button_bytes(button, action));
        r
    }

    /// Scroll by `delta_x`, `delta_y`.
    pub fn mouse_wheel(delta_x: i32, delta_y: i32) -> (r: Vec<u8>)
        ensures
            r@ == mouse_wheel_bytes(delta_x, delta_y),
    {
        let mut buf: Vec<u8> = Vec::with_capacity(11);
        buf.push(MAGIC0);
        buf.push(MAGIC1);
        buf.push(PacketType::MouseWheel.code());
        push_i32_le(&mut buf, delta_x);
        push_i32_le(&mut buf, delta_y);
        buf
    }

    /// Key down or up, with the modifiers held.
    pub fn key_event(win_vk: u16, action: KeyAction, modifiers: ModifierFlags) -> (r: Vec<u8>)
        ensures
            r@ == key_event_bytes(win_vk, action, modifiers.0),
    {
        let mut buf: Vec<u8> = Vec::with_capacity(7);
        buf.push(MAGIC0);
        buf.push(MAGIC1);
        buf.push(PacketType::KeyEvent.code());
        push_u16_le(&mut buf, win_vk);
        buf.push(action.code());
        buf.push(modifiers.0);
        assert(buf@ =~= key_event_bytes(win_vk, action, modifiers.0));
        buf
    }

    /// Ping with a timestamp in milliseconds.
    pub fn ping(timestamp: u64) -> (r: Vec<u8>)
        ensures
            r@ == ping_bytes(timestamp),
    {
        let mut buf: Vec<u8> = Vec::with_capacity(11);
        buf.push(MAGIC0);
        buf.push(MAGIC1);
        buf.push(PacketType::Ping.code());
        push_u64_le(&mut buf, timestamp);
        buf
    }

    /// Release every modifier on the Mac.
    pub fn reset_modifiers() -> (r: Vec<u8>)
        ensures
            r@ == reset_modifiers_bytes(),
    {
        let r = vec![MAGIC0, MAGIC1, PacketType::ResetModifiers.code()];
        assert(r@ =~= reset_modifiers_bytes());
        r
    }
}

/// Whether `datagram` is a pong: at least eleven bytes, opened by the pong
/// header.
pub open spec fn is_pong(datagram: Seq<u8>) -> bool {
    datagram.len() >= 11 && datagram.take(3) == header(PacketType::Pong)
}

/// Reads the timestamp a pong carries back, or `None` when `datagram` is no
/// pong.
pub fn parse_pong(datagram: &[u8]) -> (r: Option<u64>)
    ensures
        r == (if is_pong(datagram@) {
            Some(le8_value(datagram@.subrange(3, 11)))
        } else {
            None::<u64>
        }),
{
    if datagram.len() >= 11 && datagram[0] == MAGIC0 && datagram[1] == MAGIC1 && datagram[2]
        == PacketType::Pong.code() {
        assert(datagram@.take(3) =~= header(PacketType::Pong));
        Some(read_u64_le(datagram, 3))
    } else {
        proof {
            if datagram@.len() >= 11 && datagram@.take(3) == header(PacketType::Pong) {
                assert(datagram@.take(3)[0] == datagram@[0]);
                assert(datagram@.take(3)[1] == datagram@[1]);
                assert(datagram@.take(3)[2] == datagram@[2]);
            }
        }
        None
    }
}

/// Every packet the serializer builds opens with its type's header and has
/// its type's length.
pub proof fn lemma_packets_are_framed(dx: i32, dy: i32, xb: u32, yb: u32, button: MouseButtonId,
    action: ButtonAction, vk: u16, key: KeyAction, mods: u8, ts: u64)
    ensures
        mouse_move_relative_bytes(dx, dy).len() == packet_len(PacketType::MouseMoveRelative),
        mouse_move_relative_bytes(dx, dy).take(3) == header(PacketType::MouseMoveRelative),
        mouse_move_absolute_bytes(xb, yb).len() == packet_len(PacketType::MouseMoveAbsolute),
        mouse_move_absolute_bytes(xb, yb).take(3) == header(PacketType::MouseMoveAbsolute),
        mouse_button_bytes(button, action).len() == packet_len(PacketType::MouseButton),
        mouse_button_bytes(button, action).take(3) == header(PacketType::MouseButton),
        mouse_wheel_bytes(dx, dy).len() == packet_len(PacketType::MouseWheel),
        mouse_wheel_bytes(dx, dy).take(3) == header(PacketType::MouseWheel),
        key_event_bytes(vk, key, mods).len() == packet_len(PacketType::KeyEvent),
        key_event_bytes(vk, key, mods).take(3) == header(PacketType::KeyEvent),
        ping_bytes(ts).len() == packet_len(PacketType::Ping),
        ping_bytes(ts).take(3) == header(PacketType::Ping),
        reset_modifiers_bytes().len() == packet_len(PacketType::ResetModifiers),
        reset_modifiers_bytes().take(3) == header(PacketType::ResetModifiers),
{
    assert(mouse_move_relative_bytes(dx, dy).take(3) =~= header(PacketType::MouseMoveRelative));
    assert(mouse_move_absolute_bytes(xb, yb).take(3) =~= header(PacketType::MouseMoveAbsolute));
    assert(mouse_button_bytes(button, action).take(3) =~= header(PacketType::MouseButton));
    assert(mouse_wheel_bytes(dx, dy).take(3) =~= header(PacketType::MouseWheel));
    assert(key_event_bytes(vk, key, mods).take(3) =~= header(PacketType::KeyEvent));
    assert(ping_bytes(ts).take(3) =~= header(PacketType::Ping));
    assert(reset_modifiers_bytes().take(3) =~= header(PacketType::ResetModifiers));
}

/// A pong read back gives the timestamp that the ping it answers carried.
pub proof fn lemma_pong_returns_ping_timestamp(ts: u64)
    ensures
        is_pong(pong_bytes(ts)),
        le8_value(pong_bytes(ts).subrange(3, 11)) == ts,
        pong_bytes(ts).subrange(3, 11) == ping_bytes(ts).subrange(3, 11),
{
    assert(pong_bytes(ts).take(3) =~= header(PacketType::Pong));
    assert(pong_bytes(ts).subrange(3, 11) =~= le8(ts));
    assert(ping_bytes(ts).subrange(3, 11) =~= le8(ts));
    lemma_le8_roundtrip(ts);
}

} // verus!
