use mac_connect_client::protocol::{
    parse_pong, ButtonAction, KeyAction, ModifierFlags, MouseButtonId, PacketSerializer, PacketType,
    MAGIC0, MAGIC1,
};

#[test]
fn magic_bytes_spell_mc() {
    assert_eq!(MAGIC0, b'M');
    assert_eq!(MAGIC1, b'C');
}

#[test]
fn packet_type_codes() {
    assert_eq!(PacketType::MouseMoveRelative.code(), 0x01);
    assert_eq!(PacketType::MouseMoveAbsolute.code(), 0x02);
    assert_eq!(PacketType::MouseButton.code(), 0x03);
    assert_eq!(PacketType::MouseWheel.code(), 0x04);
    assert_eq!(PacketType::KeyEvent.code(), 0x05);
    assert_eq!(PacketType::Ping.code(), 0x06);
    assert_eq!(PacketType::Pong.code(), 0x07);
    assert_eq!(PacketType::ResetModifiers.code(), 0x08);
}

#[test]
fn button_and_action_codes() {
    assert_eq!(MouseButtonId::Left.code(), 0);
    assert_eq!(MouseButtonId::Right.code(), 1);
    assert_eq!(MouseButtonId::Middle.code(), 2);
    assert_eq!(MouseButtonId::Back.code(), 3);
    assert_eq!(MouseButtonId::Forward.code(), 4);
    assert_eq!(ButtonAction::Release.code(), 0);
    assert_eq!(ButtonAction::Press.code(), 1);
    assert_eq!(KeyAction::KeyUp.code(), 0);
    assert_eq!(KeyAction::KeyDown.code(), 1);
}

#[test]
fn modifier_flags_start_empty() {
    assert_eq!(ModifierFlags::new().0, 0);
    assert_eq!(ModifierFlags::default().0, 0);
}

#[test]
fn modifier_flags_set_and_clear_their_own_bit() {
    let mut m = ModifierFlags::new();
    m.set_shift(true);
    assert_eq!(m.0, ModifierFlags::SHIFT);
    m.set_ctrl(true);
    assert_eq!(m.0, ModifierFlags::SHIFT | ModifierFlags::CTRL);
    m.set_alt(true);
    assert_eq!(m.0, ModifierFlags::SHIFT | ModifierFlags::CTRL | ModifierFlags::ALT);
    m.set_win(true);
    assert_eq!(m.0, 0x0F);
    m.set_ctrl(false);
    assert_eq!(m.0, ModifierFlags::SHIFT | ModifierFlags::ALT | ModifierFlags::WIN);
    m.set_shift(false);
    m.set_alt(false);
    m.set_win(false);
    assert_eq!(m.0, 0);
}

#[test]
fn modifier_flags_keep_foreign_bits() {
    let mut m = ModifierFlags(0xF0);
    m.set_alt(true);
    assert_eq!(m.0, 0xF4);
    m.set_alt(false);
    assert_eq!(m.0, 0xF0);
}

#[test]
fn modifier_setters_last_write_wins_and_commute() {
    let mut a = ModifierFlags(0x05);
    a.set_ctrl(true);
    a.set_ctrl(false);
    let mut b = ModifierFlags(0x05);
    b.set_ctrl(false);
    assert_eq!(a.0, b.0);

    let mut c = ModifierFlags(0x09);
    c.set_shift(false);
    c.set_win(true);
    c.set_alt(true);
    let mut d = ModifierFlags(0x09);
    d.set_alt(true);
    d.set_win(true);
    d.set_shift(false);
    assert_eq!(c.0, d.0);
    assert_eq!(c.0, 0x0C);
}

#[test]
fn mouse_move_relative_packet() {
    let p = PacketSerializer::mouse_move_relative(1, -2);
    assert_eq!(p, vec![0x4D, 0x43, 0x01, 1, 0, 0, 0, 0xFE, 0xFF, 0xFF, 0xFF]);
}

#[test]
fn mouse_move_absolute_packet_carries_float_bits() {
    let p = PacketSerializer::mouse_move_absolute_bits(0.5f32.to_bits(), 1.0f32.to_bits());
    assert_eq!(p, vec![0x4D, 0x43, 0x02, 0x00, 0x00, 0x00, 0x3F, 0x00, 0x00, 0x80, 0x3F]);
}

#[test]
fn mouse_button_packet() {
    assert_eq!(
        PacketSerializer::mouse_button(MouseButtonId::Right, ButtonAction::Press),
        vec![0x4D, 0x43, 0x03, 1, 1]
    );
    assert_eq!(
        PacketSerializer::mouse_button(MouseButtonId::Forward, ButtonAction::Release),
        vec![0x4D, 0x43, 0x03, 4, 0]
    );
}

#[test]
fn mouse_wheel_packet() {
    let p = PacketSerializer::mouse_wheel(0, -120);
    assert_eq!(p, vec![0x4D, 0x43, 0x04, 0, 0, 0, 0, 0x88, 0xFF, 0xFF, 0xFF]);
}

#[test]
fn key_event_packet() {
    let mut m = ModifierFlags::new();
    m.set_shift(true);
    m.set_win(true);
    let p = PacketSerializer::key_event(0x0141, KeyAction::KeyDown, m);
    assert_eq!(p, vec![0x4D, 0x43, 0x05, 0x41, 0x01, 1, 0x09]);
}

#[test]
fn ping_packet() {
    let p = PacketSerializer::ping(0x0102030405060708);
    assert_eq!(p, vec![0x4D, 0x43, 0x06, 8, 7, 6, 5, 4, 3, 2, 1]);
}

#[test]
fn reset_modifiers_packet() {
    assert_eq!(PacketSerializer::reset_modifiers(), vec![0x4D, 0x43, 0x08]);
}

#[test]
fn packets_have_their_lengths() {
    assert_eq!(PacketSerializer::mouse_move_relative(0, 0).len(), 11);
    assert_eq!(PacketSerializer::mouse_move_absolute_bits(0, 0).len(), 11);
    assert_eq!(PacketSerializer::mouse_button(MouseButtonId::Left, ButtonAction::Press).len(), 5);
    assert_eq!(PacketSerializer::mouse_wheel(0, 0).len(), 11);
    assert_eq!(PacketSerializer::key_event(0, KeyAction::KeyUp, ModifierFlags::new()).len(), 7);
    assert_eq!(PacketSerializer::ping(0).len(), 11);
    assert_eq!(PacketSerializer::reset_modifiers().len(), 3);
}

#[test]
fn pong_gives_back_the_ping_timestamp() {
    let ts: u64 = 1_700_000_123_456;
    let mut pong = PacketSerializer::ping(ts);
    pong[2] = 0x07;
    assert_eq!(parse_pong(&pong), Some(ts));
}

#[test]
fn pong_may_carry_trailing_bytes() {
    let mut pong = vec![0x4D, 0x43, 0x07, 1, 0, 0, 0, 0, 0, 0, 0];
    pong.extend_from_slice(&[9, 9, 9]);
    assert_eq!(parse_pong(&pong), Some(1));
}

#[test]
fn non_pongs_are_ignored() {
    assert_eq!(parse_pong(&PacketSerializer::ping(5)), None);
    assert_eq!(parse_pong(&[0x4D, 0x43, 0x07, 1, 2, 3]), None);
    assert_eq!(parse_pong(&[0x4D, 0x44, 0x07, 1, 0, 0, 0, 0, 0, 0, 0]), None);
    assert_eq!(parse_pong(&[]), None);
}
