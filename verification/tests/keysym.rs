use mac_connect_client::keysym::{
    map_ui_key_to_keysym, map_vk_to_keysym, UiKey, XK_ALT_L, XK_ALT_R, XK_BACKSPACE, XK_CAPS_LOCK,
    XK_CONTROL_L, XK_CONTROL_R, XK_DELETE, XK_DOWN, XK_END, XK_ESCAPE, XK_F1, XK_F12, XK_HOME,
    XK_LEFT, XK_PAGE_DOWN, XK_PAGE_UP, XK_RETURN, XK_RIGHT, XK_SHIFT_L, XK_SHIFT_R, XK_SUPER_L,
    XK_SUPER_R, XK_TAB, XK_UP,
};

#[test]
fn keysym_constants() {
    assert_eq!(XK_BACKSPACE, 0xFF08);
    assert_eq!(XK_RETURN, 0xFF0D);
    assert_eq!(XK_DELETE, 0xFFFF);
    assert_eq!(XK_SHIFT_L, 0xFFE1);
    assert_eq!(XK_ALT_L, 0xFFE9);
    assert_eq!(XK_SUPER_L, 0xFFEB);
    assert_eq!(XK_F1, 0xFFBE);
    assert_eq!(XK_F12, 0xFFC9);
}

#[test]
fn letters_follow_shift() {
    assert_eq!(map_vk_to_keysym(0x41, false), Some('a' as u32));
    assert_eq!(map_vk_to_keysym(0x41, true), Some('A' as u32));
    assert_eq!(map_vk_to_keysym(0x5A, false), Some('z' as u32));
    assert_eq!(map_vk_to_keysym(0x5A, true), Some('Z' as u32));
    for vk in 0x41u16..=0x5A {
        assert_eq!(map_vk_to_keysym(vk, false), Some(vk as u32 + 0x20));
        assert_eq!(map_vk_to_keysym(vk, true), Some(vk as u32));
    }
}

#[test]
fn digit_row_follows_shift() {
    let plain = "0123456789";
    let shifted = ")!@#$%^&*(";
    for (i, (p, s)) in plain.chars().zip(shifted.chars()).enumerate() {
        let vk = 0x30 + i as u16;
        assert_eq!(map_vk_to_keysym(vk, false), Some(p as u32));
        assert_eq!(map_vk_to_keysym(vk, true), Some(s as u32));
    }
}

#[test]
fn punctuation_follows_shift() {
    let keys: [(u16, char, char); 11] = [
        (0xBA, ';', ':'),
        (0xBB, '=', '+'),
        (0xBC, ',', '<'),
        (0xBD, '-', '_'),
        (0xBE, '.', '>'),
        (0xBF, '/', '?'),
        (0xC0, '`', '~'),
        (0xDB, '[', '{'),
        (0xDC, '\\', '|'),
        (0xDD, ']', '}'),
        (0xDE, '\'', '"'),
    ];
    for (vk, p, s) in keys {
        assert_eq!(map_vk_to_keysym(vk, false), Some(p as u32));
        assert_eq!(map_vk_to_keysym(vk, true), Some(s as u32));
    }
}

#[test]
fn control_and_navigation_keys() {
    let keys: [(u16, u32); 14] = [
        (0x08, XK_BACKSPACE),
        (0x09, XK_TAB),
        (0x0D, XK_RETURN),
        (0x1B, XK_ESCAPE),
        (0x20, ' ' as u32),
        (0x21, XK_PAGE_UP),
        (0x22, XK_PAGE_DOWN),
        (0x23, XK_END),
        (0x24, XK_HOME),
        (0x25, XK_LEFT),
        (0x26, XK_UP),
        (0x27, XK_RIGHT),
        (0x28, XK_DOWN),
        (0x2E, XK_DELETE),
    ];
    for (vk, k) in keys {
        assert_eq!(map_vk_to_keysym(vk, false), Some(k));
        assert_eq!(map_vk_to_keysym(vk, true), Some(k));
    }
}

#[test]
fn modifiers_are_swapped_for_the_mac() {
    assert_eq!(map_vk_to_keysym(0x10, false), Some(XK_SHIFT_L));
    assert_eq!(map_vk_to_keysym(0xA0, false), Some(XK_SHIFT_L));
    assert_eq!(map_vk_to_keysym(0xA1, false), Some(XK_SHIFT_R));
    assert_eq!(map_vk_to_keysym(0x11, false), Some(XK_CONTROL_L));
    assert_eq!(map_vk_to_keysym(0xA2, false), Some(XK_CONTROL_L));
    assert_eq!(map_vk_to_keysym(0xA3, false), Some(XK_CONTROL_R));
    assert_eq!(map_vk_to_keysym(0x12, true), Some(XK_SUPER_L));
    assert_eq!(map_vk_to_keysym(0xA4, false), Some(XK_SUPER_L));
    assert_eq!(map_vk_to_keysym(0xA5, false), Some(XK_SUPER_R));
    assert_eq!(map_vk_to_keysym(0x5B, false), Some(XK_ALT_L));
    assert_eq!(map_vk_to_keysym(0x5C, true), Some(XK_ALT_R));
    assert_eq!(map_vk_to_keysym(0x14, false), Some(XK_CAPS_LOCK));
}

#[test]
fn function_keys() {
    for i in 0..12u16 {
        assert_eq!(map_vk_to_keysym(0x70 + i, false), Some(XK_F1 + i as u32));
    }
}

#[test]
fn numpad_ignores_shift() {
    for i in 0..10u16 {
        assert_eq!(map_vk_to_keysym(0x60 + i, false), Some('0' as u32 + i as u32));
        assert_eq!(map_vk_to_keysym(0x60 + i, true), Some('0' as u32 + i as u32));
    }
    assert_eq!(map_vk_to_keysym(0x6A, true), Some('*' as u32));
    assert_eq!(map_vk_to_keysym(0x6B, false), Some('+' as u32));
    assert_eq!(map_vk_to_keysym(0x6D, false), Some('-' as u32));
    assert_eq!(map_vk_to_keysym(0x6E, false), Some('.' as u32));
    assert_eq!(map_vk_to_keysym(0x6F, false), Some('/' as u32));
}

#[test]
fn unknown_keys_have_no_keysym() {
    assert_eq!(map_vk_to_keysym(0x00, false), None);
    assert_eq!(map_vk_to_keysym(0x6C, false), None);
    assert_eq!(map_vk_to_keysym(0x7C, true), None);
    assert_eq!(map_vk_to_keysym(0xFFFF, false), None);
}

#[test]
fn every_key_is_covered_with_and_without_shift() {
    for vk in 0u16..=0xFF {
        assert_eq!(map_vk_to_keysym(vk, true).is_some(), map_vk_to_keysym(vk, false).is_some());
        if let Some(k) = map_vk_to_keysym(vk, true) {
            assert!((0x20..=0x7E).contains(&k) || (0xFF00..=0xFFFF).contains(&k));
        }
    }
}

#[test]
fn ui_keys() {
    assert_eq!(map_ui_key_to_keysym(UiKey::A, false), Some('a' as u32));
    assert_eq!(map_ui_key_to_keysym(UiKey::Q, true), Some('Q' as u32));
    assert_eq!(map_ui_key_to_keysym(UiKey::Num2, true), Some('@' as u32));
    assert_eq!(map_ui_key_to_keysym(UiKey::Num0, false), Some('0' as u32));
    assert_eq!(map_ui_key_to_keysym(UiKey::Space, true), Some(' ' as u32));
    assert_eq!(map_ui_key_to_keysym(UiKey::Enter, false), Some(XK_RETURN));
    assert_eq!(map_ui_key_to_keysym(UiKey::ArrowLeft, false), Some(XK_LEFT));
    assert_eq!(map_ui_key_to_keysym(UiKey::PageDown, false), Some(XK_PAGE_DOWN));
    assert_eq!(map_ui_key_to_keysym(UiKey::F12, true), Some(XK_F12));
    assert_eq!(map_ui_key_to_keysym(UiKey::Other, false), None);
}
