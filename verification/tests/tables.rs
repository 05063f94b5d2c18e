use inputshare_client::conversions::{convert_win2hid, vk_to_mb, vk_to_mod, wsc_to_hkc};
use inputshare_client::hid::{HidKeyCode, HidModifierKey, HidMouseButton};
use inputshare_client::keys::VirtualKey;

#[test]
fn scan_code_spot_checks() {
    assert_eq!(wsc_to_hkc(0x1E), Some(HidKeyCode::KeyA));
    assert_eq!(wsc_to_hkc(0x39), Some(HidKeyCode::Space));
    assert_eq!(wsc_to_hkc(0x3B), Some(HidKeyCode::F1));
    assert_eq!(wsc_to_hkc(0x01), Some(HidKeyCode::Escape));
    assert_eq!(wsc_to_hkc(0xE01D), Some(HidKeyCode::RightCtrl));
    assert_eq!(wsc_to_hkc(0xE11D), Some(HidKeyCode::Pause));
}

#[test]
fn unrecognized_scan_codes_are_unmapped() {
    assert_eq!(wsc_to_hkc(0xEE), None);
    assert_eq!(wsc_to_hkc(0x00), None);
    assert_eq!(wsc_to_hkc(0x55), None);
    assert_eq!(wsc_to_hkc(0xFFFF), None);
    assert_eq!(convert_win2hid(&0xEE), None);
    assert_eq!(convert_win2hid(&0x00), None);
    assert_eq!(convert_win2hid(&0xFFFF), None);
}

#[test]
fn legacy_spot_checks() {
    assert_eq!(convert_win2hid(&0x1E), Some(0x04));
    assert_eq!(convert_win2hid(&0x39), Some(0x2C));
    assert_eq!(convert_win2hid(&0x3B), Some(0x3A));
    // the legacy table maps a scan code the primary table does not
    assert_eq!(convert_win2hid(&0xFC), Some(0x02));
    assert_eq!(wsc_to_hkc(0xFC), None);
}

#[test]
fn scan_code_table_is_injective() {
    // scan over the full scan-code space: no two mapped codes share a key
    let mut seen: [Option<u16>; 256] = [None; 256];
    for sc in 0..=u16::MAX {
        if let Some(key) = wsc_to_hkc(sc) {
            let usage = key.code() as usize;
            assert_eq!(seen[usage], None, "scan codes {:#x} and {:#x} collide", seen[usage].unwrap(), sc);
            seen[usage] = Some(sc);
        }
    }
}

#[test]
fn translations_are_pure() {
    for sc in 0..=u16::MAX {
        assert_eq!(wsc_to_hkc(sc), wsc_to_hkc(sc));
        assert_eq!(convert_win2hid(&sc), convert_win2hid(&sc));
    }
    for c in 0..=0xFFu32 {
        if let Some(k) = VirtualKey::from_code(c) {
            assert_eq!(vk_to_mod(k), vk_to_mod(k));
            assert_eq!(vk_to_mb(k), vk_to_mb(k));
        }
    }
}

#[test]
fn modifier_keys_translate() {
    assert_eq!(vk_to_mod(VirtualKey::LShift), Some(HidModifierKey::LShift));
    assert_eq!(vk_to_mod(VirtualKey::LControl), Some(HidModifierKey::LCtrl));
    assert_eq!(vk_to_mod(VirtualKey::LWin), Some(HidModifierKey::LMeta));
    assert_eq!(vk_to_mod(VirtualKey::LMenu), Some(HidModifierKey::LAlt));
    assert_eq!(vk_to_mod(VirtualKey::RShift), Some(HidModifierKey::RShift));
    assert_eq!(vk_to_mod(VirtualKey::RControl), Some(HidModifierKey::RCtrl));
    assert_eq!(vk_to_mod(VirtualKey::RWin), Some(HidModifierKey::RMeta));
    assert_eq!(vk_to_mod(VirtualKey::RMenu), Some(HidModifierKey::RAlt));
    assert_eq!(vk_to_mod(VirtualKey::KeyA), None);
    assert_eq!(vk_to_mod(VirtualKey::Shift), None);
}

#[test]
fn mouse_buttons_translate() {
    assert_eq!(vk_to_mb(VirtualKey::LButton), Some(HidMouseButton::LButton));
    assert_eq!(vk_to_mb(VirtualKey::RButton), Some(HidMouseButton::RButton));
    assert_eq!(vk_to_mb(VirtualKey::MButton), Some(HidMouseButton::MButton));
    assert_eq!(vk_to_mb(VirtualKey::XButton1), Some(HidMouseButton::Button4));
    assert_eq!(vk_to_mb(VirtualKey::XButton2), Some(HidMouseButton::Button5));
    assert_eq!(vk_to_mb(VirtualKey::Space), None);
}

#[test]
fn modifiers_and_buttons_are_disjoint() {
    for c in 0..=0xFFu32 {
        if let Some(k) = VirtualKey::from_code(c) {
            assert!(
                !(vk_to_mod(k).is_some() && vk_to_mb(k).is_some()),
                "virtual key {:#x} maps to both a modifier and a mouse button",
                c
            );
        }
    }
}
