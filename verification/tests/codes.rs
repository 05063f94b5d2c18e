use inputshare_client::hid::HidKeyCode;
use inputshare_client::keys::{KeyState, VirtualKey};

#[test]
fn virtual_key_code_roundtrip() {
    // every accepted raw code maps back to itself
    let mut known = 0;
    for c in 0..=0xFFFFu32 {
        if let Some(k) = VirtualKey::from_code(c) {
            assert_eq!(k.code(), c);
            known += 1;
        }
    }
    assert_eq!(known, 226);
}

#[test]
fn virtual_key_spot_codes() {
    assert_eq!(VirtualKey::LButton.code(), 0x01);
    assert_eq!(VirtualKey::Space.code(), 0x20);
    assert_eq!(VirtualKey::KeyA.code(), 0x41);
    assert_eq!(VirtualKey::LShift.code(), 0xA0);
    assert_eq!(VirtualKey::OemClear.code(), 0xFE);
    assert_eq!(VirtualKey::from_code(0x5B), Some(VirtualKey::LWin));
    assert_eq!(VirtualKey::from_code(0x07), None);
    assert_eq!(VirtualKey::from_code(0xFF), None);
    assert_eq!(VirtualKey::from_code(0x100), None);
}

#[test]
fn hid_key_code_roundtrip() {
    let mut known = 0;
    for c in 0..=0xFFu8 {
        if let Some(k) = HidKeyCode::from_code(c) {
            assert_eq!(k.code(), c);
            known += 1;
        }
    }
    assert_eq!(known, 148);
}

#[test]
fn hid_key_spot_codes() {
    assert_eq!(HidKeyCode::KeyA.code(), 0x04);
    assert_eq!(HidKeyCode::Space.code(), 0x2C);
    assert_eq!(HidKeyCode::F1.code(), 0x3A);
    assert_eq!(HidKeyCode::ErrorRollOver.code(), 0x01);
    assert_eq!(HidKeyCode::LeftCtrl.code(), 0xE0);
    assert_eq!(HidKeyCode::MediaCalc.code(), 0xFB);
    assert_eq!(HidKeyCode::from_code(0x04), Some(HidKeyCode::KeyA));
    assert_eq!(HidKeyCode::from_code(0x00), None);
    assert_eq!(HidKeyCode::from_code(0x32), None);
}

#[test]
fn key_states_are_distinct() {
    assert_ne!(KeyState::Pressed, KeyState::Released);
    assert_eq!(KeyState::Pressed, KeyState::Pressed);
}
