use inputshare_client::hid::{HidModifierKey, HidMouseButton};
use inputshare_client::keys::VirtualKey;
use inputshare_client::masks::{HidModifierKeys, HidMouseButtons};

const MOD_FLAGS: [HidModifierKey; 8] = [
    HidModifierKey::LCtrl,
    HidModifierKey::LShift,
    HidModifierKey::LAlt,
    HidModifierKey::LMeta,
    HidModifierKey::RCtrl,
    HidModifierKey::RShift,
    HidModifierKey::RAlt,
    HidModifierKey::RMeta,
];

const BUTTON_FLAGS: [HidMouseButton; 5] = [
    HidMouseButton::LButton,
    HidMouseButton::RButton,
    HidMouseButton::MButton,
    HidMouseButton::Button4,
    HidMouseButton::Button5,
];

#[test]
fn modifier_mask_byte_roundtrip() {
    // every byte value is a valid mask and re-encodes identically
    for b in 0..=255u8 {
        assert_eq!(HidModifierKeys::from_byte(b).to_byte(), b);
    }
}

#[test]
fn button_mask_byte_roundtrip() {
    for b in 0..=255u8 {
        assert_eq!(HidMouseButtons::from_byte(b).to_byte(), b);
    }
}

#[test]
fn mask_encoding_is_injective() {
    for a in 0..=255u8 {
        for b in 0..=255u8 {
            if a != b {
                assert_ne!(
                    HidModifierKeys::from_byte(a),
                    HidModifierKeys::from_byte(b)
                );
            }
        }
    }
}

#[test]
fn modifier_flag_bits() {
    assert_eq!(HidModifierKey::LCtrl.bit(), 0x01);
    assert_eq!(HidModifierKey::LShift.bit(), 0x02);
    assert_eq!(HidModifierKey::LAlt.bit(), 0x04);
    assert_eq!(HidModifierKey::LMeta.bit(), 0x08);
    assert_eq!(HidModifierKey::RCtrl.bit(), 0x10);
    assert_eq!(HidModifierKey::RShift.bit(), 0x20);
    assert_eq!(HidModifierKey::RAlt.bit(), 0x40);
    assert_eq!(HidModifierKey::RMeta.bit(), 0x80);
}

#[test]
fn button_flag_bits() {
    assert_eq!(HidMouseButton::LButton.bit(), 0x01);
    assert_eq!(HidMouseButton::RButton.bit(), 0x02);
    assert_eq!(HidMouseButton::MButton.bit(), 0x04);
    assert_eq!(HidMouseButton::Button4.bit(), 0x08);
    assert_eq!(HidMouseButton::Button5.bit(), 0x10);
}

#[test]
fn modifier_membership_follows_bits() {
    for b in 0..=255u8 {
        let m = HidModifierKeys::from_byte(b);
        for f in MOD_FLAGS {
            assert_eq!(m.contains_flag(f), b & f.bit() != 0);
        }
    }
}

#[test]
fn mask_set_algebra() {
    let a = HidModifierKeys::from_byte(0b0011_0101);
    let b = HidModifierKeys::from_byte(0b1001_0011);
    assert_eq!(a.union(b).to_byte(), 0b1011_0111);
    assert_eq!(a.intersect(b).to_byte(), 0b0001_0001);
    assert_eq!(a.difference(b).to_byte(), 0b0010_0100);
    assert_eq!(a.union(b), b.union(a));
    assert_eq!(a.union(a), a);
    let e = HidModifierKeys::empty();
    assert_eq!(e.to_byte(), 0);
    assert_eq!(a.union(e), a);
    assert_eq!(a.intersect(e), e);
    assert_eq!(a.difference(e), a);
}

#[test]
fn button_mask_set_algebra() {
    let a = HidMouseButtons::from_byte(0b0_0101);
    let b = HidMouseButtons::from_byte(0b1_0011);
    assert_eq!(a.union(b).to_byte(), 0b1_0111);
    assert_eq!(a.intersect(b).to_byte(), 0b0_0001);
    assert_eq!(a.difference(b).to_byte(), 0b0_0100);
    assert_eq!(HidMouseButtons::empty().to_byte(), 0);
}

#[test]
fn single_modifier_flag_virtual_key_roundtrip() {
    // each flag's sole virtual key translates back to a single-flag mask,
    // and the single-flag mask enumerates exactly that key
    for f in MOD_FLAGS {
        let mask = HidModifierKeys::from_flag(f);
        let keys = mask.to_virtual_keys();
        assert_eq!(keys.len(), 1, "flag bit {:#x}", f.bit());
        let key = keys[0];
        assert_eq!(HidModifierKeys::from_virtual_key(&key), Some(mask));
    }
}

#[test]
fn single_button_flag_virtual_key_roundtrip() {
    for f in BUTTON_FLAGS {
        let mask = HidMouseButtons::from_flag(f);
        let keys = mask.to_virtual_keys();
        assert_eq!(keys.len(), 1, "button bit {:#x}", f.bit());
        let key = keys[0];
        assert_eq!(HidMouseButtons::from_virtual_key(&key), Some(mask));
    }
}

#[test]
fn modifier_mask_from_virtual_key() {
    assert_eq!(
        HidModifierKeys::from_virtual_key(&VirtualKey::LShift),
        Some(HidModifierKeys::from_byte(0x02))
    );
    assert_eq!(
        HidModifierKeys::from_virtual_key(&VirtualKey::RMenu),
        Some(HidModifierKeys::from_byte(0x40))
    );
    assert_eq!(HidModifierKeys::from_virtual_key(&VirtualKey::KeyQ), None);
}

#[test]
fn button_mask_from_virtual_key() {
    assert_eq!(
        HidMouseButtons::from_virtual_key(&VirtualKey::XButton2),
        Some(HidMouseButtons::from_byte(0x10))
    );
    assert_eq!(HidMouseButtons::from_virtual_key(&VirtualKey::Escape), None);
}

#[test]
fn virtual_key_enumeration_order() {
    // the canonical flag-declaration order: the authoritative bit order,
    // left variants before right
    let all = HidModifierKeys::from_byte(0xFF);
    assert_eq!(
        all.to_virtual_keys(),
        vec![
            VirtualKey::LControl,
            VirtualKey::LShift,
            VirtualKey::LMenu,
            VirtualKey::LWin,
            VirtualKey::RControl,
            VirtualKey::RShift,
            VirtualKey::RMenu,
            VirtualKey::RWin,
        ]
    );
    let all_buttons = HidMouseButtons::from_byte(0x1F);
    assert_eq!(
        all_buttons.to_virtual_keys(),
        vec![
            VirtualKey::LButton,
            VirtualKey::RButton,
            VirtualKey::MButton,
            VirtualKey::XButton1,
            VirtualKey::XButton2,
        ]
    );
    let ctrl_shift = HidModifierKeys::from_byte(0x03);
    assert_eq!(
        ctrl_shift.to_virtual_keys(),
        vec![VirtualKey::LControl, VirtualKey::LShift]
    );
    assert_eq!(HidModifierKeys::empty().to_virtual_keys(), vec![]);
}

#[test]
fn opaque_high_bits_survive_button_mask() {
    // bits above the five button flags are preserved as opaque bits
    let m = HidMouseButtons::from_byte(0xE0);
    assert_eq!(m.to_byte(), 0xE0);
    assert_eq!(m.to_virtual_keys(), vec![]);
}
