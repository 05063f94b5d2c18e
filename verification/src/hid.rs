//! The canonical HID-side vocabulary: key-usage identifiers from the USB HID
//! keyboard/keypad usage page (with the vendor media-key extensions this
//! system transmits), and the single-bit modifier and mouse-button flags that
//! make up the wire masks.
//!
//! The numeric value attached to each identifier is an external contract
//! (the USB HID specification and the wire protocol); it is pinned by the
//! `spec_code` / `spec_bit` tables and guarded by a checked construction
//! path from raw integers.

use vstd::prelude::*;

verus! {

/// One of the eight modifier keys of the HID boot protocol, each of which
/// owns a single bit of the modifier byte.
#[derive(Clone, Copy, Debug, PartialEq, Eq, Hash, Structural)]
pub enum HidModifierKey {
    LCtrl,
    LShift,
    LAlt,
    LMeta,
    RCtrl,
    RShift,
    RAlt,
    RMeta,
}

impl HidModifierKey {
    /// The bit value each modifier owns inside the modifier byte.
    pub open spec fn spec_bit(self) -> u8 {
        match self {
            HidModifierKey::LCtrl => 0x01,
            HidModifierKey::LShift => 0x02,
            HidModifierKey::LAlt => 0x04,
            HidModifierKey::LMeta => 0x08,
            HidModifierKey::RCtrl => 0x10,
            HidModifierKey::RShift => 0x20,
            HidModifierKey::RAlt => 0x40,
            HidModifierKey::RMeta => 0x80,
        }
    }

    /// The single wire bit that stands for this flag.
    pub fn bit(self) -> (r: u8)
        ensures
            r == self.spec_bit(),
    {
        match self {
            HidModifierKey::LCtrl => 0x01,
            HidModifierKey::LShift => 0x02,
            HidModifierKey::LAlt => 0x04,
            HidModifierKey::LMeta => 0x08,
            HidModifierKey::RCtrl => 0x10,
            HidModifierKey::RShift => 0x20,
            HidModifierKey::RAlt => 0x40,
            HidModifierKey::RMeta => 0x80,
        }
    }
}

/// One of the five mouse buttons of the wire format, each of which owns a
/// single bit of the button byte.
#[derive(Clone, Copy, Debug, PartialEq, Eq, Hash, Structural)]
pub enum HidMouseButton {
    LButton,
    RButton,
    MButton,
    Button4,
    Button5,
}

impl HidMouseButton {
    /// The bit value each button owns inside the button byte.
    pub open spec fn spec_bit(self) -> u8 {
        match self {
            HidMouseButton::LButton => 0x01,
            HidMouseButton::RButton => 0x02,
            HidMouseButton::MButton => 0x04,
            HidMouseButton::Button4 => 0x08,
            HidMouseButton::Button5 => 0x10,
        }
    }

    /// The single wire bit that stands for this flag.
    pub fn bit(self) -> (r: u8)
        ensures
            r == self.spec_bit(),
    {
        match self {
            HidMouseButton::LButton => 0x01,
            HidMouseButton::RButton => 0x02,
            HidMouseButton::MButton => 0x04,
            HidMouseButton::Button4 => 0x08,
            HidMouseButton::Button5 => 0x10,
        }
    }
}

/// A canonical HID key-usage identifier: the closed set of usages this
/// system can transmit, one per physical key the scan-code table recognizes.
#[derive(Clone, Copy, Debug, PartialEq, Eq, Hash, Structural)]
pub enum HidKeyCode {
    ErrorRollOver,
    KeyA,
    KeyB,
    KeyC,
    KeyD,
    KeyE,
    KeyF,
    KeyG,
    KeyH,
    KeyI,
    KeyJ,
    KeyK,
    KeyL,
    KeyM,
    KeyN,
    KeyO,
    KeyP,
    KeyQ,
    KeyR,
    KeyS,
    KeyT,
    KeyU,
    KeyV,
    KeyW,
    KeyX,
    KeyY,
    KeyZ,
    Key1,
    Key2,
    Key3,
    Key4,
    Key5,
    Key6,
    Key7,
    Key8,
    Key9,
    Key0,
    Enter,
    Escape,
    Backspace,
    Tab,
    Space,
    Minus,
    Equal,
    LeftBrace,
    RightBrace,
    Backslash,
    Semicolon,
    Apostrophe,
    Grave,
    Comma,
    Dot,
    Slash,
    Capslock,
    F1,
    F2,
    F3,
    F4,
    F5,
    F6,
    F7,
    F8,
    F9,
    F10,
    F11,
    F12,
    PrintScreen,
    ScrollLock,
    Pause,
    Insert,
    Home,
    PageUp,
    Delete,
    End,
    PageDown,
    Right,
    Left,
    Down,
    Up,
    NumLock,
    KpSlash,
    KpAsterisk,
    KpMinus,
    KpPlus,
    KpEnter,
    Kp1,
    Kp2,
    Kp3,
    Kp4,
    Kp5,
    Kp6,
    Kp7,
    Kp8,
    Kp9,
    Kp0,
    KpDot,
    Key102ND,
    Compose,
    Power,
    KpEqual,
    F13,
    F14,
    F15,
    F16,
    F17,
    F18,
    F19,
    F20,
    F21,
    F22,
    F23,
    F24,
    LockingCapsLock,
    LockingNumLock,
    KpComma,
    International1,
    International2,
    International3,
    International4,
    International5,
    International6,
    Language1,
    Language2,
    Language3,
    Language4,
    LeftCtrl,
    LeftShift,
    LeftAlt,
    LeftMeta,
    RightCtrl,
    RightShift,
    RightAlt,
    RightMeta,
    MediaPlayPause,
    MediaStopCD,
    MediaPreviousSong,
    MediaNextSong,
    MediaEjectCD,
    MediaVolumeUp,
    MediaVolumeDown,
    MediaMute,
    MediaWWW,
    MediaBack,
    MediaForward,
    MediaStop,
    MediaFind,
    MediaRefresh,
    MediaCalc,
}

impl HidKeyCode {
    /// The HID usage value of this key, per the USB HID keyboard/keypad
    /// usage page (media keys use the vendor extension range).
    pub open spec fn spec_code(self) -> u8 {
        match self {
            HidKeyCode::ErrorRollOver => 0x01,
            HidKeyCode::KeyA => 0x04,
            HidKeyCode::KeyB => 0x05,
            HidKeyCode::KeyC => 0x06,
            HidKeyCode::KeyD => 0x07,
            HidKeyCode::KeyE => 0x08,
            HidKeyCode::KeyF => 0x09,
            HidKeyCode::KeyG => 0x0a,
            HidKeyCode::KeyH => 0x0b,
            HidKeyCode::KeyI => 0x0c,
            HidKeyCode::KeyJ => 0x0d,
            HidKeyCode::KeyK => 0x0e,
            HidKeyCode::KeyL => 0x0f,
            HidKeyCode::KeyM => 0x10,
            HidKeyCode::KeyN => 0x11,
            HidKeyCode::KeyO => 0x12,
            HidKeyCode::KeyP => 0x13,
            HidKeyCode::KeyQ => 0x14,
            HidKeyCode::KeyR => 0x15,
            HidKeyCode::KeyS => 0x16,
            HidKeyCode::KeyT => 0x17,
            HidKeyCode::KeyU => 0x18,
            HidKeyCode::KeyV => 0x19,
            HidKeyCode::KeyW => 0x1a,
            HidKeyCode::KeyX => 0x1b,
            HidKeyCode::KeyY => 0x1c,
            HidKeyCode::KeyZ => 0x1d,
            HidKeyCode::Key1 => 0x1e,
            HidKeyCode::Key2 => 0x1f,
            HidKeyCode::Key3 => 0x20,
            HidKeyCode::Key4 => 0x21,
            HidKeyCode::Key5 => 0x22,
            HidKeyCode::Key6 => 0x23,
            HidKeyCode::Key7 => 0x24,
            HidKeyCode::Key8 => 0x25,
            HidKeyCode::Key9 => 0x26,
            HidKeyCode::Key0 => 0x27,
            HidKeyCode::Enter => 0x28,
            HidKeyCode::Escape => 0x29,
            HidKeyCode::Backspace => 0x2a,
            HidKeyCode::Tab => 0x2b,
            HidKeyCode::Space => 0x2c,
            HidKeyCode::Minus => 0x2d,
            HidKeyCode::Equal => 0x2e,
            HidKeyCode::LeftBrace => 0x2f,
            HidKeyCode::RightBrace => 0x30,
            HidKeyCode::Backslash => 0x31,
            HidKeyCode::Semicolon => 0x33,
            HidKeyCode::Apostrophe => 0x34,
            HidKeyCode::Grave => 0x35,
            HidKeyCode::Comma => 0x36,
            HidKeyCode::Dot => 0x37,
            HidKeyCode::Slash => 0x38,
            HidKeyCode::Capslock => 0x39,
            HidKeyCode::F1 => 0x3a,
            HidKeyCode::F2 => 0x3b,
            HidKeyCode::F3 => 0x3c,
            HidKeyCode::F4 => 0x3d,
            HidKeyCode::F5 => 0x3e,
            HidKeyCode::F6 => 0x3f,
            HidKeyCode::F7 => 0x40,
            HidKeyCode::F8 => 0x41,
            HidKeyCode::F9 => 0x42,
            HidKeyCode::F10 => 0x43,
            HidKeyCode::F11 => 0x44,
            HidKeyCode::F12 => 0x45,
            HidKeyCode::PrintScreen => 0x46,
            HidKeyCode::ScrollLock => 0x47,
            HidKeyCode::Pause => 0x48,
            HidKeyCode::Insert => 0x49,
            HidKeyCode::Home => 0x4a,
            HidKeyCode::PageUp => 0x4b,
            HidKeyCode::Delete => 0x4c,
            HidKeyCode::End => 0x4d,
            HidKeyCode::PageDown => 0x4e,
            HidKeyCode::Right => 0x4f,
            HidKeyCode::Left => 0x50,
            HidKeyCode::Down => 0x51,
            HidKeyCode::Up => 0x52,
            HidKeyCode::NumLock => 0x53,
            HidKeyCode::KpSlash => 0x54,
            HidKeyCode::KpAsterisk => 0x55,
            HidKeyCode::KpMinus => 0x56,
            HidKeyCode::KpPlus => 0x57,
            HidKeyCode::KpEnter => 0x58,
            HidKeyCode::Kp1 => 0x59,
            HidKeyCode::Kp2 => 0x5a,
            HidKeyCode::Kp3 => 0x5b,
            HidKeyCode::Kp4 => 0x5c,
            HidKeyCode::Kp5 => 0x5d,
            HidKeyCode::Kp6 => 0x5e,
            HidKeyCode::Kp7 => 0x5f,
            HidKeyCode::Kp8 => 0x60,
            HidKeyCode::Kp9 => 0x61,
            HidKeyCode::Kp0 => 0x62,
            HidKeyCode::KpDot => 0x63,
            HidKeyCode::Key102ND => 0x64,
            HidKeyCode::Compose => 0x65,
            HidKeyCode::Power => 0x66,
            HidKeyCode::KpEqual => 0x67,
            HidKeyCode::F13 => 0x68,
            HidKeyCode::F14 => 0x69,
            HidKeyCode::F15 => 0x6a,
            HidKeyCode::F16 => 0x6b,
            HidKeyCode::F17 => 0x6c,
            HidKeyCode::F18 => 0x6d,
            HidKeyCode::F19 => 0x6e,
            HidKeyCode::F20 => 0x6f,
            HidKeyCode::F21 => 0x70,
            HidKeyCode::F22 => 0x71,
            HidKeyCode::F23 => 0x72,
            HidKeyCode::F24 => 0x73,
            HidKeyCode::LockingCapsLock => 0x82,
            HidKeyCode::LockingNumLock => 0x83,
            HidKeyCode::KpComma => 0x85,
            HidKeyCode::International1 => 0x87,
            HidKeyCode::International2 => 0x88,
            HidKeyCode::International3 => 0x89,
            HidKeyCode::International4 => 0x8a,
            HidKeyCode::International5 => 0x8b,
            HidKeyCode::International6 => 0x8c,
            HidKeyCode::Language1 => 0x90,
            HidKeyCode::Language2 => 0x91,
            HidKeyCode::Language3 => 0x92,
            HidKeyCode::Language4 => 0x93,
            HidKeyCode::LeftCtrl => 0xe0,
            HidKeyCode::LeftShift => 0xe1,
            HidKeyCode::LeftAlt => 0xe2,
            HidKeyCode::LeftMeta => 0xe3,
            HidKeyCode::RightCtrl => 0xe4,
            HidKeyCode::RightShift => 0xe5,
            HidKeyCode::RightAlt => 0xe6,
            HidKeyCode::RightMeta => 0xe7,
            HidKeyCode::MediaPlayPause => 0xe8,
            HidKeyCode::MediaStopCD => 0xe9,
            HidKeyCode::MediaPreviousSong => 0xea,
            HidKeyCode::MediaNextSong => 0xeb,
            HidKeyCode::MediaEjectCD => 0xec,
            HidKeyCode::MediaVolumeUp => 0xed,
            HidKeyCode::MediaVolumeDown => 0xee,
            HidKeyCode::MediaMute => 0xef,
            HidKeyCode::MediaWWW => 0xf0,
            HidKeyCode::MediaBack => 0xf1,
            HidKeyCode::MediaForward => 0xf2,
            HidKeyCode::MediaStop => 0xf3,
            HidKeyCode::MediaFind => 0xf4,
            HidKeyCode::MediaRefresh => 0xfa,
            HidKeyCode::MediaCalc => 0xfb,
        }
    }

    /// The HID usage value of this key.
    pub fn code(self) -> (r: u8)
        ensures
            r == self.spec_code(),
    {
        match self {
            HidKeyCode::ErrorRollOver => 0x01,
            HidKeyCode::KeyA => 0x04,
            HidKeyCode::KeyB => 0x05,
            HidKeyCode::KeyC => 0x06,
            HidKeyCode::KeyD => 0x07,
            HidKeyCode::KeyE => 0x08,
            HidKeyCode::KeyF => 0x09,
            HidKeyCode::KeyG => 0x0a,
            HidKeyCode::KeyH => 0x0b,
            HidKeyCode::KeyI => 0x0c,
            HidKeyCode::KeyJ => 0x0d,
            HidKeyCode::KeyK => 0x0e,
            HidKeyCode::KeyL => 0x0f,
            HidKeyCode::KeyM => 0x10,
            HidKeyCode::KeyN => 0x11,
            HidKeyCode::KeyO => 0x12,
            HidKeyCode::KeyP => 0x13,
            HidKeyCode::KeyQ => 0x14,
            HidKeyCode::KeyR => 0x15,
            HidKeyCode::KeyS => 0x16,
            HidKeyCode::KeyT => 0x17,
            HidKeyCode::KeyU => 0x18,
            HidKeyCode::KeyV => 0x19,
            HidKeyCode::KeyW => 0x1a,
            HidKeyCode::KeyX => 0x1b,
            HidKeyCode::KeyY => 0x1c,
            HidKeyCode::KeyZ => 0x1d,
            HidKeyCode::Key1 => 0x1e,
            HidKeyCode::Key2 => 0x1f,
            HidKeyCode::Key3 => 0x20,
            HidKeyCode::Key4 => 0x21,
            HidKeyCode::Key5 => 0x22,
            HidKeyCode::Key6 => 0x23,
            HidKeyCode::Key7 => 0x24,
            HidKeyCode::Key8 => 0x25,
            HidKeyCode::Key9 => 0x26,
            HidKeyCode::Key0 => 0x27,
            HidKeyCode::Enter => 0x28,
            HidKeyCode::Escape => 0x29,
            HidKeyCode::Backspace => 0x2a,
            HidKeyCode::Tab => 0x2b,
            HidKeyCode::Space => 0x2c,
            HidKeyCode::Minus => 0x2d,
            HidKeyCode::Equal => 0x2e,
            HidKeyCode::LeftBrace => 0x2f,
            HidKeyCode::RightBrace => 0x30,
            HidKeyCode::Backslash => 0x31,
            HidKeyCode::Semicolon => 0x33,
            HidKeyCode::Apostrophe => 0x34,
            HidKeyCode::Grave => 0x35,
            HidKeyCode::Comma => 0x36,
            HidKeyCode::Dot => 0x37,
            HidKeyCode::Slash => 0x38,
            HidKeyCode::Capslock => 0x39,
            HidKeyCode::F1 => 0x3a,
            HidKeyCode::F2 => 0x3b,
            HidKeyCode::F3 => 0x3c,
            HidKeyCode::F4 => 0x3d,
            HidKeyCode::F5 => 0x3e,
            HidKeyCode::F6 => 0x3f,
            HidKeyCode::F7 => 0x40,
            HidKeyCode::F8 => 0x41,
            HidKeyCode::F9 => 0x42,
            HidKeyCode::F10 => 0x43,
            HidKeyCode::F11 => 0x44,
            HidKeyCode::F12 => 0x45,
            HidKeyCode::PrintScreen => 0x46,
            HidKeyCode::ScrollLock => 0x47,
            HidKeyCode::Pause => 0x48,
            HidKeyCode::Insert => 0x49,
            HidKeyCode::Home => 0x4a,
            HidKeyCode::PageUp => 0x4b,
            HidKeyCode::Delete => 0x4c,
            HidKeyCode::End => 0x4d,
            HidKeyCode::PageDown => 0x4e,
            HidKeyCode::Right => 0x4f,
            HidKeyCode::Left => 0x50,
            HidKeyCode::Down => 0x51,
            HidKeyCode::Up => 0x52,
            HidKeyCode::NumLock => 0x53,
            HidKeyCode::KpSlash => 0x54,
            HidKeyCode::KpAsterisk => 0x55,
            HidKeyCode::KpMinus => 0x56,
            HidKeyCode::KpPlus => 0x57,
            HidKeyCode::KpEnter => 0x58,
            HidKeyCode::Kp1 => 0x59,
            HidKeyCode::Kp2 => 0x5a,
            HidKeyCode::Kp3 => 0x5b,
            HidKeyCode::Kp4 => 0x5c,
            HidKeyCode::Kp5 => 0x5d,
            HidKeyCode::Kp6 => 0x5e,
            HidKeyCode::Kp7 => 0x5f,
            HidKeyCode::Kp8 => 0x60,
            HidKeyCode::Kp9 => 0x61,
            HidKeyCode::Kp0 => 0x62,
            HidKeyCode::KpDot => 0x63,
            HidKeyCode::Key102ND => 0x64,
            HidKeyCode::Compose => 0x65,
            HidKeyCode::Power => 0x66,
            HidKeyCode::KpEqual => 0x67,
            HidKeyCode::F13 => 0x68,
            HidKeyCode::F14 => 0x69,
            HidKeyCode::F15 => 0x6a,
            HidKeyCode::F16 => 0x6b,
            HidKeyCode::F17 => 0x6c,
            HidKeyCode::F18 => 0x6d,
            HidKeyCode::F19 => 0x6e,
            HidKeyCode::F20 => 0x6f,
            HidKeyCode::F21 => 0x70,
            HidKeyCode::F22 => 0x71,
            HidKeyCode::F23 => 0x72,
            HidKeyCode::F24 => 0x73,
            HidKeyCode::LockingCapsLock => 0x82,
            HidKeyCode::LockingNumLock => 0x83,
            HidKeyCode::KpComma => 0x85,
            HidKeyCode::International1 => 0x87,
            HidKeyCode::International2 => 0x88,
            HidKeyCode::International3 => 0x89,
            HidKeyCode::International4 => 0x8a,
            HidKeyCode::International5 => 0x8b,
            HidKeyCode::International6 => 0x8c,
            HidKeyCode::Language1 => 0x90,
            HidKeyCode::Language2 => 0x91,
            HidKeyCode::Language3 => 0x92,
            HidKeyCode::Language4 => 0x93,
            HidKeyCode::LeftCtrl => 0xe0,
            HidKeyCode::LeftShift => 0xe1,
            HidKeyCode::LeftAlt => 0xe2,
            HidKeyCode::LeftMeta => 0xe3,
            HidKeyCode::RightCtrl => 0xe4,
            HidKeyCode::RightShift => 0xe5,
            HidKeyCode::RightAlt => 0xe6,
            HidKeyCode::RightMeta => 0xe7,
            HidKeyCode::MediaPlayPause => 0xe8,
            HidKeyCode::MediaStopCD => 0xe9,
            HidKeyCode::MediaPreviousSong => 0xea,
            HidKeyCode::MediaNextSong => 0xeb,
            HidKeyCode::MediaEjectCD => 0xec,
            HidKeyCode::MediaVolumeUp => 0xed,
            HidKeyCode::MediaVolumeDown => 0xee,
            HidKeyCode::MediaMute => 0xef,
            HidKeyCode::MediaWWW => 0xf0,
            HidKeyCode::MediaBack => 0xf1,
            HidKeyCode::MediaForward => 0xf2,
            HidKeyCode::MediaStop => 0xf3,
            HidKeyCode::MediaFind => 0xf4,
            HidKeyCode::MediaRefresh => 0xfa,
            HidKeyCode::MediaCalc => 0xfb,
        }
    }

    /// Which key, if any, a raw usage byte denotes: the checked construction
    /// path that rejects values outside the known set.
    pub open spec fn spec_from_code(c: u8) -> Option<HidKeyCode> {
        match c {
            0x01 => Some(HidKeyCode::ErrorRollOver),
            0x04 => Some(HidKeyCode::KeyA),
            0x05 => Some(HidKeyCode::KeyB),
            0x06 => Some(HidKeyCode::KeyC),
            0x07 => Some(HidKeyCode::KeyD),
            0x08 => Some(HidKeyCode::KeyE),
            0x09 => Some(HidKeyCode::KeyF),
            0x0a => Some(HidKeyCode::KeyG),
            0x0b => Some(HidKeyCode::KeyH),
            0x0c => Some(HidKeyCode::KeyI),
            0x0d => Some(HidKeyCode::KeyJ),
            0x0e => Some(HidKeyCode::KeyK),
            0x0f => Some(HidKeyCode::KeyL),
            0x10 => Some(HidKeyCode::KeyM),
            0x11 => Some(HidKeyCode::KeyN),
            0x12 => Some(HidKeyCode::KeyO),
            0x13 => Some(HidKeyCode::KeyP),
            0x14 => Some(HidKeyCode::KeyQ),
            0x15 => Some(HidKeyCode::KeyR),
            0x16 => Some(HidKeyCode::KeyS),
            0x17 => Some(HidKeyCode::KeyT),
            0x18 => Some(HidKeyCode::KeyU),
            0x19 => Some(HidKeyCode::KeyV),
            0x1a => Some(HidKeyCode::KeyW),
            0x1b => Some(HidKeyCode::KeyX),
            0x1c => Some(HidKeyCode::KeyY),
            0x1d => Some(HidKeyCode::KeyZ),
            0x1e => Some(HidKeyCode::Key1),
            0x1f => Some(HidKeyCode::Key2),
            0x20 => Some(HidKeyCode::Key3),
            0x21 => Some(HidKeyCode::Key4),
            0x22 => Some(HidKeyCode::Key5),
            0x23 => Some(HidKeyCode::Key6),
            0x24 => Some(HidKeyCode::Key7),
            0x25 => Some(HidKeyCode::Key8),
            0x26 => Some(HidKeyCode::Key9),
            0x27 => Some(HidKeyCode::Key0),
            0x28 => Some(HidKeyCode::Enter),
            0x29 => Some(HidKeyCode::Escape),
            0x2a => Some(HidKeyCode::Backspace),
            0x2b => Some(HidKeyCode::Tab),
            0x2c => Some(HidKeyCode::Space),
            0x2d => Some(HidKeyCode::Minus),
            0x2e => Some(HidKeyCode::Equal),
            0x2f => Some(HidKeyCode::LeftBrace),
            0x30 => Some(HidKeyCode::RightBrace),
            0x31 => Some(HidKeyCode::Backslash),
            0x33 => Some(HidKeyCode::Semicolon),
            0x34 => Some(HidKeyCode::Apostrophe),
            0x35 => Some(HidKeyCode::Grave),
            0x36 => Some(HidKeyCode::Comma),
            0x37 => Some(HidKeyCode::Dot),
            0x38 => Some(HidKeyCode::Slash),
            0x39 => Some(HidKeyCode::Capslock),
            0x3a => Some(HidKeyCode::F1),
            0x3b => Some(HidKeyCode::F2),
            0x3c => Some(HidKeyCode::F3),
            0x3d => Some(HidKeyCode::F4),
            0x3e => Some(HidKeyCode::F5),
            0x3f => Some(HidKeyCode::F6),
            0x40 => Some(HidKeyCode::F7),
            0x41 => Some(HidKeyCode::F8),
            0x42 => Some(HidKeyCode::F9),
            0x43 => Some(HidKeyCode::F10),
            0x44 => Some(HidKeyCode::F11),
            0x45 => Some(HidKeyCode::F12),
            0x46 => Some(HidKeyCode::PrintScreen),
            0x47 => Some(HidKeyCode::ScrollLock),
            0x48 => Some(HidKeyCode::Pause),
            0x49 => Some(HidKeyCode::Insert),
            0x4a => Some(HidKeyCode::Home),
            0x4b => Some(HidKeyCode::PageUp),
            0x4c => Some(HidKeyCode::Delete),
            0x4d => Some(HidKeyCode::End),
            0x4e => Some(HidKeyCode::PageDown),
            0x4f => Some(HidKeyCode::Right),
            0x50 => Some(HidKeyCode::Left),
            0x51 => Some(HidKeyCode::Down),
            0x52 => Some(HidKeyCode::Up),
            0x53 => Some(HidKeyCode::NumLock),
            0x54 => Some(HidKeyCode::KpSlash),
            0x55 => Some(HidKeyCode::KpAsterisk),
            0x56 => Some(HidKeyCode::KpMinus),
            0x57 => Some(HidKeyCode::KpPlus),
            0x58 => Some(HidKeyCode::KpEnter),
            0x59 => Some(HidKeyCode::Kp1),
            0x5a => Some(HidKeyCode::Kp2),
            0x5b => Some(HidKeyCode::Kp3),
            0x5c => Some(HidKeyCode::Kp4),
            0x5d => Some(HidKeyCode::Kp5),
            0x5e => Some(HidKeyCode::Kp6),
            0x5f => Some(HidKeyCode::Kp7),
            0x60 => Some(HidKeyCode::Kp8),
            0x61 => Some(HidKeyCode::Kp9),
            0x62 => Some(HidKeyCode::Kp0),
            0x63 => Some(HidKeyCode::KpDot),
            0x64 => Some(HidKeyCode::Key102ND),
            0x65 => Some(HidKeyCode::Compose),
            0x66 => Some(HidKeyCode::Power),
            0x67 => Some(HidKeyCode::KpEqual),
            0x68 => Some(HidKeyCode::F13),
            0x69 => Some(HidKeyCode::F14),
            0x6a => Some(HidKeyCode::F15),
            0x6b => Some(HidKeyCode::F16),
            0x6c => Some(HidKeyCode::F17),
            0x6d => Some(HidKeyCode::F18),
            0x6e => Some(HidKeyCode::F19),
            0x6f => Some(HidKeyCode::F20),
            0x70 => Some(HidKeyCode::F21),
            0x71 => Some(HidKeyCode::F22),
            0x72 => Some(HidKeyCode::F23),
            0x73 => Some(HidKeyCode::F24),
            0x82 => Some(HidKeyCode::LockingCapsLock),
            0x83 => Some(HidKeyCode::LockingNumLock),
            0x85 => Some(HidKeyCode::KpComma),
            0x87 => Some(HidKeyCode::International1),
            0x88 => Some(HidKeyCode::International2),
            0x89 => Some(HidKeyCode::International3),
            0x8a => Some(HidKeyCode::International4),
            0x8b => Some(HidKeyCode::International5),
            0x8c => Some(HidKeyCode::International6),
            0x90 => Some(HidKeyCode::Language1),
            0x91 => Some(HidKeyCode::Language2),
            0x92 => Some(HidKeyCode::Language3),
            0x93 => Some(HidKeyCode::Language4),
            0xe0 => Some(HidKeyCode::LeftCtrl),
            0xe1 => Some(HidKeyCode::LeftShift),
            0xe2 => Some(HidKeyCode::LeftAlt),
            0xe3 => Some(HidKeyCode::LeftMeta),
            0xe4 => Some(HidKeyCode::RightCtrl),
            0xe5 => Some(HidKeyCode::RightShift),
            0xe6 => Some(HidKeyCode::RightAlt),
            0xe7 => Some(HidKeyCode::RightMeta),
            0xe8 => Some(HidKeyCode::MediaPlayPause),
            0xe9 => Some(HidKeyCode::MediaStopCD),
            0xea => Some(HidKeyCode::MediaPreviousSong),
            0xeb => Some(HidKeyCode::MediaNextSong),
            0xec => Some(HidKeyCode::MediaEjectCD),
            0xed => Some(HidKeyCode::MediaVolumeUp),
            0xee => Some(HidKeyCode::MediaVolumeDown),
            0xef => Some(HidKeyCode::MediaMute),
            0xf0 => Some(HidKeyCode::MediaWWW),
            0xf1 => Some(HidKeyCode::MediaBack),
            0xf2 => Some(HidKeyCode::MediaForward),
            0xf3 => Some(HidKeyCode::MediaStop),
            0xf4 => Some(HidKeyCode::MediaFind),
            0xfa => Some(HidKeyCode::MediaRefresh),
            0xfb => Some(HidKeyCode::MediaCalc),
            _ => None,
        }
    }

    /// Checked construction of a key from its raw usage byte; raw values
    /// outside the known set are rejected as `None`.
    pub fn from_code(c: u8) -> (r: Option<HidKeyCode>)
        ensures
            r == Self::spec_from_code(c),
    {
        match c {
            0x01 => Some(HidKeyCode::ErrorRollOver),
            0x04 => Some(HidKeyCode::KeyA),
            0x05 => Some(HidKeyCode::KeyB),
            0x06 => Some(HidKeyCode::KeyC),
            0x07 => Some(HidKeyCode::KeyD),
            0x08 => Some(HidKeyCode::KeyE),
            0x09 => Some(HidKeyCode::KeyF),
            0x0a => Some(HidKeyCode::KeyG),
            0x0b => Some(HidKeyCode::KeyH),
            0x0c => Some(HidKeyCode::KeyI),
            0x0d => Some(HidKeyCode::KeyJ),
            0x0e => Some(HidKeyCode::KeyK),
            0x0f => Some(HidKeyCode::KeyL),
            0x10 => Some(HidKeyCode::KeyM),
            0x11 => Some(HidKeyCode::KeyN),
            0x12 => Some(HidKeyCode::KeyO),
            0x13 => Some(HidKeyCode::KeyP),
            0x14 => Some(HidKeyCode::KeyQ),
            0x15 => Some(HidKeyCode::KeyR),
            0x16 => Some(HidKeyCode::KeyS),
            0x17 => Some(HidKeyCode::KeyT),
            0x18 => Some(HidKeyCode::KeyU),
            0x19 => Some(HidKeyCode::KeyV),
            0x1a => Some(HidKeyCode::KeyW),
            0x1b => Some(HidKeyCode::KeyX),
            0x1c => Some(HidKeyCode::KeyY),
            0x1d => Some(HidKeyCode::KeyZ),
            0x1e => Some(HidKeyCode::Key1),
            0x1f => Some(HidKeyCode::Key2),
            0x20 => Some(HidKeyCode::Key3),
            0x21 => Some(HidKeyCode::Key4),
            0x22 => Some(HidKeyCode::Key5),
            0x23 => Some(HidKeyCode::Key6),
            0x24 => Some(HidKeyCode::Key7),
            0x25 => Some(HidKeyCode::Key8),
            0x26 => Some(HidKeyCode::Key9),
            0x27 => Some(HidKeyCode::Key0),
            0x28 => Some(HidKeyCode::Enter),
            0x29 => Some(HidKeyCode::Escape),
            0x2a => Some(HidKeyCode::Backspace),
            0x2b => Some(HidKeyCode::Tab),
            0x2c => Some(HidKeyCode::Space),
            0x2d => Some(HidKeyCode::Minus),
            0x2e => Some(HidKeyCode::Equal),
            0x2f => Some(HidKeyCode::LeftBrace),
            0x30 => Some(HidKeyCode::RightBrace),
            0x31 => Some(HidKeyCode::Backslash),
            0x33 => Some(HidKeyCode::Semicolon),
            0x34 => Some(HidKeyCode::Apostrophe),
            0x35 => Some(HidKeyCode::Grave),
            0x36 => Some(HidKeyCode::Comma),
            0x37 => Some(HidKeyCode::Dot),
            0x38 => Some(HidKeyCode::Slash),
            0x39 => Some(HidKeyCode::Capslock),
            0x3a => Some(HidKeyCode::F1),
            0x3b => Some(HidKeyCode::F2),
            0x3c => Some(HidKeyCode::F3),
            0x3d => Some(HidKeyCode::F4),
            0x3e => Some(HidKeyCode::F5),
            0x3f => Some(HidKeyCode::F6),
            0x40 => Some(HidKeyCode::F7),
            0x41 => Some(HidKeyCode::F8),
            0x42 => Some(HidKeyCode::F9),
            0x43 => Some(HidKeyCode::F10),
            0x44 => Some(HidKeyCode::F11),
            0x45 => Some(HidKeyCode::F12),
            0x46 => Some(HidKeyCode::PrintScreen),
            0x47 => Some(HidKeyCode::ScrollLock),
            0x48 => Some(HidKeyCode::Pause),
            0x49 => Some(HidKeyCode::Insert),
            0x4a => Some(HidKeyCode::Home),
            0x4b => Some(HidKeyCode::PageUp),
            0x4c => Some(HidKeyCode::Delete),
            0x4d => Some(HidKeyCode::End),
            0x4e => Some(HidKeyCode::PageDown),
            0x4f => Some(HidKeyCode::Right),
            0x50 => Some(HidKeyCode::Left),
            0x51 => Some(HidKeyCode::Down),
            0x52 => Some(HidKeyCode::Up),
            0x53 => Some(HidKeyCode::NumLock),
            0x54 => Some(HidKeyCode::KpSlash),
            0x55 => Some(HidKeyCode::KpAsterisk),
            0x56 => Some(HidKeyCode::KpMinus),
            0x57 => Some(HidKeyCode::KpPlus),
            0x58 => Some(HidKeyCode::KpEnter),
            0x59 => Some(HidKeyCode::Kp1),
            0x5a => Some(HidKeyCode::Kp2),
            0x5b => Some(HidKeyCode::Kp3),
            0x5c => Some(HidKeyCode::Kp4),
            0x5d => Some(HidKeyCode::Kp5),
            0x5e => Some(HidKeyCode::Kp6),
            0x5f => Some(HidKeyCode::Kp7),
            0x60 => Some(HidKeyCode::Kp8),
            0x61 => Some(HidKeyCode::Kp9),
            0x62 => Some(HidKeyCode::Kp0),
            0x63 => Some(HidKeyCode::KpDot),
            0x64 => Some(HidKeyCode::Key102ND),
            0x65 => Some(HidKeyCode::Compose),
            0x66 => Some(HidKeyCode::Power),
            0x67 => Some(HidKeyCode::KpEqual),
            0x68 => Some(HidKeyCode::F13),
            0x69 => Some(HidKeyCode::F14),
            0x6a => Some(HidKeyCode::F15),
            0x6b => Some(HidKeyCode::F16),
            0x6c => Some(HidKeyCode::F17),
            0x6d => Some(HidKeyCode::F18),
            0x6e => Some(HidKeyCode::F19),
            0x6f => Some(HidKeyCode::F20),
            0x70 => Some(HidKeyCode::F21),
            0x71 => Some(HidKeyCode::F22),
            0x72 => Some(HidKeyCode::F23),
            0x73 => Some(HidKeyCode::F24),
            0x82 => Some(HidKeyCode::LockingCapsLock),
            0x83 => Some(HidKeyCode::LockingNumLock),
            0x85 => Some(HidKeyCode::KpComma),
            0x87 => Some(HidKeyCode::International1),
            0x88 => Some(HidKeyCode::International2),
            0x89 => Some(HidKeyCode::International3),
            0x8a => Some(HidKeyCode::International4),
            0x8b => Some(HidKeyCode::International5),
            0x8c => Some(HidKeyCode::International6),
            0x90 => Some(HidKeyCode::Language1),
            0x91 => Some(HidKeyCode::Language2),
            0x92 => Some(HidKeyCode::Language3),
            0x93 => Some(HidKeyCode::Language4),
            0xe0 => Some(HidKeyCode::LeftCtrl),
            0xe1 => Some(HidKeyCode::LeftShift),
            0xe2 => Some(HidKeyCode::LeftAlt),
            0xe3 => Some(HidKeyCode::LeftMeta),
            0xe4 => Some(HidKeyCode::RightCtrl),
            0xe5 => Some(HidKeyCode::RightShift),
            0xe6 => Some(HidKeyCode::RightAlt),
            0xe7 => Some(HidKeyCode::RightMeta),
            0xe8 => Some(HidKeyCode::MediaPlayPause),
            0xe9 => Some(HidKeyCode::MediaStopCD),
            0xea => Some(HidKeyCode::MediaPreviousSong),
            0xeb => Some(HidKeyCode::MediaNextSong),
            0xec => Some(HidKeyCode::MediaEjectCD),
            0xed => Some(HidKeyCode::MediaVolumeUp),
            0xee => Some(HidKeyCode::MediaVolumeDown),
            0xef => Some(HidKeyCode::MediaMute),
            0xf0 => Some(HidKeyCode::MediaWWW),
            0xf1 => Some(HidKeyCode::MediaBack),
            0xf2 => Some(HidKeyCode::MediaForward),
            0xf3 => Some(HidKeyCode::MediaStop),
            0xf4 => Some(HidKeyCode::MediaFind),
            0xfa => Some(HidKeyCode::MediaRefresh),
            0xfb => Some(HidKeyCode::MediaCalc),
            _ => None,
        }
    }

    /// Every key is recovered from its own usage value: the usage table and
    /// the checked construction path agree, so usage values are unique.
    pub proof fn lemma_code_roundtrip(k: HidKeyCode)
        ensures
            Self::spec_from_code(k.spec_code()) == Some(k),
    {
    }

    /// Every accepted raw byte maps back to itself: construction followed by
    /// reading the usage value is the identity on the known set.
    pub proof fn lemma_from_code_roundtrip(c: u8)
        ensures
            Self::spec_from_code(c) matches Some(k) ==> k.spec_code() == c,
    {
    }

    /// No two distinct keys share a usage value.
    pub proof fn lemma_code_injective(a: HidKeyCode, b: HidKeyCode)
        requires
            a.spec_code() == b.spec_code(),
        ensures
            a == b,
    {
        Self::lemma_code_roundtrip(a);
        Self::lemma_code_roundtrip(b);
    }
}

} // verus!
