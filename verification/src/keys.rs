//! The native input vocabulary of the host operating system: scan codes,
//! virtual-key identifiers and key transition states, exactly as the
//! input-capture collaborator reports them.
//!
//! The numeric value of each virtual key is the operating system's stable
//! key-code space, a wire/ABI contract that is not free to be renumbered:
//! it is pinned by the `spec_code` table and guarded by a checked
//! construction path from raw integers.

use vstd::prelude::*;

verus! {

/// A hardware scan code as the host reports it: a base byte in
/// `0x00..=0xFF`, with extended-prefix codes folded into values
/// `>= 0x100` (the `0xE000..=0xE1FF` range).
pub type WindowsScanCode = u16;

/// The legacy single-byte key encoding kept for receivers that predate the
/// full HID usage table.
pub type HidScanCode = u8;

/// Whether a key event is a press or a release.
#[derive(Clone, Copy, Debug, PartialEq, Eq, Hash, Structural)]
pub enum KeyState {
    Pressed,
    Released,
}

/// A native virtual-key identifier: the host's closed, semantic key-code
/// space, one variant per distinct native constant (keyboard keys, mouse
/// buttons, browser/media keys, gamepad controls and OEM keys).
#[derive(Clone, Copy, Debug, PartialEq, Eq, Hash, Structural)]
pub enum VirtualKey {
    LButton,
    RButton,
    Cancel,
    MButton,
    XButton1,
    XButton2,
    Back,
    Tab,
    Clear,
    Return,
    Shift,
    Control,
    Menu,
    Pause,
    Capital,
    KanaHangeulHangul,
    ImeOn,
    Junja,
    Final,
    HanjaKanji,
    ImeOff,
    Escape,
    Convert,
    NonConvert,
    Accept,
    ModeChange,
    Space,
    Prior,
    Next,
    End,
    Home,
    Left,
    Up,
    Right,
    Down,
    Select,
    Print,
    Execute,
    Snapshot,
    Insert,
    Delete,
    Help,
    Key0,
    Key1,
    Key2,
    Key3,
    Key4,
    Key5,
    Key6,
    Key7,
    Key8,
    Key9,
    KeyA,
    KeyB,
    KeyC,
    KeyD,
    KeyE,
    KeyF,
    KeyG,
    KeyH,
    KeyI,
    KeyJ,
    KeyK,
    KeyL,
    KeyM,
    KeyN,
    KeyO,
    KeyP,
    KeyQ,
    KeyR,
    KeyS,
    KeyT,
    KeyU,
    KeyV,
    KeyW,
    KeyX,
    KeyY,
    KeyZ,
    LWin,
    RWin,
    Apps,
    Sleep,
    Numpad0,
    Numpad1,
    Numpad2,
    Numpad3,
    Numpad4,
    Numpad5,
    Numpad6,
    Numpad7,
    Numpad8,
    Numpad9,
    Multiply,
    Add,
    Separator,
    Subtract,
    Decimal,
    Divide,
    F1,
    F2,
    F3,
    F4,
    F5,
    F6,
    F7,
    F8,
    F9,
    F10,
    F11,
    F12,
    F13,
    F14,
    F15,
    F16,
    F17,
    F18,
    F19,
    F20,
    F21,
    F22,
    F23,
    F24,
    NavigationView,
    NavigationMenu,
    NavigationUp,
    NavigationDown,
    NavigationLeft,
    NavigationRight,
    NavigationAccept,
    NavigationCancel,
    Numlock,
    Scroll,
    OemNecEqualFjJisho,
    OemFjMasshou,
    OemFjTouroku,
    OemFjLoya,
    OemFjRoya,
    LShift,
    RShift,
    LControl,
    RControl,
    LMenu,
    RMenu,
    BrowserBack,
    BrowserForward,
    BrowserRefresh,
    BrowserStop,
    BrowserSearch,
    BrowserFavorites,
    BrowserHome,
    VolumeMute,
    VolumeDown,
    VolumeUp,
    MediaNextTrack,
    MediaPrevTrack,
    MediaStop,
    MediaPlayPause,
    LaunchMail,
    LaunchMediaSelect,
    LaunchApp1,
    LaunchApp2,
    Oem1,
    OemPlus,
    OemComma,
    OemMinus,
    OemPeriod,
    Oem2,
    Oem3,
    GamepadA,
    GamepadB,
    GamepadX,
    GamepadY,
    GamepadRightShoulder,
    GamepadLeftShoulder,
    GamepadLeftTrigger,
    GamepadRightTrigger,
    GamepadDPadUp,
    GamepadDPadDown,
    GamepadDPadLeft,
    GamepadDPadRight,
    GamepadMenu,
    GamepadView,
    GamepadLeftThumbStickButton,
    GamepadRightThumbStickButton,
    GamepadLeftThumbStickUp,
    GamepadLeftThumbStickDown,
    GamepadLeftThumbStickRight,
    GamepadLeftThumbStickLeft,
    GamepadRightThumbStickUp,
    GamepadRightThumbStickDown,
    GamepadRightThumbStickRight,
    GamepadRightThumbStickLeft,
    Oem4,
    Oem5,
    Oem6,
    Oem7,
    Oem8,
    OemAx,
    Oem102,
    IcoHelp,
    Ico00,
    ProcessKey,
    IcoClear,
    Packet,
    OemReset,
    OemJump,
    OemPa1,
    OemPa2,
    OemPa3,
    OemWsCtrl,
    OemCusel,
    OemAttn,
    OemFinish,
    OemCopy,
    OemAuto,
    OemEnlw,
    OemBackTab,
    Attn,
    Crsel,
    Exsel,
    Ereof,
    Play,
    Zoom,
    Noname,
    Pa1,
    OemClear,
}

impl VirtualKey {
    /// The native numeric key code of this virtual key, per the host
    /// operating system's ABI.
    pub open spec fn spec_code(self) -> u32 {
        match self {
            VirtualKey::LButton => 0x01,
            VirtualKey::RButton => 0x02,
            VirtualKey::Cancel => 0x03,
            VirtualKey::MButton => 0x04,
            VirtualKey::XButton1 => 0x05,
            VirtualKey::XButton2 => 0x06,
            VirtualKey::Back => 0x08,
            VirtualKey::Tab => 0x09,
            VirtualKey::Clear => 0x0C,
            VirtualKey::Return => 0x0D,
            VirtualKey::Shift => 0x10,
            VirtualKey::Control => 0x11,
            VirtualKey::Menu => 0x12,
            VirtualKey::Pause => 0x13,
            VirtualKey::Capital => 0x14,
            VirtualKey::KanaHangeulHangul => 0x15,
            VirtualKey::ImeOn => 0x16,
            VirtualKey::Junja => 0x17,
            VirtualKey::Final => 0x18,
            VirtualKey::HanjaKanji => 0x19,
            VirtualKey::ImeOff => 0x1A,
            VirtualKey::Escape => 0x1B,
            VirtualKey::Convert => 0x1C,
            VirtualKey::NonConvert => 0x1D,
            VirtualKey::Accept => 0x1E,
            VirtualKey::ModeChange => 0x1F,
            VirtualKey::Space => 0x20,
            VirtualKey::Prior => 0x21,
            VirtualKey::Next => 0x22,
            VirtualKey::End => 0x23,
            VirtualKey::Home => 0x24,
            VirtualKey::Left => 0x25,
            VirtualKey::Up => 0x26,
            VirtualKey::Right => 0x27,
            VirtualKey::Down => 0x28,
            VirtualKey::Select => 0x29,
            VirtualKey::Print => 0x2A,
            VirtualKey::Execute => 0x2B,
            VirtualKey::Snapshot => 0x2C,
            VirtualKey::Insert => 0x2D,
            VirtualKey::Delete => 0x2E,
            VirtualKey::Help => 0x2F,
            VirtualKey::Key0 => 0x30,
            VirtualKey::Key1 => 0x31,
            VirtualKey::Key2 => 0x32,
            VirtualKey::Key3 => 0x33,
            VirtualKey::Key4 => 0x34,
            VirtualKey::Key5 => 0x35,
            VirtualKey::Key6 => 0x36,
            VirtualKey::Key7 => 0x37,
            VirtualKey::Key8 => 0x38,
            VirtualKey::Key9 => 0x39,
            VirtualKey::KeyA => 0x41,
            VirtualKey::KeyB => 0x42,
            VirtualKey::KeyC => 0x43,
            VirtualKey::KeyD => 0x44,
            VirtualKey::KeyE => 0x45,
            VirtualKey::KeyF => 0x46,
            VirtualKey::KeyG => 0x47,
            VirtualKey::KeyH => 0x48,
            VirtualKey::KeyI => 0x49,
            VirtualKey::KeyJ => 0x4A,
            VirtualKey::KeyK => 0x4B,
            VirtualKey::KeyL => 0x4C,
            VirtualKey::KeyM => 0x4D,
            VirtualKey::KeyN => 0x4E,
            VirtualKey::KeyO => 0x4F,
            VirtualKey::KeyP => 0x50,
            VirtualKey::KeyQ => 0x51,
            VirtualKey::KeyR => 0x52,
            VirtualKey::KeyS => 0x53,
            VirtualKey::KeyT => 0x54,
            VirtualKey::KeyU => 0x55,
            VirtualKey::KeyV => 0x56,
            VirtualKey::KeyW => 0x57,
            VirtualKey::KeyX => 0x58,
            VirtualKey::KeyY => 0x59,
            VirtualKey::KeyZ => 0x5A,
            VirtualKey::LWin => 0x5B,
            VirtualKey::RWin => 0x5C,
            VirtualKey::Apps => 0x5D,
            VirtualKey::Sleep => 0x5F,
            VirtualKey::Numpad0 => 0x60,
            VirtualKey::Numpad1 => 0x61,
            VirtualKey::Numpad2 => 0x62,
            VirtualKey::Numpad3 => 0x63,
            VirtualKey::Numpad4 => 0x64,
            VirtualKey::Numpad5 => 0x65,
            VirtualKey::Numpad6 => 0x66,
            VirtualKey::Numpad7 => 0x67,
            VirtualKey::Numpad8 => 0x68,
            VirtualKey::Numpad9 => 0x69,
            VirtualKey::Multiply => 0x6A,
            VirtualKey::Add => 0x6B,
            VirtualKey::Separator => 0x6C,
            VirtualKey::Subtract => 0x6D,
            VirtualKey::Decimal => 0x6E,
            VirtualKey::Divide => 0x6F,
            VirtualKey::F1 => 0x70,
            VirtualKey::F2 => 0x71,
            VirtualKey::F3 => 0x72,
            VirtualKey::F4 => 0x73,
            VirtualKey::F5 => 0x74,
            VirtualKey::F6 => 0x75,
            VirtualKey::F7 => 0x76,
            VirtualKey::F8 => 0x77,
            VirtualKey::F9 => 0x78,
            VirtualKey::F10 => 0x79,
            VirtualKey::F11 => 0x7A,
            VirtualKey::F12 => 0x7B,
            VirtualKey::F13 => 0x7C,
            VirtualKey::F14 => 0x7D,
            VirtualKey::F15 => 0x7E,
            VirtualKey::F16 => 0x7F,
            VirtualKey::F17 => 0x80,
            VirtualKey::F18 => 0x81,
            VirtualKey::F19 => 0x82,
            VirtualKey::F20 => 0x83,
            VirtualKey::F21 => 0x84,
            VirtualKey::F22 => 0x85,
            VirtualKey::F23 => 0x86,
            VirtualKey::F24 => 0x87,
            VirtualKey::NavigationView => 0x88,
            VirtualKey::NavigationMenu => 0x89,
            VirtualKey::NavigationUp => 0x8A,
            VirtualKey::NavigationDown => 0x8B,
            VirtualKey::NavigationLeft => 0x8C,
            VirtualKey::NavigationRight => 0x8D,
            VirtualKey::NavigationAccept => 0x8E,
            VirtualKey::NavigationCancel => 0x8F,
            VirtualKey::Numlock => 0x90,
            VirtualKey::Scroll => 0x91,
            VirtualKey::OemNecEqualFjJisho => 0x92,
            VirtualKey::OemFjMasshou => 0x93,
            VirtualKey::OemFjTouroku => 0x94,
            VirtualKey::OemFjLoya => 0x95,
            VirtualKey::OemFjRoya => 0x96,
            VirtualKey::LShift => 0xA0,
            VirtualKey::RShift => 0xA1,
            VirtualKey::LControl => 0xA2,
            VirtualKey::RControl => 0xA3,
            VirtualKey::LMenu => 0xA4,
            VirtualKey::RMenu => 0xA5,
            VirtualKey::BrowserBack => 0xA6,
            VirtualKey::BrowserForward => 0xA7,
            VirtualKey::BrowserRefresh => 0xA8,
            VirtualKey::BrowserStop => 0xA9,
            VirtualKey::BrowserSearch => 0xAA,
            VirtualKey::BrowserFavorites => 0xAB,
            VirtualKey::BrowserHome => 0xAC,
            VirtualKey::VolumeMute => 0xAD,
            VirtualKey::VolumeDown => 0xAE,
            VirtualKey::VolumeUp => 0xAF,
            VirtualKey::MediaNextTrack => 0xB0,
            VirtualKey::MediaPrevTrack => 0xB1,
            VirtualKey::MediaStop => 0xB2,
            VirtualKey::MediaPlayPause => 0xB3,
            VirtualKey::LaunchMail => 0xB4,
            VirtualKey::LaunchMediaSelect => 0xB5,
            VirtualKey::LaunchApp1 => 0xB6,
            VirtualKey::LaunchApp2 => 0xB7,
            VirtualKey::Oem1 => 0xBA,
            VirtualKey::OemPlus => 0xBB,
            VirtualKey::OemComma => 0xBC,
            VirtualKey::OemMinus => 0xBD,
            VirtualKey::OemPeriod => 0xBE,
            VirtualKey::Oem2 => 0xBF,
            VirtualKey::Oem3 => 0xC0,
            VirtualKey::GamepadA => 0xC3,
            VirtualKey::GamepadB => 0xC4,
            VirtualKey::GamepadX => 0xC5,
            VirtualKey::GamepadY => 0xC6,
            VirtualKey::GamepadRightShoulder => 0xC7,
            VirtualKey::GamepadLeftShoulder => 0xC8,
            VirtualKey::GamepadLeftTrigger => 0xC9,
            VirtualKey::GamepadRightTrigger => 0xCA,
            VirtualKey::GamepadDPadUp => 0xCB,
            VirtualKey::GamepadDPadDown => 0xCC,
            VirtualKey::GamepadDPadLeft => 0xCD,
            VirtualKey::GamepadDPadRight => 0xCE,
            VirtualKey::GamepadMenu => 0xCF,
            VirtualKey::GamepadView => 0xD0,
            VirtualKey::GamepadLeftThumbStickButton => 0xD1,
            VirtualKey::GamepadRightThumbStickButton => 0xD2,
            VirtualKey::GamepadLeftThumbStickUp => 0xD3,
            VirtualKey::GamepadLeftThumbStickDown => 0xD4,
            VirtualKey::GamepadLeftThumbStickRight => 0xD5,
            VirtualKey::GamepadLeftThumbStickLeft => 0xD6,
            VirtualKey::GamepadRightThumbStickUp => 0xD7,
            VirtualKey::GamepadRightThumbStickDown => 0xD8,
            VirtualKey::GamepadRightThumbStickRight => 0xD9,
            VirtualKey::GamepadRightThumbStickLeft => 0xDA,
            VirtualKey::Oem4 => 0xDB,
            VirtualKey::Oem5 => 0xDC,
            VirtualKey::Oem6 => 0xDD,
            VirtualKey::Oem7 => 0xDE,
            VirtualKey::Oem8 => 0xDF,
            VirtualKey::OemAx => 0xE1,
            VirtualKey::Oem102 => 0xE2,
            VirtualKey::IcoHelp => 0xE3,
            VirtualKey::Ico00 => 0xE4,
            VirtualKey::ProcessKey => 0xE5,
            VirtualKey::IcoClear => 0xE6,
            VirtualKey::Packet => 0xE7,
            VirtualKey::OemReset => 0xE9,
            VirtualKey::OemJump => 0xEA,
            VirtualKey::OemPa1 => 0xEB,
            VirtualKey::OemPa2 => 0xEC,
            VirtualKey::OemPa3 => 0xED,
            VirtualKey::OemWsCtrl => 0xEE,
            VirtualKey::OemCusel => 0xEF,
            VirtualKey::OemAttn => 0xF0,
            VirtualKey::OemFinish => 0xF1,
            VirtualKey::OemCopy => 0xF2,
            VirtualKey::OemAuto => 0xF3,
            VirtualKey::OemEnlw => 0xF4,
            VirtualKey::OemBackTab => 0xF5,
            VirtualKey::Attn => 0xF6,
            VirtualKey::Crsel => 0xF7,
            VirtualKey::Exsel => 0xF8,
            VirtualKey::Ereof => 0xF9,
            VirtualKey::Play => 0xFA,
            VirtualKey::Zoom => 0xFB,
            VirtualKey::Noname => 0xFC,
            VirtualKey::Pa1 => 0xFD,
            VirtualKey::OemClear => 0xFE,
        }
    }

    /// The native numeric key code of this virtual key.
    pub fn code(self) -> (r: u32)
        ensures
            r == self.spec_code(),
    {
        match self {
            VirtualKey::LButton => 0x01,
            VirtualKey::RButton => 0x02,
            VirtualKey::Cancel => 0x03,
            VirtualKey::MButton => 0x04,
            VirtualKey::XButton1 => 0x05,
            VirtualKey::XButton2 => 0x06,
            VirtualKey::Back => 0x08,
            VirtualKey::Tab => 0x09,
            VirtualKey::Clear => 0x0C,
            VirtualKey::Return => 0x0D,
            VirtualKey::Shift => 0x10,
            VirtualKey::Control => 0x11,
            VirtualKey::Menu => 0x12,
            VirtualKey::Pause => 0x13,
            VirtualKey::Capital => 0x14,
            VirtualKey::KanaHangeulHangul => 0x15,
            VirtualKey::ImeOn => 0x16,
            VirtualKey::Junja => 0x17,
            VirtualKey::Final => 0x18,
            VirtualKey::HanjaKanji => 0x19,
            VirtualKey::ImeOff => 0x1A,
            VirtualKey::Escape => 0x1B,
            VirtualKey::Convert => 0x1C,
            VirtualKey::NonConvert => 0x1D,
            VirtualKey::Accept => 0x1E,
            VirtualKey::ModeChange => 0x1F,
            VirtualKey::Space => 0x20,
            VirtualKey::Prior => 0x21,
            VirtualKey::Next => 0x22,
            VirtualKey::End => 0x23,
            VirtualKey::Home => 0x24,
            VirtualKey::Left => 0x25,
            VirtualKey::Up => 0x26,
            VirtualKey::Right => 0x27,
            VirtualKey::Down => 0x28,
            VirtualKey::Select => 0x29,
            VirtualKey::Print => 0x2A,
            VirtualKey::Execute => 0x2B,
            VirtualKey::Snapshot => 0x2C,
            VirtualKey::Insert => 0x2D,
            VirtualKey::Delete => 0x2E,
            VirtualKey::Help => 0x2F,
            VirtualKey::Key0 => 0x30,
            VirtualKey::Key1 => 0x31,
            VirtualKey::Key2 => 0x32,
            VirtualKey::Key3 => 0x33,
            VirtualKey::Key4 => 0x34,
            VirtualKey::Key5 => 0x35,
            VirtualKey::Key6 => 0x36,
            VirtualKey::Key7 => 0x37,
            VirtualKey::Key8 => 0x38,
            VirtualKey::Key9 => 0x39,
            VirtualKey::KeyA => 0x41,
            VirtualKey::KeyB => 0x42,
            VirtualKey::KeyC => 0x43,
            VirtualKey::KeyD => 0x44,
            VirtualKey::KeyE => 0x45,
            VirtualKey::KeyF => 0x46,
            VirtualKey::KeyG => 0x47,
            VirtualKey::KeyH => 0x48,
            VirtualKey::KeyI => 0x49,
            VirtualKey::KeyJ => 0x4A,
            VirtualKey::KeyK => 0x4B,
            VirtualKey::KeyL => 0x4C,
            VirtualKey::KeyM => 0x4D,
            VirtualKey::KeyN => 0x4E,
            VirtualKey::KeyO => 0x4F,
            VirtualKey::KeyP => 0x50,
            VirtualKey::KeyQ => 0x51,
            VirtualKey::KeyR => 0x52,
            VirtualKey::KeyS => 0x53,
            VirtualKey::KeyT => 0x54,
            VirtualKey::KeyU => 0x55,
            VirtualKey::KeyV => 0x56,
            VirtualKey::KeyW => 0x57,
            VirtualKey::KeyX => 0x58,
            VirtualKey::KeyY => 0x59,
            VirtualKey::KeyZ => 0x5A,
            VirtualKey::LWin => 0x5B,
            VirtualKey::RWin => 0x5C,
            VirtualKey::Apps => 0x5D,
            VirtualKey::Sleep => 0x5F,
            VirtualKey::Numpad0 => 0x60,
            VirtualKey::Numpad1 => 0x61,
            VirtualKey::Numpad2 => 0x62,
            VirtualKey::Numpad3 => 0x63,
            VirtualKey::Numpad4 => 0x64,
            VirtualKey::Numpad5 => 0x65,
            VirtualKey::Numpad6 => 0x66,
            VirtualKey::Numpad7 => 0x67,
            VirtualKey::Numpad8 => 0x68,
            VirtualKey::Numpad9 => 0x69,
            VirtualKey::Multiply => 0x6A,
            VirtualKey::Add => 0x6B,
            VirtualKey::Separator => 0x6C,
            VirtualKey::Subtract => 0x6D,
            VirtualKey::Decimal => 0x6E,
            VirtualKey::Divide => 0x6F,
            VirtualKey::F1 => 0x70,
            VirtualKey::F2 => 0x71,
            VirtualKey::F3 => 0x72,
            VirtualKey::F4 => 0x73,
            VirtualKey::F5 => 0x74,
            VirtualKey::F6 => 0x75,
            VirtualKey::F7 => 0x76,
            VirtualKey::F8 => 0x77,
            VirtualKey::F9 => 0x78,
            VirtualKey::F10 => 0x79,
            VirtualKey::F11 => 0x7A,
            VirtualKey::F12 => 0x7B,
            VirtualKey::F13 => 0x7C,
            VirtualKey::F14 => 0x7D,
            VirtualKey::F15 => 0x7E,
            VirtualKey::F16 => 0x7F,
            VirtualKey::F17 => 0x80,
            VirtualKey::F18 => 0x81,
            VirtualKey::F19 => 0x82,
            VirtualKey::F20 => 0x83,
            VirtualKey::F21 => 0x84,
            VirtualKey::F22 => 0x85,
            VirtualKey::F23 => 0x86,
            VirtualKey::F24 => 0x87,
            VirtualKey::NavigationView => 0x88,
            VirtualKey::NavigationMenu => 0x89,
            VirtualKey::NavigationUp => 0x8A,
            VirtualKey::NavigationDown => 0x8B,
            VirtualKey::NavigationLeft => 0x8C,
            VirtualKey::NavigationRight => 0x8D,
            VirtualKey::NavigationAccept => 0x8E,
            VirtualKey::NavigationCancel => 0x8F,
            VirtualKey::Numlock => 0x90,
            VirtualKey::Scroll => 0x91,
            VirtualKey::OemNecEqualFjJisho => 0x92,
            VirtualKey::OemFjMasshou => 0x93,
            VirtualKey::OemFjTouroku => 0x94,
            VirtualKey::OemFjLoya => 0x95,
            VirtualKey::OemFjRoya => 0x96,
            VirtualKey::LShift => 0xA0,
            VirtualKey::RShift => 0xA1,
            VirtualKey::LControl => 0xA2,
            VirtualKey::RControl => 0xA3,
            VirtualKey::LMenu => 0xA4,
            VirtualKey::RMenu => 0xA5,
            VirtualKey::BrowserBack => 0xA6,
            VirtualKey::BrowserForward => 0xA7,
            VirtualKey::BrowserRefresh => 0xA8,
            VirtualKey::BrowserStop => 0xA9,
            VirtualKey::BrowserSearch => 0xAA,
            VirtualKey::BrowserFavorites => 0xAB,
            VirtualKey::BrowserHome => 0xAC,
            VirtualKey::VolumeMute => 0xAD,
            VirtualKey::VolumeDown => 0xAE,
            VirtualKey::VolumeUp => 0xAF,
            VirtualKey::MediaNextTrack => 0xB0,
            VirtualKey::MediaPrevTrack => 0xB1,
            VirtualKey::MediaStop => 0xB2,
            VirtualKey::MediaPlayPause => 0xB3,
            VirtualKey::LaunchMail => 0xB4,
            VirtualKey::LaunchMediaSelect => 0xB5,
            VirtualKey::LaunchApp1 => 0xB6,
            VirtualKey::LaunchApp2 => 0xB7,
            VirtualKey::Oem1 => 0xBA,
            VirtualKey::OemPlus => 0xBB,
            VirtualKey::OemComma => 0xBC,
            VirtualKey::OemMinus => 0xBD,
            VirtualKey::OemPeriod => 0xBE,
            VirtualKey::Oem2 => 0xBF,
            VirtualKey::Oem3 => 0xC0,
            VirtualKey::GamepadA => 0xC3,
            VirtualKey::GamepadB => 0xC4,
            VirtualKey::GamepadX => 0xC5,
            VirtualKey::GamepadY => 0xC6,
            VirtualKey::GamepadRightShoulder => 0xC7,
            VirtualKey::GamepadLeftShoulder => 0xC8,
            VirtualKey::GamepadLeftTrigger => 0xC9,
            VirtualKey::GamepadRightTrigger => 0xCA,
            VirtualKey::GamepadDPadUp => 0xCB,
            VirtualKey::GamepadDPadDown => 0xCC,
            VirtualKey::GamepadDPadLeft => 0xCD,
            VirtualKey::GamepadDPadRight => 0xCE,
            VirtualKey::GamepadMenu => 0xCF,
            VirtualKey::GamepadView => 0xD0,
            VirtualKey::GamepadLeftThumbStickButton => 0xD1,
            VirtualKey::GamepadRightThumbStickButton => 0xD2,
            VirtualKey::GamepadLeftThumbStickUp => 0xD3,
            VirtualKey::GamepadLeftThumbStickDown => 0xD4,
            VirtualKey::GamepadLeftThumbStickRight => 0xD5,
            VirtualKey::GamepadLeftThumbStickLeft => 0xD6,
            VirtualKey::GamepadRightThumbStickUp => 0xD7,
            VirtualKey::GamepadRightThumbStickDown => 0xD8,
            VirtualKey::GamepadRightThumbStickRight => 0xD9,
            VirtualKey::GamepadRightThumbStickLeft => 0xDA,
            VirtualKey::Oem4 => 0xDB,
            VirtualKey::Oem5 => 0xDC,
            VirtualKey::Oem6 => 0xDD,
            VirtualKey::Oem7 => 0xDE,
            VirtualKey::Oem8 => 0xDF,
            VirtualKey::OemAx => 0xE1,
            VirtualKey::Oem102 => 0xE2,
            VirtualKey::IcoHelp => 0xE3,
            VirtualKey::Ico00 => 0xE4,
            VirtualKey::ProcessKey => 0xE5,
            VirtualKey::IcoClear => 0xE6,
            VirtualKey::Packet => 0xE7,
            VirtualKey::OemReset => 0xE9,
            VirtualKey::OemJump => 0xEA,
            VirtualKey::OemPa1 => 0xEB,
            VirtualKey::OemPa2 => 0xEC,
            VirtualKey::OemPa3 => 0xED,
            VirtualKey::OemWsCtrl => 0xEE,
            VirtualKey::OemCusel => 0xEF,
            VirtualKey::OemAttn => 0xF0,
            VirtualKey::OemFinish => 0xF1,
            VirtualKey::OemCopy => 0xF2,
            VirtualKey::OemAuto => 0xF3,
            VirtualKey::OemEnlw => 0xF4,
            VirtualKey::OemBackTab => 0xF5,
            VirtualKey::Attn => 0xF6,
            VirtualKey::Crsel => 0xF7,
            VirtualKey::Exsel => 0xF8,
            VirtualKey::Ereof => 0xF9,
            VirtualKey::Play => 0xFA,
            VirtualKey::Zoom => 0xFB,
            VirtualKey::Noname => 0xFC,
            VirtualKey::Pa1 => 0xFD,
            VirtualKey::OemClear => 0xFE,
        }
    }

    /// Which virtual key, if any, a raw native key code denotes: the checked
    /// construction path that rejects values outside the known set.
    pub open spec fn spec_from_code(c: u32) -> Option<VirtualKey> {
        match c {
            0x01 => Some(VirtualKey::LButton),
            0x02 => Some(VirtualKey::RButton),
            0x03 => Some(VirtualKey::Cancel),
            0x04 => Some(VirtualKey::MButton),
            0x05 => Some(VirtualKey::XButton1),
            0x06 => Some(VirtualKey::XButton2),
            0x08 => Some(VirtualKey::Back),
            0x09 => Some(VirtualKey::Tab),
            0x0C => Some(VirtualKey::Clear),
            0x0D => Some(VirtualKey::Return),
            0x10 => Some(VirtualKey::Shift),
            0x11 => Some(VirtualKey::Control),
            0x12 => Some(VirtualKey::Menu),
            0x13 => Some(VirtualKey::Pause),
            0x14 => Some(VirtualKey::Capital),
            0x15 => Some(VirtualKey::KanaHangeulHangul),
            0x16 => Some(VirtualKey::ImeOn),
            0x17 => Some(VirtualKey::Junja),
            0x18 => Some(VirtualKey::Final),
            0x19 => Some(VirtualKey::HanjaKanji),
            0x1A => Some(VirtualKey::ImeOff),
            0x1B => Some(VirtualKey::Escape),
            0x1C => Some(VirtualKey::Convert),
            0x1D => Some(VirtualKey::NonConvert),
            0x1E => Some(VirtualKey::Accept),
            0x1F => Some(VirtualKey::ModeChange),
            0x20 => Some(VirtualKey::Space),
            0x21 => Some(VirtualKey::Prior),
            0x22 => Some(VirtualKey::Next),
            0x23 => Some(VirtualKey::End),
            0x24 => Some(VirtualKey::Home),
            0x25 => Some(VirtualKey::Left),
            0x26 => Some(VirtualKey::Up),
            0x27 => Some(VirtualKey::Right),
            0x28 => Some(VirtualKey::Down),
            0x29 => Some(VirtualKey::Select),
            0x2A => Some(VirtualKey::Print),
            0x2B => Some(VirtualKey::Execute),
            0x2C => Some(VirtualKey::Snapshot),
            0x2D => Some(VirtualKey::Insert),
            0x2E => Some(VirtualKey::Delete),
            0x2F => Some(VirtualKey::Help),
            0x30 => Some(VirtualKey::Key0),
            0x31 => Some(VirtualKey::Key1),
            0x32 => Some(VirtualKey::Key2),
            0x33 => Some(VirtualKey::Key3),
            0x34 => Some(VirtualKey::Key4),
            0x35 => Some(VirtualKey::Key5),
            0x36 => Some(VirtualKey::Key6),
            0x37 => Some(VirtualKey::Key7),
            0x38 => Some(VirtualKey::Key8),
            0x39 => Some(VirtualKey::Key9),
            0x41 => Some(VirtualKey::KeyA),
            0x42 => Some(VirtualKey::KeyB),
            0x43 => Some(VirtualKey::KeyC),
            0x44 => Some(VirtualKey::KeyD),
            0x45 => Some(VirtualKey::KeyE),
            0x46 => Some(VirtualKey::KeyF),
            0x47 => Some(VirtualKey::KeyG),
            0x48 => Some(VirtualKey::KeyH),
            0x49 => Some(VirtualKey::KeyI),
            0x4A => Some(VirtualKey::KeyJ),
            0x4B => Some(VirtualKey::KeyK),
            0x4C => Some(VirtualKey::KeyL),
            0x4D => Some(VirtualKey::KeyM),
            0x4E => Some(VirtualKey::KeyN),
            0x4F => Some(VirtualKey::KeyO),
            0x50 => Some(VirtualKey::KeyP),
            0x51 => Some(VirtualKey::KeyQ),
            0x52 => Some(VirtualKey::KeyR),
            0x53 => Some(VirtualKey::KeyS),
            0x54 => Some(VirtualKey::KeyT),
            0x55 => Some(VirtualKey::KeyU),
            0x56 => Some(VirtualKey::KeyV),
            0x57 => Some(VirtualKey::KeyW),
            0x58 => Some(VirtualKey::KeyX),
            0x59 => Some(VirtualKey::KeyY),
            0x5A => Some(VirtualKey::KeyZ),
            0x5B => Some(VirtualKey::LWin),
            0x5C => Some(VirtualKey::RWin),
            0x5D => Some(VirtualKey::Apps),
            0x5F => Some(VirtualKey::Sleep),
            0x60 => Some(VirtualKey::Numpad0),
            0x61 => Some(VirtualKey::Numpad1),
            0x62 => Some(VirtualKey::Numpad2),
            0x63 => Some(VirtualKey::Numpad3),
            0x64 => Some(VirtualKey::Numpad4),
            0x65 => Some(VirtualKey::Numpad5),
            0x66 => Some(VirtualKey::Numpad6),
            0x67 => Some(VirtualKey::Numpad7),
            0x68 => Some(VirtualKey::Numpad8),
            0x69 => Some(VirtualKey::Numpad9),
            0x6A => Some(VirtualKey::Multiply),
            0x6B => Some(VirtualKey::Add),
            0x6C => Some(VirtualKey::Separator),
            0x6D => Some(VirtualKey::Subtract),
            0x6E => Some(VirtualKey::Decimal),
            0x6F => Some(VirtualKey::Divide),
            0x70 => Some(VirtualKey::F1),
            0x71 => Some(VirtualKey::F2),
            0x72 => Some(VirtualKey::F3),
            0x73 => Some(VirtualKey::F4),
            0x74 => Some(VirtualKey::F5),
            0x75 => Some(VirtualKey::F6),
            0x76 => Some(VirtualKey::F7),
            0x77 => Some(VirtualKey::F8),
            0x78 => Some(VirtualKey::F9),
            0x79 => Some(VirtualKey::F10),
            0x7A => Some(VirtualKey::F11),
            0x7B => Some(VirtualKey::F12),
            0x7C => Some(VirtualKey::F13),
            0x7D => Some(VirtualKey::F14),
            0x7E => Some(VirtualKey::F15),
            0x7F => Some(VirtualKey::F16),
            0x80 => Some(VirtualKey::F17),
            0x81 => Some(VirtualKey::F18),
            0x82 => Some(VirtualKey::F19),
            0x83 => Some(VirtualKey::F20),
            0x84 => Some(VirtualKey::F21),
            0x85 => Some(VirtualKey::F22),
            0x86 => Some(VirtualKey::F23),
            0x87 => Some(VirtualKey::F24),
            0x88 => Some(VirtualKey::NavigationView),
            0x89 => Some(VirtualKey::NavigationMenu),
            0x8A => Some(VirtualKey::NavigationUp),
            0x8B => Some(VirtualKey::NavigationDown),
            0x8C => Some(VirtualKey::NavigationLeft),
            0x8D => Some(VirtualKey::NavigationRight),
            0x8E => Some(VirtualKey::NavigationAccept),
            0x8F => Some(VirtualKey::NavigationCancel),
            0x90 => Some(VirtualKey::Numlock),
            0x91 => Some(VirtualKey::Scroll),
            0x92 => Some(VirtualKey::OemNecEqualFjJisho),
            0x93 => Some(VirtualKey::OemFjMasshou),
            0x94 => Some(VirtualKey::OemFjTouroku),
            0x95 => Some(VirtualKey::OemFjLoya),
            0x96 => Some(VirtualKey::OemFjRoya),
            0xA0 => Some(VirtualKey::LShift),
            0xA1 => Some(VirtualKey::RShift),
            0xA2 => Some(VirtualKey::LControl),
            0xA3 => Some(VirtualKey::RControl),
            0xA4 => Some(VirtualKey::LMenu),
            0xA5 => Some(VirtualKey::RMenu),
            0xA6 => Some(VirtualKey::BrowserBack),
            0xA7 => Some(VirtualKey::BrowserForward),
            0xA8 => Some(VirtualKey::BrowserRefresh),
            0xA9 => Some(VirtualKey::BrowserStop),
            0xAA => Some(VirtualKey::BrowserSearch),
            0xAB => Some(VirtualKey::BrowserFavorites),
            0xAC => Some(VirtualKey::BrowserHome),
            0xAD => Some(VirtualKey::VolumeMute),
            0xAE => Some(VirtualKey::VolumeDown),
            0xAF => Some(VirtualKey::VolumeUp),
            0xB0 => Some(VirtualKey::MediaNextTrack),
            0xB1 => Some(VirtualKey::MediaPrevTrack),
            0xB2 => Some(VirtualKey::MediaStop),
            0xB3 => Some(VirtualKey::MediaPlayPause),
            0xB4 => Some(VirtualKey::LaunchMail),
            0xB5 => Some(VirtualKey::LaunchMediaSelect),
            0xB6 => Some(VirtualKey::LaunchApp1),
            0xB7 => Some(VirtualKey::LaunchApp2),
            0xBA => Some(VirtualKey::Oem1),
            0xBB => Some(VirtualKey::OemPlus),
            0xBC => Some(VirtualKey::OemComma),
            0xBD => Some(VirtualKey::OemMinus),
            0xBE => Some(VirtualKey::OemPeriod),
            0xBF => Some(VirtualKey::Oem2),
            0xC0 => Some(VirtualKey::Oem3),
            0xC3 => Some(VirtualKey::GamepadA),
            0xC4 => Some(VirtualKey::GamepadB),
            0xC5 => Some(VirtualKey::GamepadX),
            0xC6 => Some(VirtualKey::GamepadY),
            0xC7 => Some(VirtualKey::GamepadRightShoulder),
            0xC8 => Some(VirtualKey::GamepadLeftShoulder),
            0xC9 => Some(VirtualKey::GamepadLeftTrigger),
            0xCA => Some(VirtualKey::GamepadRightTrigger),
            0xCB => Some(VirtualKey::GamepadDPadUp),
            0xCC => Some(VirtualKey::GamepadDPadDown),
            0xCD => Some(VirtualKey::GamepadDPadLeft),
            0xCE => Some(VirtualKey::GamepadDPadRight),
            0xCF => Some(VirtualKey::GamepadMenu),
            0xD0 => Some(VirtualKey::GamepadView),
            0xD1 => Some(VirtualKey::GamepadLeftThumbStickButton),
            0xD2 => Some(VirtualKey::GamepadRightThumbStickButton),
            0xD3 => Some(VirtualKey::GamepadLeftThumbStickUp),
            0xD4 => Some(VirtualKey::GamepadLeftThumbStickDown),
            0xD5 => Some(VirtualKey::GamepadLeftThumbStickRight),
            0xD6 => Some(VirtualKey::GamepadLeftThumbStickLeft),
            0xD7 => Some(VirtualKey::GamepadRightThumbStickUp),
            0xD8 => Some(VirtualKey::GamepadRightThumbStickDown),
            0xD9 => Some(VirtualKey::GamepadRightThumbStickRight),
            0xDA => Some(VirtualKey::GamepadRightThumbStickLeft),
            0xDB => Some(VirtualKey::Oem4),
            0xDC => Some(VirtualKey::Oem5),
            0xDD => Some(VirtualKey::Oem6),
            0xDE => Some(VirtualKey::Oem7),
            0xDF => Some(VirtualKey::Oem8),
            0xE1 => Some(VirtualKey::OemAx),
            0xE2 => Some(VirtualKey::Oem102),
            0xE3 => Some(VirtualKey::IcoHelp),
            0xE4 => Some(VirtualKey::Ico00),
            0xE5 => Some(VirtualKey::ProcessKey),
            0xE6 => Some(VirtualKey::IcoClear),
            0xE7 => Some(VirtualKey::Packet),
            0xE9 => Some(VirtualKey::OemReset),
            0xEA => Some(VirtualKey::OemJump),
            0xEB => Some(VirtualKey::OemPa1),
            0xEC => Some(VirtualKey::OemPa2),
            0xED => Some(VirtualKey::OemPa3),
            0xEE => Some(VirtualKey::OemWsCtrl),
            0xEF => Some(VirtualKey::OemCusel),
            0xF0 => Some(VirtualKey::OemAttn),
            0xF1 => Some(VirtualKey::OemFinish),
            0xF2 => Some(VirtualKey::OemCopy),
            0xF3 => Some(VirtualKey::OemAuto),
            0xF4 => Some(VirtualKey::OemEnlw),
            0xF5 => Some(VirtualKey::OemBackTab),
            0xF6 => Some(VirtualKey::Attn),
            0xF7 => Some(VirtualKey::Crsel),
            0xF8 => Some(VirtualKey::Exsel),
            0xF9 => Some(VirtualKey::Ereof),
            0xFA => Some(VirtualKey::Play),
            0xFB => Some(VirtualKey::Zoom),
            0xFC => Some(VirtualKey::Noname),
            0xFD => Some(VirtualKey::Pa1),
            0xFE => Some(VirtualKey::OemClear),
            _ => None,
        }
    }

    /// Checked construction of a virtual key from its raw native code; raw
    /// values outside the known set are rejected as `None`.
    pub fn from_code(c: u32) -> (r: Option<VirtualKey>)
        ensures
            r == Self::spec_from_code(c),
    {
        match c {
            0x01 => Some(VirtualKey::LButton),
            0x02 => Some(VirtualKey::RButton),
            0x03 => Some(VirtualKey::Cancel),
            0x04 => Some(VirtualKey::MButton),
            0x05 => Some(VirtualKey::XButton1),
            0x06 => Some(VirtualKey::XButton2),
            0x08 => Some(VirtualKey::Back),
            0x09 => Some(VirtualKey::Tab),
            0x0C => Some(VirtualKey::Clear),
            0x0D => Some(VirtualKey::Return),
            0x10 => Some(VirtualKey::Shift),
            0x11 => Some(VirtualKey::Control),
            0x12 => Some(VirtualKey::Menu),
            0x13 => Some(VirtualKey::Pause),
            0x14 => Some(VirtualKey::Capital),
            0x15 => Some(VirtualKey::KanaHangeulHangul),
            0x16 => Some(VirtualKey::ImeOn),
            0x17 => Some(VirtualKey::Junja),
            0x18 => Some(VirtualKey::Final),
            0x19 => Some(VirtualKey::HanjaKanji),
            0x1A => Some(VirtualKey::ImeOff),
            0x1B => Some(VirtualKey::Escape),
            0x1C => Some(VirtualKey::Convert),
            0x1D => Some(VirtualKey::NonConvert),
            0x1E => Some(VirtualKey::Accept),
            0x1F => Some(VirtualKey::ModeChange),
            0x20 => Some(VirtualKey::Space),
            0x21 => Some(VirtualKey::Prior),
            0x22 => Some(VirtualKey::Next),
            0x23 => Some(VirtualKey::End),
            0x24 => Some(VirtualKey::Home),
            0x25 => Some(VirtualKey::Left),
            0x26 => Some(VirtualKey::Up),
            0x27 => Some(VirtualKey::Right),
            0x28 => Some(VirtualKey::Down),
            0x29 => Some(VirtualKey::Select),
            0x2A => Some(VirtualKey::Print),
            0x2B => Some(VirtualKey::Execute),
            0x2C => Some(VirtualKey::Snapshot),
            0x2D => Some(VirtualKey::Insert),
            0x2E => Some(VirtualKey::Delete),
            0x2F => Some(VirtualKey::Help),
            0x30 => Some(VirtualKey::Key0),
            0x31 => Some(VirtualKey::Key1),
            0x32 => Some(VirtualKey::Key2),
            0x33 => Some(VirtualKey::Key3),
            0x34 => Some(VirtualKey::Key4),
            0x35 => Some(VirtualKey::Key5),
            0x36 => Some(VirtualKey::Key6),
            0x37 => Some(VirtualKey::Key7),
            0x38 => Some(VirtualKey::Key8),
            0x39 => Some(VirtualKey::Key9),
            0x41 => Some(VirtualKey::KeyA),
            0x42 => Some(VirtualKey::KeyB),
            0x43 => Some(VirtualKey::KeyC),
            0x44 => Some(VirtualKey::KeyD),
            0x45 => Some(VirtualKey::KeyE),
            0x46 => Some(VirtualKey::KeyF),
            0x47 => Some(VirtualKey::KeyG),
            0x48 => Some(VirtualKey::KeyH),
            0x49 => Some(VirtualKey::KeyI),
            0x4A => Some(VirtualKey::KeyJ),
            0x4B => Some(VirtualKey::KeyK),
            0x4C => Some(VirtualKey::KeyL),
            0x4D => Some(VirtualKey::KeyM),
            0x4E => Some(VirtualKey::KeyN),
            0x4F => Some(VirtualKey::KeyO),
            0x50 => Some(VirtualKey::KeyP),
            0x51 => Some(VirtualKey::KeyQ),
            0x52 => Some(VirtualKey::KeyR),
            0x53 => Some(VirtualKey::KeyS),
            0x54 => Some(VirtualKey::KeyT),
            0x55 => Some(VirtualKey::KeyU),
            0x56 => Some(VirtualKey::KeyV),
            0x57 => Some(VirtualKey::KeyW),
            0x58 => Some(VirtualKey::KeyX),
            0x59 => Some(VirtualKey::KeyY),
            0x5A => Some(VirtualKey::KeyZ),
            0x5B => Some(VirtualKey::LWin),
            0x5C => Some(VirtualKey::RWin),
            0x5D => Some(VirtualKey::Apps),
            0x5F => Some(VirtualKey::Sleep),
            0x60 => Some(VirtualKey::Numpad0),
            0x61 => Some(VirtualKey::Numpad1),
            0x62 => Some(VirtualKey::Numpad2),
            0x63 => Some(VirtualKey::Numpad3),
            0x64 => Some(VirtualKey::Numpad4),
            0x65 => Some(VirtualKey::Numpad5),
            0x66 => Some(VirtualKey::Numpad6),
            0x67 => Some(VirtualKey::Numpad7),
            0x68 => Some(VirtualKey::Numpad8),
            0x69 => Some(VirtualKey::Numpad9),
            0x6A => Some(VirtualKey::Multiply),
            0x6B => Some(VirtualKey::Add),
            0x6C => Some(VirtualKey::Separator),
            0x6D => Some(VirtualKey::Subtract),
            0x6E => Some(VirtualKey::Decimal),
            0x6F => Some(VirtualKey::Divide),
            0x70 => Some(VirtualKey::F1),
            0x71 => Some(VirtualKey::F2),
            0x72 => Some(VirtualKey::F3),
            0x73 => Some(VirtualKey::F4),
            0x74 => Some(VirtualKey::F5),
            0x75 => Some(VirtualKey::F6),
            0x76 => Some(VirtualKey::F7),
            0x77 => Some(VirtualKey::F8),
            0x78 => Some(VirtualKey::F9),
            0x79 => Some(VirtualKey::F10),
            0x7A => Some(VirtualKey::F11),
            0x7B => Some(VirtualKey::F12),
            0x7C => Some(VirtualKey::F13),
            0x7D => Some(VirtualKey::F14),
            0x7E => Some(VirtualKey::F15),
            0x7F => Some(VirtualKey::F16),
            0x80 => Some(VirtualKey::F17),
            0x81 => Some(VirtualKey::F18),
            0x82 => Some(VirtualKey::F19),
            0x83 => Some(VirtualKey::F20),
            0x84 => Some(VirtualKey::F21),
            0x85 => Some(VirtualKey::F22),
            0x86 => Some(VirtualKey::F23),
            0x87 => Some(VirtualKey::F24),
            0x88 => Some(VirtualKey::NavigationView),
            0x89 => Some(VirtualKey::NavigationMenu),
            0x8A => Some(VirtualKey::NavigationUp),
            0x8B => Some(VirtualKey::NavigationDown),
            0x8C => Some(VirtualKey::NavigationLeft),
            0x8D => Some(VirtualKey::NavigationRight),
            0x8E => Some(VirtualKey::NavigationAccept),
            0x8F => Some(VirtualKey::NavigationCancel),
            0x90 => Some(VirtualKey::Numlock),
            0x91 => Some(VirtualKey::Scroll),
            0x92 => Some(VirtualKey::OemNecEqualFjJisho),
            0x93 => Some(VirtualKey::OemFjMasshou),
            0x94 => Some(VirtualKey::OemFjTouroku),
            0x95 => Some(VirtualKey::OemFjLoya),
            0x96 => Some(VirtualKey::OemFjRoya),
            0xA0 => Some(VirtualKey::LShift),
            0xA1 => Some(VirtualKey::RShift),
            0xA2 => Some(VirtualKey::LControl),
            0xA3 => Some(VirtualKey::RControl),
            0xA4 => Some(VirtualKey::LMenu),
            0xA5 => Some(VirtualKey::RMenu),
            0xA6 => Some(VirtualKey::BrowserBack),
            0xA7 => Some(VirtualKey::BrowserForward),
            0xA8 => Some(VirtualKey::BrowserRefresh),
            0xA9 => Some(VirtualKey::BrowserStop),
            0xAA => Some(VirtualKey::BrowserSearch),
            0xAB => Some(VirtualKey::BrowserFavorites),
            0xAC => Some(VirtualKey::BrowserHome),
            0xAD => Some(VirtualKey::VolumeMute),
            0xAE => Some(VirtualKey::VolumeDown),
            0xAF => Some(VirtualKey::VolumeUp),
            0xB0 => Some(VirtualKey::MediaNextTrack),
            0xB1 => Some(VirtualKey::MediaPrevTrack),
            0xB2 => Some(VirtualKey::MediaStop),
            0xB3 => Some(VirtualKey::MediaPlayPause),
            0xB4 => Some(VirtualKey::LaunchMail),
            0xB5 => Some(VirtualKey::LaunchMediaSelect),
            0xB6 => Some(VirtualKey::LaunchApp1),
            0xB7 => Some(VirtualKey::LaunchApp2),
            0xBA => Some(VirtualKey::Oem1),
            0xBB => Some(VirtualKey::OemPlus),
            0xBC => Some(VirtualKey::OemComma),
            0xBD => Some(VirtualKey::OemMinus),
            0xBE => Some(VirtualKey::OemPeriod),
            0xBF => Some(VirtualKey::Oem2),
            0xC0 => Some(VirtualKey::Oem3),
            0xC3 => Some(VirtualKey::GamepadA),
            0xC4 => Some(VirtualKey::GamepadB),
            0xC5 => Some(VirtualKey::GamepadX),
            0xC6 => Some(VirtualKey::GamepadY),
            0xC7 => Some(VirtualKey::GamepadRightShoulder),
            0xC8 => Some(VirtualKey::GamepadLeftShoulder),
            0xC9 => Some(VirtualKey::GamepadLeftTrigger),
            0xCA => Some(VirtualKey::GamepadRightTrigger),
            0xCB => Some(VirtualKey::GamepadDPadUp),
            0xCC => Some(VirtualKey::GamepadDPadDown),
            0xCD => Some(VirtualKey::GamepadDPadLeft),
            0xCE => Some(VirtualKey::GamepadDPadRight),
            0xCF => Some(VirtualKey::GamepadMenu),
            0xD0 => Some(VirtualKey::GamepadView),
            0xD1 => Some(VirtualKey::GamepadLeftThumbStickButton),
            0xD2 => Some(VirtualKey::GamepadRightThumbStickButton),
            0xD3 => Some(VirtualKey::GamepadLeftThumbStickUp),
            0xD4 => Some(VirtualKey::GamepadLeftThumbStickDown),
            0xD5 => Some(VirtualKey::GamepadLeftThumbStickRight),
            0xD6 => Some(VirtualKey::GamepadLeftThumbStickLeft),
            0xD7 => Some(VirtualKey::GamepadRightThumbStickUp),
            0xD8 => Some(VirtualKey::GamepadRightThumbStickDown),
            0xD9 => Some(VirtualKey::GamepadRightThumbStickRight),
            0xDA => Some(VirtualKey::GamepadRightThumbStickLeft),
            0xDB => Some(VirtualKey::Oem4),
            0xDC => Some(VirtualKey::Oem5),
            0xDD => Some(VirtualKey::Oem6),
            0xDE => Some(VirtualKey::Oem7),
            0xDF => Some(VirtualKey::Oem8),
            0xE1 => Some(VirtualKey::OemAx),
            0xE2 => Some(VirtualKey::Oem102),
            0xE3 => Some(VirtualKey::IcoHelp),
            0xE4 => Some(VirtualKey::Ico00),
            0xE5 => Some(VirtualKey::ProcessKey),
            0xE6 => Some(VirtualKey::IcoClear),
            0xE7 => Some(VirtualKey::Packet),
            0xE9 => Some(VirtualKey::OemReset),
            0xEA => Some(VirtualKey::OemJump),
            0xEB => Some(VirtualKey::OemPa1),
            0xEC => Some(VirtualKey::OemPa2),
            0xED => Some(VirtualKey::OemPa3),
            0xEE => Some(VirtualKey::OemWsCtrl),
            0xEF => Some(VirtualKey::OemCusel),
            0xF0 => Some(VirtualKey::OemAttn),
            0xF1 => Some(VirtualKey::OemFinish),
            0xF2 => Some(VirtualKey::OemCopy),
            0xF3 => Some(VirtualKey::OemAuto),
            0xF4 => Some(VirtualKey::OemEnlw),
            0xF5 => Some(VirtualKey::OemBackTab),
            0xF6 => Some(VirtualKey::Attn),
            0xF7 => Some(VirtualKey::Crsel),
            0xF8 => Some(VirtualKey::Exsel),
            0xF9 => Some(VirtualKey::Ereof),
            0xFA => Some(VirtualKey::Play),
            0xFB => Some(VirtualKey::Zoom),
            0xFC => Some(VirtualKey::Noname),
            0xFD => Some(VirtualKey::Pa1),
            0xFE => Some(VirtualKey::OemClear),
            _ => None,
        }
    }

    /// Every virtual key is recovered from its own native code: the code
    /// table and the checked construction path agree, so native codes are
    /// unique and stable.
    pub proof fn lemma_code_roundtrip(k: VirtualKey)
        ensures
            Self::spec_from_code(k.spec_code()) == Some(k),
    {
    }

    /// Every accepted raw code maps back to itself: construction followed
    /// by reading the native code is the identity on the known set.
    pub proof fn lemma_from_code_roundtrip(c: u32)
        ensures
            Self::spec_from_code(c) matches Some(k) ==> k.spec_code() == c,
    {
    }

    /// No two distinct virtual keys share a native code.
    pub proof fn lemma_code_injective(a: VirtualKey, b: VirtualKey)
        requires
            a.spec_code() == b.spec_code(),
        ensures
            a == b,
    {
        Self::lemma_code_roundtrip(a);
        Self::lemma_code_roundtrip(b);
    }
}

} // verus!
