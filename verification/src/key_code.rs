//! USB HID key codes and the ASCII conversions used by key sequences.

use vstd::prelude::*;

verus! {

/// A USB HID keyboard key code.
///
/// Each variant stands for the HID usage id that [`KeyCode::code`] returns.
#[derive(Debug, Clone, Copy, PartialEq, Eq, Structural, PartialOrd, Ord, Hash)]
pub enum KeyCode {
    /// HID usage id 0x00.
    No,
    /// HID usage id 0x01.
    ErrorRollOver,
    /// HID usage id 0x02.
    PostFail,
    /// HID usage id 0x03.
    ErrorUndefined,
    /// HID usage id 0x04.
    A,
    /// HID usage id 0x05.
    B,
    /// HID usage id 0x06.
    C,
    /// HID usage id 0x07.
    D,
    /// HID usage id 0x08.
    E,
    /// HID usage id 0x09.
    F,
    /// HID usage id 0x0a.
    G,
    /// HID usage id 0x0b.
    H,
    /// HID usage id 0x0c.
    I,
    /// HID usage id 0x0d.
    J,
    /// HID usage id 0x0e.
    K,
    /// HID usage id 0x0f.
    L,
    /// HID usage id 0x10.
    M,
    /// HID usage id 0x11.
    N,
    /// HID usage id 0x12.
    O,
    /// HID usage id 0x13.
    P,
    /// HID usage id 0x14.
    Q,
    /// HID usage id 0x15.
    R,
    /// HID usage id 0x16.
    S,
    /// HID usage id 0x17.
    T,
    /// HID usage id 0x18.
    U,
    /// HID usage id 0x19.
    V,
    /// HID usage id 0x1a.
    W,
    /// HID usage id 0x1b.
    X,
    /// HID usage id 0x1c.
    Y,
    /// HID usage id 0x1d.
    Z,
    /// HID usage id 0x1e.
    Kb1,
    /// HID usage id 0x1f.
    Kb2,
    /// HID usage id 0x20.
    Kb3,
    /// HID usage id 0x21.
    Kb4,
    /// HID usage id 0x22.
    Kb5,
    /// HID usage id 0x23.
    Kb6,
    /// HID usage id 0x24.
    Kb7,
    /// HID usage id 0x25.
    Kb8,
    /// HID usage id 0x26.
    Kb9,
    /// HID usage id 0x27.
    Kb0,
    /// HID usage id 0x28.
    Enter,
    /// HID usage id 0x29.
    Escape,
    /// HID usage id 0x2a.
    BSpace,
    /// HID usage id 0x2b.
    Tab,
    /// HID usage id 0x2c.
    Space,
    /// HID usage id 0x2d.
    Minus,
    /// HID usage id 0x2e.
    Equal,
    /// HID usage id 0x2f.
    LBracket,
    /// HID usage id 0x30.
    RBracket,
    /// HID usage id 0x31.
    Bslash,
    /// HID usage id 0x32.
    NonUsHash,
    /// HID usage id 0x33.
    SColon,
    /// HID usage id 0x34.
    Quote,
    /// HID usage id 0x35.
    Grave,
    /// HID usage id 0x36.
    Comma,
    /// HID usage id 0x37.
    Dot,
    /// HID usage id 0x38.
    Slash,
    /// HID usage id 0x39.
    CapsLock,
    /// HID usage id 0x3a.
    F1,
    /// HID usage id 0x3b.
    F2,
    /// HID usage id 0x3c.
    F3,
    /// HID usage id 0x3d.
    F4,
    /// HID usage id 0x3e.
    F5,
    /// HID usage id 0x3f.
    F6,
    /// HID usage id 0x40.
    F7,
    /// HID usage id 0x41.
    F8,
    /// HID usage id 0x42.
    F9,
    /// HID usage id 0x43.
    F10,
    /// HID usage id 0x44.
    F11,
    /// HID usage id 0x45.
    F12,
    /// HID usage id 0x46.
    PScreen,
    /// HID usage id 0x47.
    ScrollLock,
    /// HID usage id 0x48.
    Pause,
    /// HID usage id 0x49.
    Insert,
    /// HID usage id 0x4a.
    Home,
    /// HID usage id 0x4b.
    PgUp,
    /// HID usage id 0x4c.
    Delete,
    /// HID usage id 0x4d.
    End,
    /// HID usage id 0x4e.
    PgDown,
    /// HID usage id 0x4f.
    Right,
    /// HID usage id 0x50.
    Left,
    /// HID usage id 0x51.
    Down,
    /// HID usage id 0x52.
    Up,
    /// HID usage id 0x53.
    NumLock,
    /// HID usage id 0x54.
    KpSlash,
    /// HID usage id 0x55.
    KpAsterisk,
    /// HID usage id 0x56.
    KpMinus,
    /// HID usage id 0x57.
    KpPlus,
    /// HID usage id 0x58.
    KpEnter,
    /// HID usage id 0x59.
    Kp1,
    /// HID usage id 0x5a.
    Kp2,
    /// HID usage id 0x5b.
    Kp3,
    /// HID usage id 0x5c.
    Kp4,
    /// HID usage id 0x5d.
    Kp5,
    /// HID usage id 0x5e.
    Kp6,
    /// HID usage id 0x5f.
    Kp7,
    /// HID usage id 0x60.
    Kp8,
    /// HID usage id 0x61.
    Kp9,
    /// HID usage id 0x62.
    Kp0,
    /// HID usage id 0x63.
    KpDot,
    /// HID usage id 0x64.
    NonUsBslash,
    /// HID usage id 0x65.
    Application,
    /// HID usage id 0x66.
    Power,
    /// HID usage id 0x67.
    KpEqual,
    /// HID usage id 0x68.
    F13,
    /// HID usage id 0x69.
    F14,
    /// HID usage id 0x6a.
    F15,
    /// HID usage id 0x6b.
    F16,
    /// HID usage id 0x6c.
    F17,
    /// HID usage id 0x6d.
    F18,
    /// HID usage id 0x6e.
    F19,
    /// HID usage id 0x6f.
    F20,
    /// HID usage id 0x70.
    F21,
    /// HID usage id 0x71.
    F22,
    /// HID usage id 0x72.
    F23,
    /// HID usage id 0x73.
    F24,
    /// HID usage id 0x74.
    Execute,
    /// HID usage id 0x75.
    Help,
    /// HID usage id 0x76.
    Menu,
    /// HID usage id 0x77.
    Select,
    /// HID usage id 0x78.
    Stop,
    /// HID usage id 0x79.
    Again,
    /// HID usage id 0x7a.
    Undo,
    /// HID usage id 0x7b.
    Cut,
    /// HID usage id 0x7c.
    Copy,
    /// HID usage id 0x7d.
    Paste,
    /// HID usage id 0x7e.
    Find,
    /// HID usage id 0x7f.
    Mute,
    /// HID usage id 0x80.
    VolUp,
    /// HID usage id 0x81.
    VolDown,
    /// HID usage id 0x82.
    LockingCapsLock,
    /// HID usage id 0x83.
    LockingNumLock,
    /// HID usage id 0x84.
    LockingScrollLock,
    /// HID usage id 0x85.
    KpComma,
    /// HID usage id 0x86.
    KpEqualSign,
    /// HID usage id 0x87.
    Intl1,
    /// HID usage id 0x88.
    Intl2,
    /// HID usage id 0x89.
    Intl3,
    /// HID usage id 0x8a.
    Intl4,
    /// HID usage id 0x8b.
    Intl5,
    /// HID usage id 0x8c.
    Intl6,
    /// HID usage id 0x8d.
    Intl7,
    /// HID usage id 0x8e.
    Intl8,
    /// HID usage id 0x8f.
    Intl9,
    /// HID usage id 0x90.
    Lang1,
    /// HID usage id 0x91.
    Lang2,
    /// HID usage id 0x92.
    Lang3,
    /// HID usage id 0x93.
    Lang4,
    /// HID usage id 0x94.
    Lang5,
    /// HID usage id 0x95.
    Lang6,
    /// HID usage id 0x96.
    Lang7,
    /// HID usage id 0x97.
    Lang8,
    /// HID usage id 0x98.
    Lang9,
    /// HID usage id 0x99.
    AltErase,
    /// HID usage id 0x9a.
    SysReq,
    /// HID usage id 0x9b.
    Cancel,
    /// HID usage id 0x9c.
    Clear,
    /// HID usage id 0x9d.
    Prior,
    /// HID usage id 0x9e.
    Return,
    /// HID usage id 0x9f.
    Separator,
    /// HID usage id 0xa0.
    Out,
    /// HID usage id 0xa1.
    Oper,
    /// HID usage id 0xa2.
    ClearAgain,
    /// HID usage id 0xa3.
    CrSel,
    /// HID usage id 0xa4.
    ExSel,
    /// HID usage id 0xe0.
    LCtrl,
    /// HID usage id 0xe1.
    LShift,
    /// HID usage id 0xe2.
    LAlt,
    /// HID usage id 0xe3.
    LGui,
    /// HID usage id 0xe4.
    RCtrl,
    /// HID usage id 0xe5.
    RShift,
    /// HID usage id 0xe6.
    RAlt,
    /// HID usage id 0xe7.
    RGui,
    /// HID usage id 0xe8.
    MediaPlayPause,
    /// HID usage id 0xe9.
    MediaStopCD,
    /// HID usage id 0xea.
    MediaPreviousSong,
    /// HID usage id 0xeb.
    MediaNextSong,
    /// HID usage id 0xec.
    MediaEjectCD,
    /// HID usage id 0xed.
    MediaVolUp,
    /// HID usage id 0xee.
    MediaVolDown,
    /// HID usage id 0xef.
    MediaMute,
    /// HID usage id 0xf0.
    MediaWWW,
    /// HID usage id 0xf1.
    MediaBack,
    /// HID usage id 0xf2.
    MediaForward,
    /// HID usage id 0xf3.
    MediaStop,
    /// HID usage id 0xf4.
    MediaFind,
    /// HID usage id 0xf5.
    MediaScrollUp,
    /// HID usage id 0xf6.
    MediaScrollDown,
    /// HID usage id 0xf7.
    MediaEdit,
    /// HID usage id 0xf8.
    MediaSleep,
    /// HID usage id 0xf9.
    MediaCoffee,
    /// HID usage id 0xfa.
    MediaRefresh,
    /// HID usage id 0xfb.
    MediaCalc,
}

/// The HID usage id of a key code.
pub open spec fn spec_code(k: KeyCode) -> u8 {
    match k {
        KeyCode::No => 0x00,
        KeyCode::ErrorRollOver => 0x01,
        KeyCode::PostFail => 0x02,
        KeyCode::ErrorUndefined => 0x03,
        KeyCode::A => 0x04,
        KeyCode::B => 0x05,
        KeyCode::C => 0x06,
        KeyCode::D => 0x07,
        KeyCode::E => 0x08,
        KeyCode::F => 0x09,
        KeyCode::G => 0x0a,
        KeyCode::H => 0x0b,
        KeyCode::I => 0x0c,
        KeyCode::J => 0x0d,
        KeyCode::K => 0x0e,
        KeyCode::L => 0x0f,
        KeyCode::M => 0x10,
        KeyCode::N => 0x11,
        KeyCode::O => 0x12,
        KeyCode::P => 0x13,
        KeyCode::Q => 0x14,
        KeyCode::R => 0x15,
        KeyCode::S => 0x16,
        KeyCode::T => 0x17,
        KeyCode::U => 0x18,
        KeyCode::V => 0x19,
        KeyCode::W => 0x1a,
        KeyCode::X => 0x1b,
        KeyCode::Y => 0x1c,
        KeyCode::Z => 0x1d,
        KeyCode::Kb1 => 0x1e,
        KeyCode::Kb2 => 0x1f,
        KeyCode::Kb3 => 0x20,
        KeyCode::Kb4 => 0x21,
        KeyCode::Kb5 => 0x22,
        KeyCode::Kb6 => 0x23,
        KeyCode::Kb7 => 0x24,
        KeyCode::Kb8 => 0x25,
        KeyCode::Kb9 => 0x26,
        KeyCode::Kb0 => 0x27,
        KeyCode::Enter => 0x28,
        KeyCode::Escape => 0x29,
        KeyCode::BSpace => 0x2a,
        KeyCode::Tab => 0x2b,
        KeyCode::Space => 0x2c,
        KeyCode::Minus => 0x2d,
        KeyCode::Equal => 0x2e,
        KeyCode::LBracket => 0x2f,
        KeyCode::RBracket => 0x30,
        KeyCode::Bslash => 0x31,
        KeyCode::NonUsHash => 0x32,
        KeyCode::SColon => 0x33,
        KeyCode::Quote => 0x34,
        KeyCode::Grave => 0x35,
        KeyCode::Comma => 0x36,
        KeyCode::Dot => 0x37,
        KeyCode::Slash => 0x38,
        KeyCode::CapsLock => 0x39,
        KeyCode::F1 => 0x3a,
        KeyCode::F2 => 0x3b,
        KeyCode::F3 => 0x3c,
        KeyCode::F4 => 0x3d,
        KeyCode::F5 => 0x3e,
        KeyCode::F6 => 0x3f,
        KeyCode::F7 => 0x40,
        KeyCode::F8 => 0x41,
        KeyCode::F9 => 0x42,
        KeyCode::F10 => 0x43,
        KeyCode::F11 => 0x44,
        KeyCode::F12 => 0x45,
        KeyCode::PScreen => 0x46,
        KeyCode::ScrollLock => 0x47,
        KeyCode::Pause => 0x48,
        KeyCode::Insert => 0x49,
        KeyCode::Home => 0x4a,
        KeyCode::PgUp => 0x4b,
        KeyCode::Delete => 0x4c,
        KeyCode::End => 0x4d,
        KeyCode::PgDown => 0x4e,
        KeyCode::Right => 0x4f,
        KeyCode::Left => 0x50,
        KeyCode::Down => 0x51,
        KeyCode::Up => 0x52,
        KeyCode::NumLock => 0x53,
        KeyCode::KpSlash => 0x54,
        KeyCode::KpAsterisk => 0x55,
        KeyCode::KpMinus => 0x56,
        KeyCode::KpPlus => 0x57,
        KeyCode::KpEnter => 0x58,
        KeyCode::Kp1 => 0x59,
        KeyCode::Kp2 => 0x5a,
        KeyCode::Kp3 => 0x5b,
        KeyCode::Kp4 => 0x5c,
        KeyCode::Kp5 => 0x5d,
        KeyCode::Kp6 => 0x5e,
        KeyCode::Kp7 => 0x5f,
        KeyCode::Kp8 => 0x60,
        KeyCode::Kp9 => 0x61,
        KeyCode::Kp0 => 0x62,
        KeyCode::KpDot => 0x63,
        KeyCode::NonUsBslash => 0x64,
        KeyCode::Application => 0x65,
        KeyCode::Power => 0x66,
        KeyCode::KpEqual => 0x67,
        KeyCode::F13 => 0x68,
        KeyCode::F14 => 0x69,
        KeyCode::F15 => 0x6a,
        KeyCode::F16 => 0x6b,
        KeyCode::F17 => 0x6c,
        KeyCode::F18 => 0x6d,
        KeyCode::F19 => 0x6e,
        KeyCode::F20 => 0x6f,
        KeyCode::F21 => 0x70,
        KeyCode::F22 => 0x71,
        KeyCode::F23 => 0x72,
        KeyCode::F24 => 0x73,
        KeyCode::Execute => 0x74,
        KeyCode::Help => 0x75,
        KeyCode::Menu => 0x76,
        KeyCode::Select => 0x77,
        KeyCode::Stop => 0x78,
        KeyCode::Again => 0x79,
        KeyCode::Undo => 0x7a,
        KeyCode::Cut => 0x7b,
        KeyCode::Copy => 0x7c,
        KeyCode::Paste => 0x7d,
        KeyCode::Find => 0x7e,
        KeyCode::Mute => 0x7f,
        KeyCode::VolUp => 0x80,
        KeyCode::VolDown => 0x81,
        KeyCode::LockingCapsLock => 0x82,
        KeyCode::LockingNumLock => 0x83,
        KeyCode::LockingScrollLock => 0x84,
        KeyCode::KpComma => 0x85,
        KeyCode::KpEqualSign => 0x86,
        KeyCode::Intl1 => 0x87,
        KeyCode::Intl2 => 0x88,
        KeyCode::Intl3 => 0x89,
        KeyCode::Intl4 => 0x8a,
        KeyCode::Intl5 => 0x8b,
        KeyCode::Intl6 => 0x8c,
        KeyCode::Intl7 => 0x8d,
        KeyCode::Intl8 => 0x8e,
        KeyCode::Intl9 => 0x8f,
        KeyCode::Lang1 => 0x90,
        KeyCode::Lang2 => 0x91,
        KeyCode::Lang3 => 0x92,
        KeyCode::Lang4 => 0x93,
        KeyCode::Lang5 => 0x94,
        KeyCode::Lang6 => 0x95,
        KeyCode::Lang7 => 0x96,
        KeyCode::Lang8 => 0x97,
        KeyCode::Lang9 => 0x98,
        KeyCode::AltErase => 0x99,
        KeyCode::SysReq => 0x9a,
        KeyCode::Cancel => 0x9b,
        KeyCode::Clear => 0x9c,
        KeyCode::Prior => 0x9d,
        KeyCode::Return => 0x9e,
        KeyCode::Separator => 0x9f,
        KeyCode::Out => 0xa0,
        KeyCode::Oper => 0xa1,
        KeyCode::ClearAgain => 0xa2,
        KeyCode::CrSel => 0xa3,
        KeyCode::ExSel => 0xa4,
        KeyCode::LCtrl => 0xe0,
        KeyCode::LShift => 0xe1,
        KeyCode::LAlt => 0xe2,
        KeyCode::LGui => 0xe3,
        KeyCode::RCtrl => 0xe4,
        KeyCode::RShift => 0xe5,
        KeyCode::RAlt => 0xe6,
        KeyCode::RGui => 0xe7,
        KeyCode::MediaPlayPause => 0xe8,
        KeyCode::MediaStopCD => 0xe9,
        KeyCode::MediaPreviousSong => 0xea,
        KeyCode::MediaNextSong => 0xeb,
        KeyCode::MediaEjectCD => 0xec,
        KeyCode::MediaVolUp => 0xed,
        KeyCode::MediaVolDown => 0xee,
        KeyCode::MediaMute => 0xef,
        KeyCode::MediaWWW => 0xf0,
        KeyCode::MediaBack => 0xf1,
        KeyCode::MediaForward => 0xf2,
        KeyCode::MediaStop => 0xf3,
        KeyCode::MediaFind => 0xf4,
        KeyCode::MediaScrollUp => 0xf5,
        KeyCode::MediaScrollDown => 0xf6,
        KeyCode::MediaEdit => 0xf7,
        KeyCode::MediaSleep => 0xf8,
        KeyCode::MediaCoffee => 0xf9,
        KeyCode::MediaRefresh => 0xfa,
        KeyCode::MediaCalc => 0xfb,
    }
}

/// The key code whose HID usage id is `v`, if any.
pub open spec fn spec_from_u8(v: u8) -> Option<KeyCode> {
    match v {
        0x00 => Some(KeyCode::No),
        0x01 => Some(KeyCode::ErrorRollOver),
        0x02 => Some(KeyCode::PostFail),
        0x03 => Some(KeyCode::ErrorUndefined),
        0x04 => Some(KeyCode::A),
        0x05 => Some(KeyCode::B),
        0x06 => Some(KeyCode::C),
        0x07 => Some(KeyCode::D),
        0x08 => Some(KeyCode::E),
        0x09 => Some(KeyCode::F),
        0x0a => Some(KeyCode::G),
        0x0b => Some(KeyCode::H),
        0x0c => Some(KeyCode::I),
        0x0d => Some(KeyCode::J),
        0x0e => Some(KeyCode::K),
        0x0f => Some(KeyCode::L),
        0x10 => Some(KeyCode::M),
        0x11 => Some(KeyCode::N),
        0x12 => Some(KeyCode::O),
        0x13 => Some(KeyCode::P),
        0x14 => Some(KeyCode::Q),
        0x15 => Some(KeyCode::R),
        0x16 => Some(KeyCode::S),
        0x17 => Some(KeyCode::T),
        0x18 => Some(KeyCode::U),
        0x19 => Some(KeyCode::V),
        0x1a => Some(KeyCode::W),
        0x1b => Some(KeyCode::X),
        0x1c => Some(KeyCode::Y),
        0x1d => Some(KeyCode::Z),
        0x1e => Some(KeyCode::Kb1),
        0x1f => Some(KeyCode::Kb2),
        0x20 => Some(KeyCode::Kb3),
        0x21 => Some(KeyCode::Kb4),
        0x22 => Some(KeyCode::Kb5),
        0x23 => Some(KeyCode::Kb6),
        0x24 => Some(KeyCode::Kb7),
        0x25 => Some(KeyCode::Kb8),
        0x26 => Some(KeyCode::Kb9),
        0x27 => Some(KeyCode::Kb0),
        0x28 => Some(KeyCode::Enter),
        0x29 => Some(KeyCode::Escape),
        0x2a => Some(KeyCode::BSpace),
        0x2b => Some(KeyCode::Tab),
        0x2c => Some(KeyCode::Space),
        0x2d => Some(KeyCode::Minus),
        0x2e => Some(KeyCode::Equal),
        0x2f => Some(KeyCode::LBracket),
        0x30 => Some(KeyCode::RBracket),
        0x31 => Some(KeyCode::Bslash),
        0x32 => Some(KeyCode::NonUsHash),
        0x33 => Some(KeyCode::SColon),
        0x34 => Some(KeyCode::Quote),
        0x35 => Some(KeyCode::Grave),
        0x36 => Some(KeyCode::Comma),
        0x37 => Some(KeyCode::Dot),
        0x38 => Some(KeyCode::Slash),
        0x39 => Some(KeyCode::CapsLock),
        0x3a => Some(KeyCode::F1),
        0x3b => Some(KeyCode::F2),
        0x3c => Some(KeyCode::F3),
        0x3d => Some(KeyCode::F4),
        0x3e => Some(KeyCode::F5),
        0x3f => Some(KeyCode::F6),
        0x40 => Some(KeyCode::F7),
        0x41 => Some(KeyCode::F8),
        0x42 => Some(KeyCode::F9),
        0x43 => Some(KeyCode::F10),
        0x44 => Some(KeyCode::F11),
        0x45 => Some(KeyCode::F12),
        0x46 => Some(KeyCode::PScreen),
        0x47 => Some(KeyCode::ScrollLock),
        0x48 => Some(KeyCode::Pause),
        0x49 => Some(KeyCode::Insert),
        0x4a => Some(KeyCode::Home),
        0x4b => Some(KeyCode::PgUp),
        0x4c => Some(KeyCode::Delete),
        0x4d => Some(KeyCode::End),
        0x4e => Some(KeyCode::PgDown),
        0x4f => Some(KeyCode::Right),
        0x50 => Some(KeyCode::Left),
        0x51 => Some(KeyCode::Down),
        0x52 => Some(KeyCode::Up),
        0x53 => Some(KeyCode::NumLock),
        0x54 => Some(KeyCode::KpSlash),
        0x55 => Some(KeyCode::KpAsterisk),
        0x56 => Some(KeyCode::KpMinus),
        0x57 => Some(KeyCode::KpPlus),
        0x58 => Some(KeyCode::KpEnter),
        0x59 => Some(KeyCode::Kp1),
        0x5a => Some(KeyCode::Kp2),
        0x5b => Some(KeyCode::Kp3),
        0x5c => Some(KeyCode::Kp4),
        0x5d => Some(KeyCode::Kp5),
        0x5e => Some(KeyCode::Kp6),
        0x5f => Some(KeyCode::Kp7),
        0x60 => Some(KeyCode::Kp8),
        0x61 => Some(KeyCode::Kp9),
        0x62 => Some(KeyCode::Kp0),
        0x63 => Some(KeyCode::KpDot),
        0x64 => Some(KeyCode::NonUsBslash),
        0x65 => Some(KeyCode::Application),
        0x66 => Some(KeyCode::Power),
        0x67 => Some(KeyCode::KpEqual),
        0x68 => Some(KeyCode::F13),
        0x69 => Some(KeyCode::F14),
        0x6a => Some(KeyCode::F15),
        0x6b => Some(KeyCode::F16),
        0x6c => Some(KeyCode::F17),
        0x6d => Some(KeyCode::F18),
        0x6e => Some(KeyCode::F19),
        0x6f => Some(KeyCode::F20),
        0x70 => Some(KeyCode::F21),
        0x71 => Some(KeyCode::F22),
        0x72 => Some(KeyCode::F23),
        0x73 => Some(KeyCode::F24),
        0x74 => Some(KeyCode::Execute),
        0x75 => Some(KeyCode::Help),
        0x76 => Some(KeyCode::Menu),
        0x77 => Some(KeyCode::Select),
        0x78 => Some(KeyCode::Stop),
        0x79 => Some(KeyCode::Again),
        0x7a => Some(KeyCode::Undo),
        0x7b => Some(KeyCode::Cut),
        0x7c => Some(KeyCode::Copy),
        0x7d => Some(KeyCode::Paste),
        0x7e => Some(KeyCode::Find),
        0x7f => Some(KeyCode::Mute),
        0x80 => Some(KeyCode::VolUp),
        0x81 => Some(KeyCode::VolDown),
        0x82 => Some(KeyCode::LockingCapsLock),
        0x83 => Some(KeyCode::LockingNumLock),
        0x84 => Some(KeyCode::LockingScrollLock),
        0x85 => Some(KeyCode::KpComma),
        0x86 => Some(KeyCode::KpEqualSign),
        0x87 => Some(KeyCode::Intl1),
        0x88 => Some(KeyCode::Intl2),
        0x89 => Some(KeyCode::Intl3),
        0x8a => Some(KeyCode::Intl4),
        0x8b => Some(KeyCode::Intl5),
        0x8c => Some(KeyCode::Intl6),
        0x8d => Some(KeyCode::Intl7),
        0x8e => Some(KeyCode::Intl8),
        0x8f => Some(KeyCode::Intl9),
        0x90 => Some(KeyCode::Lang1),
        0x91 => Some(KeyCode::Lang2),
        0x92 => Some(KeyCode::Lang3),
        0x93 => Some(KeyCode::Lang4),
        0x94 => Some(KeyCode::Lang5),
        0x95 => Some(KeyCode::Lang6),
        0x96 => Some(KeyCode::Lang7),
        0x97 => Some(KeyCode::Lang8),
        0x98 => Some(KeyCode::Lang9),
        0x99 => Some(KeyCode::AltErase),
        0x9a => Some(KeyCode::SysReq),
        0x9b => Some(KeyCode::Cancel),
        0x9c => Some(KeyCode::Clear),
        0x9d => Some(KeyCode::Prior),
        0x9e => Some(KeyCode::Return),
        0x9f => Some(KeyCode::Separator),
        0xa0 => Some(KeyCode::Out),
        0xa1 => Some(KeyCode::Oper),
        0xa2 => Some(KeyCode::ClearAgain),
        0xa3 => Some(KeyCode::CrSel),
        0xa4 => Some(KeyCode::ExSel),
        0xe0 => Some(KeyCode::LCtrl),
        0xe1 => Some(KeyCode::LShift),
        0xe2 => Some(KeyCode::LAlt),
        0xe3 => Some(KeyCode::LGui),
        0xe4 => Some(KeyCode::RCtrl),
        0xe5 => Some(KeyCode::RShift),
        0xe6 => Some(KeyCode::RAlt),
        0xe7 => Some(KeyCode::RGui),
        0xe8 => Some(KeyCode::MediaPlayPause),
        0xe9 => Some(KeyCode::MediaStopCD),
        0xea => Some(KeyCode::MediaPreviousSong),
        0xeb => Some(KeyCode::MediaNextSong),
        0xec => Some(KeyCode::MediaEjectCD),
        0xed => Some(KeyCode::MediaVolUp),
        0xee => Some(KeyCode::MediaVolDown),
        0xef => Some(KeyCode::MediaMute),
        0xf0 => Some(KeyCode::MediaWWW),
        0xf1 => Some(KeyCode::MediaBack),
        0xf2 => Some(KeyCode::MediaForward),
        0xf3 => Some(KeyCode::MediaStop),
        0xf4 => Some(KeyCode::MediaFind),
        0xf5 => Some(KeyCode::MediaScrollUp),
        0xf6 => Some(KeyCode::MediaScrollDown),
        0xf7 => Some(KeyCode::MediaEdit),
        0xf8 => Some(KeyCode::MediaSleep),
        0xf9 => Some(KeyCode::MediaCoffee),
        0xfa => Some(KeyCode::MediaRefresh),
        0xfb => Some(KeyCode::MediaCalc),
        _ => None,
    }
}

/// The key code that the ASCII conversion table gives for a byte (`No` for bytes past 127).
pub open spec fn spec_ascii_keycode(c: u8) -> KeyCode {
    match c {
        8 => KeyCode::BSpace,
        9 => KeyCode::Tab,
        10 => KeyCode::Enter,
        27 => KeyCode::Escape,
        32 => KeyCode::Space,
        33 | 49 => KeyCode::Kb1,
        34 | 39 => KeyCode::Quote,
        35 | 51 => KeyCode::Kb3,
        36 | 52 => KeyCode::Kb4,
        37 | 53 => KeyCode::Kb5,
        38 | 55 => KeyCode::Kb7,
        40 | 57 => KeyCode::Kb9,
        41 | 48 => KeyCode::Kb0,
        42 | 56 => KeyCode::Kb8,
        43 | 61 => KeyCode::Equal,
        44 | 60 => KeyCode::Comma,
        45 | 95 => KeyCode::Minus,
        46 | 62 => KeyCode::Dot,
        47 | 63 => KeyCode::Slash,
        50 | 64 => KeyCode::Kb2,
        54 | 94 => KeyCode::Kb6,
        58 | 59 => KeyCode::SColon,
        65 | 97 => KeyCode::A,
        66 | 98 => KeyCode::B,
        67 | 99 => KeyCode::C,
        68 | 100 => KeyCode::D,
        69 | 101 => KeyCode::E,
        70 | 102 => KeyCode::F,
        71 | 103 => KeyCode::G,
        72 | 104 => KeyCode::H,
        73 | 105 => KeyCode::I,
        74 | 106 => KeyCode::J,
        75 | 107 => KeyCode::K,
        76 | 108 => KeyCode::L,
        77 | 109 => KeyCode::M,
        78 | 110 => KeyCode::N,
        79 | 111 => KeyCode::O,
        80 | 112 => KeyCode::P,
        81 | 113 => KeyCode::Q,
        82 | 114 => KeyCode::R,
        83 | 115 => KeyCode::S,
        84 | 116 => KeyCode::T,
        85 | 117 => KeyCode::U,
        86 | 118 => KeyCode::V,
        87 | 119 => KeyCode::W,
        88 | 120 => KeyCode::X,
        89 | 121 => KeyCode::Y,
        90 | 122 => KeyCode::Z,
        91 | 123 => KeyCode::LBracket,
        92 | 124 => KeyCode::Bslash,
        93 | 125 => KeyCode::RBracket,
        96 | 126 => KeyCode::Grave,
        127 => KeyCode::Delete,
        _ => KeyCode::No,
    }
}

/// Whether typing the ASCII byte `c` on a US layout requires holding shift: the shifted
/// symbols `! " # $ % & ( ) * + : < > ? @ ^ _ { | } ~` and the capital letters.
pub open spec fn spec_shift_required(c: u8) -> bool {
    ||| 33 <= c <= 38
    ||| 40 <= c <= 43
    ||| c == 58
    ||| c == 60
    ||| 62 <= c <= 90
    ||| 94 <= c <= 95
    ||| 123 <= c <= 126
}

impl KeyCode {
    /// Returns the HID usage id of this key code.
    pub fn code(self) -> (r: u8)
        ensures
            r == spec_code(self),
    {
        match self {
            KeyCode::No => 0x00,
            KeyCode::ErrorRollOver => 0x01,
            KeyCode::PostFail => 0x02,
            KeyCode::ErrorUndefined => 0x03,
            KeyCode::A => 0x04,
            KeyCode::B => 0x05,
            KeyCode::C => 0x06,
            KeyCode::D => 0x07,
            KeyCode::E => 0x08,
            KeyCode::F => 0x09,
            KeyCode::G => 0x0a,
            KeyCode::H => 0x0b,
            KeyCode::I => 0x0c,
            KeyCode::J => 0x0d,
            KeyCode::K => 0x0e,
            KeyCode::L => 0x0f,
            KeyCode::M => 0x10,
            KeyCode::N => 0x11,
            KeyCode::O => 0x12,
            KeyCode::P => 0x13,
            KeyCode::Q => 0x14,
            KeyCode::R => 0x15,
            KeyCode::S => 0x16,
            KeyCode::T => 0x17,
            KeyCode::U => 0x18,
            KeyCode::V => 0x19,
            KeyCode::W => 0x1a,
            KeyCode::X => 0x1b,
            KeyCode::Y => 0x1c,
            KeyCode::Z => 0x1d,
            KeyCode::Kb1 => 0x1e,
            KeyCode::Kb2 => 0x1f,
            KeyCode::Kb3 => 0x20,
            KeyCode::Kb4 => 0x21,
            KeyCode::Kb5 => 0x22,
            KeyCode::Kb6 => 0x23,
            KeyCode::Kb7 => 0x24,
            KeyCode::Kb8 => 0x25,
            KeyCode::Kb9 => 0x26,
            KeyCode::Kb0 => 0x27,
            KeyCode::Enter => 0x28,
            KeyCode::Escape => 0x29,
            KeyCode::BSpace => 0x2a,
            KeyCode::Tab => 0x2b,
            KeyCode::Space => 0x2c,
            KeyCode::Minus => 0x2d,
            KeyCode::Equal => 0x2e,
            KeyCode::LBracket => 0x2f,
            KeyCode::RBracket => 0x30,
            KeyCode::Bslash => 0x31,
            KeyCode::NonUsHash => 0x32,
            KeyCode::SColon => 0x33,
            KeyCode::Quote => 0x34,
            KeyCode::Grave => 0x35,
            KeyCode::Comma => 0x36,
            KeyCode::Dot => 0x37,
            KeyCode::Slash => 0x38,
            KeyCode::CapsLock => 0x39,
            KeyCode::F1 => 0x3a,
            KeyCode::F2 => 0x3b,
            KeyCode::F3 => 0x3c,
            KeyCode::F4 => 0x3d,
            KeyCode::F5 => 0x3e,
            KeyCode::F6 => 0x3f,
            KeyCode::F7 => 0x40,
            KeyCode::F8 => 0x41,
            KeyCode::F9 => 0x42,
            KeyCode::F10 => 0x43,
            KeyCode::F11 => 0x44,
            KeyCode::F12 => 0x45,
            KeyCode::PScreen => 0x46,
            KeyCode::ScrollLock => 0x47,
            KeyCode::Pause => 0x48,
            KeyCode::Insert => 0x49,
            KeyCode::Home => 0x4a,
            KeyCode::PgUp => 0x4b,
            KeyCode::Delete => 0x4c,
            KeyCode::End => 0x4d,
            KeyCode::PgDown => 0x4e,
            KeyCode::Right => 0x4f,
            KeyCode::Left => 0x50,
            KeyCode::Down => 0x51,
            KeyCode::Up => 0x52,
            KeyCode::NumLock => 0x53,
            KeyCode::KpSlash => 0x54,
            KeyCode::KpAsterisk => 0x55,
            KeyCode::KpMinus => 0x56,
            KeyCode::KpPlus => 0x57,
            KeyCode::KpEnter => 0x58,
            KeyCode::Kp1 => 0x59,
            KeyCode::Kp2 => 0x5a,
            KeyCode::Kp3 => 0x5b,
            KeyCode::Kp4 => 0x5c,
            KeyCode::Kp5 => 0x5d,
            KeyCode::Kp6 => 0x5e,
            KeyCode::Kp7 => 0x5f,
            KeyCode::Kp8 => 0x60,
            KeyCode::Kp9 => 0x61,
            KeyCode::Kp0 => 0x62,
            KeyCode::KpDot => 0x63,
            KeyCode::NonUsBslash => 0x64,
            KeyCode::Application => 0x65,
            KeyCode::Power => 0x66,
            KeyCode::KpEqual => 0x67,
            KeyCode::F13 => 0x68,
            KeyCode::F14 => 0x69,
            KeyCode::F15 => 0x6a,
            KeyCode::F16 => 0x6b,
            KeyCode::F17 => 0x6c,
            KeyCode::F18 => 0x6d,
            KeyCode::F19 => 0x6e,
            KeyCode::F20 => 0x6f,
            KeyCode::F21 => 0x70,
            KeyCode::F22 => 0x71,
            KeyCode::F23 => 0x72,
            KeyCode::F24 => 0x73,
            KeyCode::Execute => 0x74,
            KeyCode::Help => 0x75,
            KeyCode::Menu => 0x76,
            KeyCode::Select => 0x77,
            KeyCode::Stop => 0x78,
            KeyCode::Again => 0x79,
            KeyCode::Undo => 0x7a,
            KeyCode::Cut => 0x7b,
            KeyCode::Copy => 0x7c,
            KeyCode::Paste => 0x7d,
            KeyCode::Find => 0x7e,
            KeyCode::Mute => 0x7f,
            KeyCode::VolUp => 0x80,
            KeyCode::VolDown => 0x81,
            KeyCode::LockingCapsLock => 0x82,
            KeyCode::LockingNumLock => 0x83,
            KeyCode::LockingScrollLock => 0x84,
            KeyCode::KpComma => 0x85,
            KeyCode::KpEqualSign => 0x86,
            KeyCode::Intl1 => 0x87,
            KeyCode::Intl2 => 0x88,
            KeyCode::Intl3 => 0x89,
            KeyCode::Intl4 => 0x8a,
            KeyCode::Intl5 => 0x8b,
            KeyCode::Intl6 => 0x8c,
            KeyCode::Intl7 => 0x8d,
            KeyCode::Intl8 => 0x8e,
            KeyCode::Intl9 => 0x8f,
            KeyCode::Lang1 => 0x90,
            KeyCode::Lang2 => 0x91,
            KeyCode::Lang3 => 0x92,
            KeyCode::Lang4 => 0x93,
            KeyCode::Lang5 => 0x94,
            KeyCode::Lang6 => 0x95,
            KeyCode::Lang7 => 0x96,
            KeyCode::Lang8 => 0x97,
            KeyCode::Lang9 => 0x98,
            KeyCode::AltErase => 0x99,
            KeyCode::SysReq => 0x9a,
            KeyCode::Cancel => 0x9b,
            KeyCode::Clear => 0x9c,
            KeyCode::Prior => 0x9d,
            KeyCode::Return => 0x9e,
            KeyCode::Separator => 0x9f,
            KeyCode::Out => 0xa0,
            KeyCode::Oper => 0xa1,
            KeyCode::ClearAgain => 0xa2,
            KeyCode::CrSel => 0xa3,
            KeyCode::ExSel => 0xa4,
            KeyCode::LCtrl => 0xe0,
            KeyCode::LShift => 0xe1,
            KeyCode::LAlt => 0xe2,
            KeyCode::LGui => 0xe3,
            KeyCode::RCtrl => 0xe4,
            KeyCode::RShift => 0xe5,
            KeyCode::RAlt => 0xe6,
            KeyCode::RGui => 0xe7,
            KeyCode::MediaPlayPause => 0xe8,
            KeyCode::MediaStopCD => 0xe9,
            KeyCode::MediaPreviousSong => 0xea,
            KeyCode::MediaNextSong => 0xeb,
            KeyCode::MediaEjectCD => 0xec,
            KeyCode::MediaVolUp => 0xed,
            KeyCode::MediaVolDown => 0xee,
            KeyCode::MediaMute => 0xef,
            KeyCode::MediaWWW => 0xf0,
            KeyCode::MediaBack => 0xf1,
            KeyCode::MediaForward => 0xf2,
            KeyCode::MediaStop => 0xf3,
            KeyCode::MediaFind => 0xf4,
            KeyCode::MediaScrollUp => 0xf5,
            KeyCode::MediaScrollDown => 0xf6,
            KeyCode::MediaEdit => 0xf7,
            KeyCode::MediaSleep => 0xf8,
            KeyCode::MediaCoffee => 0xf9,
            KeyCode::MediaRefresh => 0xfa,
            KeyCode::MediaCalc => 0xfb,
        }
    }

    /// Converts a HID usage id back to its key code; `None` when no key code has that id.
    pub fn from_u8(v: u8) -> (r: Option<KeyCode>)
        ensures
            r == spec_from_u8(v),
            match r {
                Some(k) => spec_code(k) == v,
                None => forall|k: KeyCode| spec_code(k) != v,
            },
    {
        match v {
            0x00 => Some(KeyCode::No),
            0x01 => Some(KeyCode::ErrorRollOver),
            0x02 => Some(KeyCode::PostFail),
            0x03 => Some(KeyCode::ErrorUndefined),
            0x04 => Some(KeyCode::A),
            0x05 => Some(KeyCode::B),
            0x06 => Some(KeyCode::C),
            0x07 => Some(KeyCode::D),
            0x08 => Some(KeyCode::E),
            0x09 => Some(KeyCode::F),
            0x0a => Some(KeyCode::G),
            0x0b => Some(KeyCode::H),
            0x0c => Some(KeyCode::I),
            0x0d => Some(KeyCode::J),
            0x0e => Some(KeyCode::K),
            0x0f => Some(KeyCode::L),
            0x10 => Some(KeyCode::M),
            0x11 => Some(KeyCode::N),
            0x12 => Some(KeyCode::O),
            0x13 => Some(KeyCode::P),
            0x14 => Some(KeyCode::Q),
            0x15 => Some(KeyCode::R),
            0x16 => Some(KeyCode::S),
            0x17 => Some(KeyCode::T),
            0x18 => Some(KeyCode::U),
            0x19 => Some(KeyCode::V),
            0x1a => Some(KeyCode::W),
            0x1b => Some(KeyCode::X),
            0x1c => Some(KeyCode::Y),
            0x1d => Some(KeyCode::Z),
            0x1e => Some(KeyCode::Kb1),
            0x1f => Some(KeyCode::Kb2),
            0x20 => Some(KeyCode::Kb3),
            0x21 => Some(KeyCode::Kb4),
            0x22 => Some(KeyCode::Kb5),
            0x23 => Some(KeyCode::Kb6),
            0x24 => Some(KeyCode::Kb7),
            0x25 => Some(KeyCode::Kb8),
            0x26 => Some(KeyCode::Kb9),
            0x27 => Some(KeyCode::Kb0),
            0x28 => Some(KeyCode::Enter),
            0x29 => Some(KeyCode::Escape),
            0x2a => Some(KeyCode::BSpace),
            0x2b => Some(KeyCode::Tab),
            0x2c => Some(KeyCode::Space),
            0x2d => Some(KeyCode::Minus),
            0x2e => Some(KeyCode::Equal),
            0x2f => Some(KeyCode::LBracket),
            0x30 => Some(KeyCode::RBracket),
            0x31 => Some(KeyCode::Bslash),
            0x32 => Some(KeyCode::NonUsHash),
            0x33 => Some(KeyCode::SColon),
            0x34 => Some(KeyCode::Quote),
            0x35 => Some(KeyCode::Grave),
            0x36 => Some(KeyCode::Comma),
            0x37 => Some(KeyCode::Dot),
            0x38 => Some(KeyCode::Slash),
            0x39 => Some(KeyCode::CapsLock),
            0x3a => Some(KeyCode::F1),
            0x3b => Some(KeyCode::F2),
            0x3c => Some(KeyCode::F3),
            0x3d => Some(KeyCode::F4),
            0x3e => Some(KeyCode::F5),
            0x3f => Some(KeyCode::F6),
            0x40 => Some(KeyCode::F7),
            0x41 => Some(KeyCode::F8),
            0x42 => Some(KeyCode::F9),
            0x43 => Some(KeyCode::F10),
            0x44 => Some(KeyCode::F11),
            0x45 => Some(KeyCode::F12),
            0x46 => Some(KeyCode::PScreen),
            0x47 => Some(KeyCode::ScrollLock),
            0x48 => Some(KeyCode::Pause),
            0x49 => Some(KeyCode::Insert),
            0x4a => Some(KeyCode::Home),
            0x4b => Some(KeyCode::PgUp),
            0x4c => Some(KeyCode::Delete),
            0x4d => Some(KeyCode::End),
            0x4e => Some(KeyCode::PgDown),
            0x4f => Some(KeyCode::Right),
            0x50 => Some(KeyCode::Left),
            0x51 => Some(KeyCode::Down),
            0x52 => Some(KeyCode::Up),
            0x53 => Some(KeyCode::NumLock),
            0x54 => Some(KeyCode::KpSlash),
            0x55 => Some(KeyCode::KpAsterisk),
            0x56 => Some(KeyCode::KpMinus),
            0x57 => Some(KeyCode::KpPlus),
            0x58 => Some(KeyCode::KpEnter),
            0x59 => Some(KeyCode::Kp1),
            0x5a => Some(KeyCode::Kp2),
            0x5b => Some(KeyCode::Kp3),
            0x5c => Some(KeyCode::Kp4),
            0x5d => Some(KeyCode::Kp5),
            0x5e => Some(KeyCode::Kp6),
            0x5f => Some(KeyCode::Kp7),
            0x60 => Some(KeyCode::Kp8),
            0x61 => Some(KeyCode::Kp9),
            0x62 => Some(KeyCode::Kp0),
            0x63 => Some(KeyCode::KpDot),
            0x64 => Some(KeyCode::NonUsBslash),
            0x65 => Some(KeyCode::Application),
            0x66 => Some(KeyCode::Power),
            0x67 => Some(KeyCode::KpEqual),
            0x68 => Some(KeyCode::F13),
            0x69 => Some(KeyCode::F14),
            0x6a => Some(KeyCode::F15),
            0x6b => Some(KeyCode::F16),
            0x6c => Some(KeyCode::F17),
            0x6d => Some(KeyCode::F18),
            0x6e => Some(KeyCode::F19),
            0x6f => Some(KeyCode::F20),
            0x70 => Some(KeyCode::F21),
            0x71 => Some(KeyCode::F22),
            0x72 => Some(KeyCode::F23),
            0x73 => Some(KeyCode::F24),
            0x74 => Some(KeyCode::Execute),
            0x75 => Some(KeyCode::Help),
            0x76 => Some(KeyCode::Menu),
            0x77 => Some(KeyCode::Select),
            0x78 => Some(KeyCode::Stop),
            0x79 => Some(KeyCode::Again),
            0x7a => Some(KeyCode::Undo),
            0x7b => Some(KeyCode::Cut),
            0x7c => Some(KeyCode::Copy),
            0x7d => Some(KeyCode::Paste),
            0x7e => Some(KeyCode::Find),
            0x7f => Some(KeyCode::Mute),
            0x80 => Some(KeyCode::VolUp),
            0x81 => Some(KeyCode::VolDown),
            0x82 => Some(KeyCode::LockingCapsLock),
            0x83 => Some(KeyCode::LockingNumLock),
            0x84 => Some(KeyCode::LockingScrollLock),
            0x85 => Some(KeyCode::KpComma),
            0x86 => Some(KeyCode::KpEqualSign),
            0x87 => Some(KeyCode::Intl1),
            0x88 => Some(KeyCode::Intl2),
            0x89 => Some(KeyCode::Intl3),
            0x8a => Some(KeyCode::Intl4),
            0x8b => Some(KeyCode::Intl5),
            0x8c => Some(KeyCode::Intl6),
            0x8d => Some(KeyCode::Intl7),
            0x8e => Some(KeyCode::Intl8),
            0x8f => Some(KeyCode::Intl9),
            0x90 => Some(KeyCode::Lang1),
            0x91 => Some(KeyCode::Lang2),
            0x92 => Some(KeyCode::Lang3),
            0x93 => Some(KeyCode::Lang4),
            0x94 => Some(KeyCode::Lang5),
            0x95 => Some(KeyCode::Lang6),
            0x96 => Some(KeyCode::Lang7),
            0x97 => Some(KeyCode::Lang8),
            0x98 => Some(KeyCode::Lang9),
            0x99 => Some(KeyCode::AltErase),
            0x9a => Some(KeyCode::SysReq),
            0x9b => Some(KeyCode::Cancel),
            0x9c => Some(KeyCode::Clear),
            0x9d => Some(KeyCode::Prior),
            0x9e => Some(KeyCode::Return),
            0x9f => Some(KeyCode::Separator),
            0xa0 => Some(KeyCode::Out),
            0xa1 => Some(KeyCode::Oper),
            0xa2 => Some(KeyCode::ClearAgain),
            0xa3 => Some(KeyCode::CrSel),
            0xa4 => Some(KeyCode::ExSel),
            0xe0 => Some(KeyCode::LCtrl),
            0xe1 => Some(KeyCode::LShift),
            0xe2 => Some(KeyCode::LAlt),
            0xe3 => Some(KeyCode::LGui),
            0xe4 => Some(KeyCode::RCtrl),
            0xe5 => Some(KeyCode::RShift),
            0xe6 => Some(KeyCode::RAlt),
            0xe7 => Some(KeyCode::RGui),
            0xe8 => Some(KeyCode::MediaPlayPause),
            0xe9 => Some(KeyCode::MediaStopCD),
            0xea => Some(KeyCode::MediaPreviousSong),
            0xeb => Some(KeyCode::MediaNextSong),
            0xec => Some(KeyCode::MediaEjectCD),
            0xed => Some(KeyCode::MediaVolUp),
            0xee => Some(KeyCode::MediaVolDown),
            0xef => Some(KeyCode::MediaMute),
            0xf0 => Some(KeyCode::MediaWWW),
            0xf1 => Some(KeyCode::MediaBack),
            0xf2 => Some(KeyCode::MediaForward),
            0xf3 => Some(KeyCode::MediaStop),
            0xf4 => Some(KeyCode::MediaFind),
            0xf5 => Some(KeyCode::MediaScrollUp),
            0xf6 => Some(KeyCode::MediaScrollDown),
            0xf7 => Some(KeyCode::MediaEdit),
            0xf8 => Some(KeyCode::MediaSleep),
            0xf9 => Some(KeyCode::MediaCoffee),
            0xfa => Some(KeyCode::MediaRefresh),
            0xfb => Some(KeyCode::MediaCalc),
            _ => None,
        }
    }

    /// Returns the modifiers that must be held to type the ASCII byte `c`, in the order
    /// (shift, alt, space). Only shift is ever used.
    pub fn get_mods(c: u8) -> (r: (Option<KeyCode>, Option<KeyCode>, Option<KeyCode>))
        requires
            c < 128,
        ensures
            r.0 == (if spec_shift_required(c) { Some(KeyCode::LShift) } else { None }),
            r.1 == None::<KeyCode>,
            r.2 == None::<KeyCode>,
    {
        let shift = (33 <= c && c <= 38) || (40 <= c && c <= 43) || c == 58 || c == 60 || (62 <= c
            && c <= 90) || (94 <= c && c <= 95) || (123 <= c && c <= 126);
        if shift {
            (Some(KeyCode::LShift), None, None)
        } else {
            (None, None, None)
        }
    }

    /// Converts a byte in the ASCII range to the key code that types it (`No` for bytes past 127
    /// and for control characters without a key).
    pub fn from_ascii(c: u8) -> (r: KeyCode)
        ensures
            r == spec_ascii_keycode(c),
    {
        match c {
            8 => KeyCode::BSpace,
            9 => KeyCode::Tab,
            10 => KeyCode::Enter,
            27 => KeyCode::Escape,
            32 => KeyCode::Space,
            33 | 49 => KeyCode::Kb1,
            34 | 39 => KeyCode::Quote,
            35 | 51 => KeyCode::Kb3,
            36 | 52 => KeyCode::Kb4,
            37 | 53 => KeyCode::Kb5,
            38 | 55 => KeyCode::Kb7,
            40 | 57 => KeyCode::Kb9,
            41 | 48 => KeyCode::Kb0,
            42 | 56 => KeyCode::Kb8,
            43 | 61 => KeyCode::Equal,
            44 | 60 => KeyCode::Comma,
            45 | 95 => KeyCode::Minus,
            46 | 62 => KeyCode::Dot,
            47 | 63 => KeyCode::Slash,
            50 | 64 => KeyCode::Kb2,
            54 | 94 => KeyCode::Kb6,
            58 | 59 => KeyCode::SColon,
            65 | 97 => KeyCode::A,
            66 | 98 => KeyCode::B,
            67 | 99 => KeyCode::C,
            68 | 100 => KeyCode::D,
            69 | 101 => KeyCode::E,
            70 | 102 => KeyCode::F,
            71 | 103 => KeyCode::G,
            72 | 104 => KeyCode::H,
            73 | 105 => KeyCode::I,
            74 | 106 => KeyCode::J,
            75 | 107 => KeyCode::K,
            76 | 108 => KeyCode::L,
            77 | 109 => KeyCode::M,
            78 | 110 => KeyCode::N,
            79 | 111 => KeyCode::O,
            80 | 112 => KeyCode::P,
            81 | 113 => KeyCode::Q,
            82 | 114 => KeyCode::R,
            83 | 115 => KeyCode::S,
            84 | 116 => KeyCode::T,
            85 | 117 => KeyCode::U,
            86 | 118 => KeyCode::V,
            87 | 119 => KeyCode::W,
            88 | 120 => KeyCode::X,
            89 | 121 => KeyCode::Y,
            90 | 122 => KeyCode::Z,
            91 | 123 => KeyCode::LBracket,
            92 | 124 => KeyCode::Bslash,
            93 | 125 => KeyCode::RBracket,
            96 | 126 => KeyCode::Grave,
            127 => KeyCode::Delete,
            _ => KeyCode::No,
        }
    }
}


/// Every key code has its own HID usage id, and converting the id back gives the key code.
pub proof fn lemma_code_roundtrip(k: KeyCode)
    ensures
        spec_from_u8(spec_code(k)) == Some(k),
        forall|j: KeyCode| spec_code(j) == spec_code(k) ==> j == k,
{
    assert forall|j: KeyCode| spec_code(j) == spec_code(k) implies j == k by {
        assert(spec_from_u8(spec_code(j)) == Some(j));
        assert(spec_from_u8(spec_code(k)) == Some(k));
    }
}

/// Each letter is typed by its own key, whatever its case: the lower-case and the upper-case
/// byte of the `i`-th letter of the alphabet both give the `i`-th letter key, whose HID usage
/// id is `0x04 + i`; only the upper-case one needs shift. So distinct letters give distinct
/// keys.
pub proof fn lemma_ascii_letters(i: u8)
    requires
        i < 26,
    ensures
        spec_ascii_keycode((97 + i) as u8) == spec_ascii_keycode((65 + i) as u8),
        spec_code(spec_ascii_keycode((97 + i) as u8)) == 4 + i,
        spec_shift_required((65 + i) as u8),
        !spec_shift_required((97 + i) as u8),
{
}

/// Each digit is typed by its own number key: `'1'` to `'9'` give the keys with HID usage ids
/// `0x1e` to `0x26` in order, and `'0'` the key with id `0x27`; none needs shift.
pub proof fn lemma_ascii_digits(d: u8)
    requires
        d < 10,
    ensures
        spec_code(spec_ascii_keycode((48 + d) as u8)) == (if d == 0 { 0x27 } else { 0x1d + d }),
        !spec_shift_required((48 + d) as u8),
{
}

/// On a US layout each shifted symbol is typed by the key of its unshifted partner, with shift
/// held: `!@#$%^&*()` share the keys of `1234567890`, and `_+{}|:"<>?~` those of
/// `-=[]\\;',./` and the backquote.
pub proof fn lemma_ascii_shifted_symbols()
    ensures
        spec_ascii_keycode(33) == spec_ascii_keycode(49),
        spec_shift_required(33) && !spec_shift_required(49),
        spec_ascii_keycode(64) == spec_ascii_keycode(50),
        spec_shift_required(64) && !spec_shift_required(50),
        spec_ascii_keycode(35) == spec_ascii_keycode(51),
        spec_shift_required(35) && !spec_shift_required(51),
        spec_ascii_keycode(36) == spec_ascii_keycode(52),
        spec_shift_required(36) && !spec_shift_required(52),
        spec_ascii_keycode(37) == spec_ascii_keycode(53),
        spec_shift_required(37) && !spec_shift_required(53),
        spec_ascii_keycode(94) == spec_ascii_keycode(54),
        spec_shift_required(94) && !spec_shift_required(54),
        spec_ascii_keycode(38) == spec_ascii_keycode(55),
        spec_shift_required(38) && !spec_shift_required(55),
        spec_ascii_keycode(42) == spec_ascii_keycode(56),
        spec_shift_required(42) && !spec_shift_required(56),
        spec_ascii_keycode(40) == spec_ascii_keycode(57),
        spec_shift_required(40) && !spec_shift_required(57),
        spec_ascii_keycode(41) == spec_ascii_keycode(48),
        spec_shift_required(41) && !spec_shift_required(48),
        spec_ascii_keycode(95) == spec_ascii_keycode(45),
        spec_shift_required(95) && !spec_shift_required(45),
        spec_ascii_keycode(43) == spec_ascii_keycode(61),
        spec_shift_required(43) && !spec_shift_required(61),
        spec_ascii_keycode(123) == spec_ascii_keycode(91),
        spec_shift_required(123) && !spec_shift_required(91),
        spec_ascii_keycode(125) == spec_ascii_keycode(93),
        spec_shift_required(125) && !spec_shift_required(93),
        spec_ascii_keycode(124) == spec_ascii_keycode(92),
        spec_shift_required(124) && !spec_shift_required(92),
        spec_ascii_keycode(58) == spec_ascii_keycode(59),
        spec_shift_required(58) && !spec_shift_required(59),
        spec_ascii_keycode(34) == spec_ascii_keycode(39),
        spec_shift_required(34) && !spec_shift_required(39),
        spec_ascii_keycode(60) == spec_ascii_keycode(44),
        spec_shift_required(60) && !spec_shift_required(44),
        spec_ascii_keycode(62) == spec_ascii_keycode(46),
        spec_shift_required(62) && !spec_shift_required(46),
        spec_ascii_keycode(63) == spec_ascii_keycode(47),
        spec_shift_required(63) && !spec_shift_required(47),
        spec_ascii_keycode(126) == spec_ascii_keycode(96),
        spec_shift_required(126) && !spec_shift_required(96),
        spec_code(spec_ascii_keycode(45)) == 0x2d && spec_code(spec_ascii_keycode(61)) == 0x2e,
        spec_code(spec_ascii_keycode(91)) == 0x2f && spec_code(spec_ascii_keycode(93)) == 0x30,
        spec_code(spec_ascii_keycode(92)) == 0x31 && spec_code(spec_ascii_keycode(59)) == 0x33,
        spec_code(spec_ascii_keycode(39)) == 0x34 && spec_code(spec_ascii_keycode(96)) == 0x35,
        spec_code(spec_ascii_keycode(44)) == 0x36 && spec_code(spec_ascii_keycode(46)) == 0x37,
        spec_code(spec_ascii_keycode(47)) == 0x38 && spec_code(spec_ascii_keycode(32)) == 0x2c,
        spec_code(spec_ascii_keycode(10)) == 0x28 && spec_code(spec_ascii_keycode(9)) == 0x2b,
        spec_code(spec_ascii_keycode(8)) == 0x2a && spec_code(spec_ascii_keycode(27)) == 0x29,
{
}

/// The modifier keys have the HID usage ids `0xe0` to `0xe7`, in the order left control,
/// shift, alt, GUI, then right control, shift, alt, GUI; `F1` to `F12` have `0x3a` to `0x45`.
pub proof fn lemma_modifier_and_function_codes()
    ensures
        spec_code(KeyCode::LCtrl) == 0xe0 + 0,
        spec_code(KeyCode::LShift) == 0xe0 + 1,
        spec_code(KeyCode::LAlt) == 0xe0 + 2,
        spec_code(KeyCode::LGui) == 0xe0 + 3,
        spec_code(KeyCode::RCtrl) == 0xe0 + 4,
        spec_code(KeyCode::RShift) == 0xe0 + 5,
        spec_code(KeyCode::RAlt) == 0xe0 + 6,
        spec_code(KeyCode::RGui) == 0xe0 + 7,
        spec_code(KeyCode::F1) == 0x3a + 0,
        spec_code(KeyCode::F2) == 0x3a + 1,
        spec_code(KeyCode::F3) == 0x3a + 2,
        spec_code(KeyCode::F4) == 0x3a + 3,
        spec_code(KeyCode::F5) == 0x3a + 4,
        spec_code(KeyCode::F6) == 0x3a + 5,
        spec_code(KeyCode::F7) == 0x3a + 6,
        spec_code(KeyCode::F8) == 0x3a + 7,
        spec_code(KeyCode::F9) == 0x3a + 8,
        spec_code(KeyCode::F10) == 0x3a + 9,
        spec_code(KeyCode::F11) == 0x3a + 10,
        spec_code(KeyCode::F12) == 0x3a + 11,
{
}

} // verus!
