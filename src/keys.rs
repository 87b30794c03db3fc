use vstd::prelude::*;

verus! {

/// A key or modifier of the host keyboard, independent of any OS input API.
#[derive(Clone, Copy, Debug, PartialEq, Eq, Hash, Structural)]
pub enum LogicalKey {
    A,
    B,
    C,
    D,
    E,
    F,
    G,
    H,
    I,
    J,
    K,
    L,
    M,
    N,
    O,
    P,
    Q,
    R,
    S,
    T,
    U,
    V,
    W,
    X,
    Y,
    Z,
    Digit1,
    Digit2,
    Digit3,
    Digit4,
    Digit5,
    Digit6,
    Digit7,
    Digit8,
    Digit9,
    Digit0,
    F1,
    F2,
    F3,
    F4,
    F5,
    F6,
    F7,
    F8,
    F9,
    F10,
    F11,
    F12,
    Enter,
    Esc,
    Backspace,
    Tab,
    Space,
    Minus,
    Equal,
    LeftBrace,
    RightBrace,
    Pound,
    Semicolon,
    Apostrophe,
    Grave,
    Comma,
    Dot,
    Slash,
    CapsLock,
    Delete,
    Right,
    Left,
    Down,
    Up,
    Backslash,
    LeftControl,
    LeftShift,
    LeftAlt,
    LeftMeta,
    RightControl,
    RightShift,
    RightAlt,
    RightMeta,
}

/// The key that a HID usage ID in a keycode slot stands for; `None` for an
/// unmapped code and for the empty-slot sentinel 0.
pub open spec fn hid_key(code: u8) -> Option<LogicalKey> {
    match code {
        0x04 => Some(LogicalKey::A),
        0x05 => Some(LogicalKey::B),
        0x06 => Some(LogicalKey::C),
        0x07 => Some(LogicalKey::D),
        0x08 => Some(LogicalKey::E),
        0x09 => Some(LogicalKey::F),
        0x0A => Some(LogicalKey::G),
        0x0B => Some(LogicalKey::H),
        0x0C => Some(LogicalKey::I),
        0x0D => Some(LogicalKey::J),
        0x0E => Some(LogicalKey::K),
        0x0F => Some(LogicalKey::L),
        0x10 => Some(LogicalKey::M),
        0x11 => Some(LogicalKey::N),
        0x12 => Some(LogicalKey::O),
        0x13 => Some(LogicalKey::P),
        0x14 => Some(LogicalKey::Q),
        0x15 => Some(LogicalKey::R),
        0x16 => Some(LogicalKey::S),
        0x17 => Some(LogicalKey::T),
        0x18 => Some(LogicalKey::U),
        0x19 => Some(LogicalKey::V),
        0x1A => Some(LogicalKey::W),
        0x1B => Some(LogicalKey::X),
        0x1C => Some(LogicalKey::Y),
        0x1D => Some(LogicalKey::Z),
        0x1E => Some(LogicalKey::Digit1),
        0x1F => Some(LogicalKey::Digit2),
        0x20 => Some(LogicalKey::Digit3),
        0x21 => Some(LogicalKey::Digit4),
        0x22 => Some(LogicalKey::Digit5),
        0x23 => Some(LogicalKey::Digit6),
        0x24 => Some(LogicalKey::Digit7),
        0x25 => Some(LogicalKey::Digit8),
        0x26 => Some(LogicalKey::Digit9),
        0x27 => Some(LogicalKey::Digit0),
        0x28 => Some(LogicalKey::Enter),
        0x29 => Some(LogicalKey::Esc),
        0x2A => Some(LogicalKey::Backspace),
        0x2B => Some(LogicalKey::Tab),
        0x2C => Some(LogicalKey::Space),
        0x2D => Some(LogicalKey::Minus),
        0x2E => Some(LogicalKey::Equal),
        0x2F => Some(LogicalKey::LeftBrace),
        0x30 => Some(LogicalKey::RightBrace),
        0x32 => Some(LogicalKey::Pound),
        0x33 => Some(LogicalKey::Semicolon),
        0x34 => Some(LogicalKey::Apostrophe),
        0x35 => Some(LogicalKey::Grave),
        0x36 => Some(LogicalKey::Comma),
        0x37 => Some(LogicalKey::Dot),
        0x38 => Some(LogicalKey::Slash),
        0x39 => Some(LogicalKey::CapsLock),
        0x3A => Some(LogicalKey::F1),
        0x3B => Some(LogicalKey::F2),
        0x3C => Some(LogicalKey::F3),
        0x3D => Some(LogicalKey::F4),
        0x3E => Some(LogicalKey::F5),
        0x3F => Some(LogicalKey::F6),
        0x40 => Some(LogicalKey::F7),
        0x41 => Some(LogicalKey::F8),
        0x42 => Some(LogicalKey::F9),
        0x43 => Some(LogicalKey::F10),
        0x44 => Some(LogicalKey::F11),
        0x45 => Some(LogicalKey::F12),
        0x4C => Some(LogicalKey::Delete),
        0x4F => Some(LogicalKey::Right),
        0x50 => Some(LogicalKey::Left),
        0x51 => Some(LogicalKey::Down),
        0x52 => Some(LogicalKey::Up),
        0x64 => Some(LogicalKey::Backslash),
        _ => None,
    }
}

/// The bit of the modifier byte that stands for `k`, or 0 where `k` is no
/// modifier.
pub open spec fn modifier_mask(k: LogicalKey) -> u8 {
    match k {
        LogicalKey::LeftControl => 0x01,
        LogicalKey::LeftShift => 0x02,
        LogicalKey::LeftAlt => 0x04,
        LogicalKey::LeftMeta => 0x08,
        LogicalKey::RightControl => 0x10,
        LogicalKey::RightShift => 0x20,
        LogicalKey::RightAlt => 0x40,
        LogicalKey::RightMeta => 0x80,
        _ => 0,
    }
}

/// The modifier that bit `i` (0 to 7) of the modifier byte stands for.
pub open spec fn modifier_of_bit(i: u8) -> LogicalKey
    recommends
        i < 8,
{
    match i {
        0 => LogicalKey::LeftControl,
        1 => LogicalKey::LeftShift,
        2 => LogicalKey::LeftAlt,
        3 => LogicalKey::LeftMeta,
        4 => LogicalKey::RightControl,
        5 => LogicalKey::RightShift,
        6 => LogicalKey::RightAlt,
        _ => LogicalKey::RightMeta,
    }
}

pub open spec fn is_modifier(k: LogicalKey) -> bool {
    modifier_mask(k) != 0
}

/// The modifier keys that the modifier byte `m` holds down.
pub open spec fn modifier_set(m: u8) -> Set<LogicalKey> {
    Set::new(|k: LogicalKey| is_modifier(k) && m & modifier_mask(k) != 0)
}

/// Looks a HID usage ID up in the keycode table.
pub fn convert_hid_to_key(code: u8) -> (r: Option<LogicalKey>)
    ensures
        r == hid_key(code),
{
    match code {
        0x04 => Some(LogicalKey::A),
        0x05 => Some(LogicalKey::B),
        0x06 => Some(LogicalKey::C),
        0x07 => Some(LogicalKey::D),
        0x08 => Some(LogicalKey::E),
        0x09 => Some(LogicalKey::F),
        0x0A => Some(LogicalKey::G),
        0x0B => Some(LogicalKey::H),
        0x0C => Some(LogicalKey::I),
        0x0D => Some(LogicalKey::J),
        0x0E => Some(LogicalKey::K),
        0x0F => Some(LogicalKey::L),
        0x10 => Some(LogicalKey::M),
        0x11 => Some(LogicalKey::N),
        0x12 => Some(LogicalKey::O),
        0x13 => Some(LogicalKey::P),
        0x14 => Some(LogicalKey::Q),
        0x15 => Some(LogicalKey::R),
        0x16 => Some(LogicalKey::S),
        0x17 => Some(LogicalKey::T),
        0x18 => Some(LogicalKey::U),
        0x19 => Some(LogicalKey::V),
        0x1A => Some(LogicalKey::W),
        0x1B => Some(LogicalKey::X),
        0x1C => Some(LogicalKey::Y),
        0x1D => Some(LogicalKey::Z),
        0x1E => Some(LogicalKey::Digit1),
        0x1F => Some(LogicalKey::Digit2),
        0x20 => Some(LogicalKey::Digit3),
        0x21 => Some(LogicalKey::Digit4),
        0x22 => Some(LogicalKey::Digit5),
        0x23 => Some(LogicalKey::Digit6),
        0x24 => Some(LogicalKey::Digit7),
        0x25 => Some(LogicalKey::Digit8),
        0x26 => Some(LogicalKey::Digit9),
        0x27 => Some(LogicalKey::Digit0),
        0x28 => Some(LogicalKey::Enter),
        0x29 => Some(LogicalKey::Esc),
        0x2A => Some(LogicalKey::Backspace),
        0x2B => Some(LogicalKey::Tab),
        0x2C => Some(LogicalKey::Space),
        0x2D => Some(LogicalKey::Minus),
        0x2E => Some(LogicalKey::Equal),
        0x2F => Some(LogicalKey::LeftBrace),
        0x30 => Some(LogicalKey::RightBrace),
        0x32 => Some(LogicalKey::Pound),
        0x33 => Some(LogicalKey::Semicolon),
        0x34 => Some(LogicalKey::Apostrophe),
        0x35 => Some(LogicalKey::Grave),
        0x36 => Some(LogicalKey::Comma),
        0x37 => Some(LogicalKey::Dot),
        0x38 => Some(LogicalKey::Slash),
        0x39 => Some(LogicalKey::CapsLock),
        0x3A => Some(LogicalKey::F1),
        0x3B => Some(LogicalKey::F2),
        0x3C => Some(LogicalKey::F3),
        0x3D => Some(LogicalKey::F4),
        0x3E => Some(LogicalKey::F5),
        0x3F => Some(LogicalKey::F6),
        0x40 => Some(LogicalKey::F7),
        0x41 => Some(LogicalKey::F8),
        0x42 => Some(LogicalKey::F9),
        0x43 => Some(LogicalKey::F10),
        0x44 => Some(LogicalKey::F11),
        0x45 => Some(LogicalKey::F12),
        0x4C => Some(LogicalKey::Delete),
        0x4F => Some(LogicalKey::Right),
        0x50 => Some(LogicalKey::Left),
        0x51 => Some(LogicalKey::Down),
        0x52 => Some(LogicalKey::Up),
        0x64 => Some(LogicalKey::Backslash),
        _ => None,
    }
}


/// The modifier keys that the modifier byte `modifiers` holds down, one for
/// each set bit, in bit order.
pub fn convert_modifiers(modifiers: u8) -> (r: Vec<LogicalKey>)
    ensures
        r@.to_set() == modifier_set(modifiers),
        r@.no_duplicates(),
{
    let mut keys: Vec<LogicalKey> = Vec::with_capacity(8);
    if modifiers & 0x01 != 0 {
        keys.push(LogicalKey::LeftControl);
    }
    if modifiers & 0x02 != 0 {
        keys.push(LogicalKey::LeftShift);
    }
    if modifiers & 0x04 != 0 {
        keys.push(LogicalKey::LeftAlt);
    }
    if modifiers & 0x08 != 0 {
        keys.push(LogicalKey::LeftMeta);
    }
    if modifiers & 0x10 != 0 {
        keys.push(LogicalKey::RightControl);
    }
    if modifiers & 0x20 != 0 {
        keys.push(LogicalKey::RightShift);
    }
    if modifiers & 0x40 != 0 {
        keys.push(LogicalKey::RightAlt);
    }
    if modifiers & 0x80 != 0 {
        keys.push(LogicalKey::RightMeta);
    }
    proof {
        assert forall|k: LogicalKey| keys@.contains(k) <==> modifier_set(modifiers).contains(k) by {
            broadcast use vstd::seq_lib::group_seq_properties;
        }
        assert(keys@.to_set() =~= modifier_set(modifiers));
    }
    keys
}

} // verus!
