//! Keyboard keys, identified by their Windows virtual-key codes.

use crate::buttons::record::InputRecord;
use vstd::prelude::*;

verus! {

/// A keyboard key that can be remapped.
///
/// Each variant is named after the Windows virtual-key constant it stands for; `to_vk`
/// gives the numeric code.
#[allow(non_camel_case_types)]
#[derive(Debug, Clone, Copy, PartialEq, Eq, PartialOrd, Ord, Hash, Structural)]
pub enum KeyButton {
    LBUTTON,
    RBUTTON,
    MBUTTON,
    XBUTTON1,
    XBUTTON2,
    BACK,
    TAB,
    CLEAR,
    RETURN,
    SHIFT,
    CONTROL,
    MENU,
    PAUSE,
    CAPITAL,
    KANA_HANGUL,
    IME_ON,
    JUNJA,
    FINAL,
    HANJA_KANJI,
    IME_OFF,
    ESCAPE,
    SPACE,
    A,
    B,
    C,
    D,
    E,
    F,
    G,
    H,
    I,
    J,
    K,
    L,
    M,
    N,
    O,
    P,
    Q,
    R,
    S,
    T,
    U,
    V,
    W,
    X,
    Y,
    Z,
    LSHIFT,
    RSHIFT,
    LCONTROL,
    RCONTROL,
}

/// The number of `KeyButton` variants.
pub const KEY_BUTTON_COUNT: usize = 52;

impl KeyButton {
    /// The virtual-key code of this key.
    pub open spec fn spec_vk(self) -> u8 {
        match self {
            KeyButton::LBUTTON => 0x01,
            KeyButton::RBUTTON => 0x02,
            KeyButton::MBUTTON => 0x04,
            KeyButton::XBUTTON1 => 0x05,
            KeyButton::XBUTTON2 => 0x06,
            KeyButton::BACK => 0x08,
            KeyButton::TAB => 0x09,
            KeyButton::CLEAR => 0x0C,
            KeyButton::RETURN => 0x0D,
            KeyButton::SHIFT => 0x10,
            KeyButton::CONTROL => 0x11,
            KeyButton::MENU => 0x12,
            KeyButton::PAUSE => 0x13,
            KeyButton::CAPITAL => 0x14,
            KeyButton::KANA_HANGUL => 0x15,
            KeyButton::IME_ON => 0x16,
            KeyButton::JUNJA => 0x17,
            KeyButton::FINAL => 0x18,
            KeyButton::HANJA_KANJI => 0x19,
            KeyButton::IME_OFF => 0x1A,
            KeyButton::ESCAPE => 0x1B,
            KeyButton::SPACE => 0x20,
            KeyButton::A => 0x41,
            KeyButton::B => 0x42,
            KeyButton::C => 0x43,
            KeyButton::D => 0x44,
            KeyButton::E => 0x45,
            KeyButton::F => 0x46,
            KeyButton::G => 0x47,
            KeyButton::H => 0x48,
            KeyButton::I => 0x49,
            KeyButton::J => 0x4A,
            KeyButton::K => 0x4B,
            KeyButton::L => 0x4C,
            KeyButton::M => 0x4D,
            KeyButton::N => 0x4E,
            KeyButton::O => 0x4F,
            KeyButton::P => 0x50,
            KeyButton::Q => 0x51,
            KeyButton::R => 0x52,
            KeyButton::S => 0x53,
            KeyButton::T => 0x54,
            KeyButton::U => 0x55,
            KeyButton::V => 0x56,
            KeyButton::W => 0x57,
            KeyButton::X => 0x58,
            KeyButton::Y => 0x59,
            KeyButton::Z => 0x5A,
            KeyButton::LSHIFT => 0xA0,
            KeyButton::RSHIFT => 0xA1,
            KeyButton::LCONTROL => 0xA2,
            KeyButton::RCONTROL => 0xA3,
        }
    }

    /// The key whose virtual-key code is `vk`, if there is one.
    pub open spec fn spec_from_vk(vk: u8) -> Option<KeyButton> {
        match vk {
            0x01 => Some(KeyButton::LBUTTON),
            0x02 => Some(KeyButton::RBUTTON),
            0x04 => Some(KeyButton::MBUTTON),
            0x05 => Some(KeyButton::XBUTTON1),
            0x06 => Some(KeyButton::XBUTTON2),
            0x08 => Some(KeyButton::BACK),
            0x09 => Some(KeyButton::TAB),
            0x0C => Some(KeyButton::CLEAR),
            0x0D => Some(KeyButton::RETURN),
            0x10 => Some(KeyButton::SHIFT),
            0x11 => Some(KeyButton::CONTROL),
            0x12 => Some(KeyButton::MENU),
            0x13 => Some(KeyButton::PAUSE),
            0x14 => Some(KeyButton::CAPITAL),
            0x15 => Some(KeyButton::KANA_HANGUL),
            0x16 => Some(KeyButton::IME_ON),
            0x17 => Some(KeyButton::JUNJA),
            0x18 => Some(KeyButton::FINAL),
            0x19 => Some(KeyButton::HANJA_KANJI),
            0x1A => Some(KeyButton::IME_OFF),
            0x1B => Some(KeyButton::ESCAPE),
            0x20 => Some(KeyButton::SPACE),
            0x41 => Some(KeyButton::A),
            0x42 => Some(KeyButton::B),
            0x43 => Some(KeyButton::C),
            0x44 => Some(KeyButton::D),
            0x45 => Some(KeyButton::E),
            0x46 => Some(KeyButton::F),
            0x47 => Some(KeyButton::G),
            0x48 => Some(KeyButton::H),
            0x49 => Some(KeyButton::I),
            0x4A => Some(KeyButton::J),
            0x4B => Some(KeyButton::K),
            0x4C => Some(KeyButton::L),
            0x4D => Some(KeyButton::M),
            0x4E => Some(KeyButton::N),
            0x4F => Some(KeyButton::O),
            0x50 => Some(KeyButton::P),
            0x51 => Some(KeyButton::Q),
            0x52 => Some(KeyButton::R),
            0x53 => Some(KeyButton::S),
            0x54 => Some(KeyButton::T),
            0x55 => Some(KeyButton::U),
            0x56 => Some(KeyButton::V),
            0x57 => Some(KeyButton::W),
            0x58 => Some(KeyButton::X),
            0x59 => Some(KeyButton::Y),
            0x5A => Some(KeyButton::Z),
            0xA0 => Some(KeyButton::LSHIFT),
            0xA1 => Some(KeyButton::RSHIFT),
            0xA2 => Some(KeyButton::LCONTROL),
            0xA3 => Some(KeyButton::RCONTROL),
            _ => None,
        }
    }

    /// The name shown to the user for this key.
    pub open spec fn spec_name(self) -> Seq<char> {
        match self {
            KeyButton::LBUTTON => "Left Click as key"@,
            KeyButton::RBUTTON => "Right Click as key"@,
            KeyButton::MBUTTON => "Middle Click as key"@,
            KeyButton::XBUTTON1 => "Mouse X1 as key"@,
            KeyButton::XBUTTON2 => "Mouse X2 as key"@,
            KeyButton::BACK => "Backspace"@,
            KeyButton::TAB => "Tab"@,
            KeyButton::CLEAR => "Clear"@,
            KeyButton::RETURN => "Enter"@,
            KeyButton::SHIFT => "Shift (ambidextrous)"@,
            KeyButton::CONTROL => "Ctrl (ambidextrous)"@,
            KeyButton::MENU => "Alt (ambidextrous)"@,
            KeyButton::PAUSE => "Pause"@,
            KeyButton::CAPITAL => "Caps Lock"@,
            KeyButton::KANA_HANGUL => "IME Kana/Hangul"@,
            KeyButton::IME_ON => "IME On"@,
            KeyButton::JUNJA => "IME Junja"@,
            KeyButton::FINAL => "IME Final"@,
            KeyButton::HANJA_KANJI => "IME Hanja/Kanji"@,
            KeyButton::IME_OFF => "IME Off"@,
            KeyButton::ESCAPE => "Escape"@,
            KeyButton::SPACE => "Space"@,
            KeyButton::A => "A"@,
            KeyButton::B => "B"@,
            KeyButton::C => "C"@,
            KeyButton::D => "D"@,
            KeyButton::E => "E"@,
            KeyButton::F => "F"@,
            KeyButton::G => "G"@,
            KeyButton::H => "H"@,
            KeyButton::I => "I"@,
            KeyButton::J => "J"@,
            KeyButton::K => "K"@,
            KeyButton::L => "L"@,
            KeyButton::M => "M"@,
            KeyButton::N => "N"@,
            KeyButton::O => "O"@,
            KeyButton::P => "P"@,
            KeyButton::Q => "Q"@,
            KeyButton::R => "R"@,
            KeyButton::S => "S"@,
            KeyButton::T => "T"@,
            KeyButton::U => "U"@,
            KeyButton::V => "V"@,
            KeyButton::W => "W"@,
            KeyButton::X => "X"@,
            KeyButton::Y => "Y"@,
            KeyButton::Z => "Z"@,
            KeyButton::LSHIFT => "Left Shift"@,
            KeyButton::RSHIFT => "Right Shift"@,
            KeyButton::LCONTROL => "Left Ctrl"@,
            KeyButton::RCONTROL => "Right Ctrl"@,
        }
    }

    /// The position of this key in declaration order.
    pub open spec fn spec_index(self) -> usize {
        match self {
            KeyButton::LBUTTON => 0,
            KeyButton::RBUTTON => 1,
            KeyButton::MBUTTON => 2,
            KeyButton::XBUTTON1 => 3,
            KeyButton::XBUTTON2 => 4,
            KeyButton::BACK => 5,
            KeyButton::TAB => 6,
            KeyButton::CLEAR => 7,
            KeyButton::RETURN => 8,
            KeyButton::SHIFT => 9,
            KeyButton::CONTROL => 10,
            KeyButton::MENU => 11,
            KeyButton::PAUSE => 12,
            KeyButton::CAPITAL => 13,
            KeyButton::KANA_HANGUL => 14,
            KeyButton::IME_ON => 15,
            KeyButton::JUNJA => 16,
            KeyButton::FINAL => 17,
            KeyButton::HANJA_KANJI => 18,
            KeyButton::IME_OFF => 19,
            KeyButton::ESCAPE => 20,
            KeyButton::SPACE => 21,
            KeyButton::A => 22,
            KeyButton::B => 23,
            KeyButton::C => 24,
            KeyButton::D => 25,
            KeyButton::E => 26,
            KeyButton::F => 27,
            KeyButton::G => 28,
            KeyButton::H => 29,
            KeyButton::I => 30,
            KeyButton::J => 31,
            KeyButton::K => 32,
            KeyButton::L => 33,
            KeyButton::M => 34,
            KeyButton::N => 35,
            KeyButton::O => 36,
            KeyButton::P => 37,
            KeyButton::Q => 38,
            KeyButton::R => 39,
            KeyButton::S => 40,
            KeyButton::T => 41,
            KeyButton::U => 42,
            KeyButton::V => 43,
            KeyButton::W => 44,
            KeyButton::X => 45,
            KeyButton::Y => 46,
            KeyButton::Z => 47,
            KeyButton::LSHIFT => 48,
            KeyButton::RSHIFT => 49,
            KeyButton::LCONTROL => 50,
            KeyButton::RCONTROL => 51,
        }
    }

    /// The key at position `i` in declaration order.
    pub open spec fn spec_from_index(i: usize) -> Option<KeyButton> {
        match i {
            0 => Some(KeyButton::LBUTTON),
            1 => Some(KeyButton::RBUTTON),
            2 => Some(KeyButton::MBUTTON),
            3 => Some(KeyButton::XBUTTON1),
            4 => Some(KeyButton::XBUTTON2),
            5 => Some(KeyButton::BACK),
            6 => Some(KeyButton::TAB),
            7 => Some(KeyButton::CLEAR),
            8 => Some(KeyButton::RETURN),
            9 => Some(KeyButton::SHIFT),
            10 => Some(KeyButton::CONTROL),
            11 => Some(KeyButton::MENU),
            12 => Some(KeyButton::PAUSE),
            13 => Some(KeyButton::CAPITAL),
            14 => Some(KeyButton::KANA_HANGUL),
            15 => Some(KeyButton::IME_ON),
            16 => Some(KeyButton::JUNJA),
            17 => Some(KeyButton::FINAL),
            18 => Some(KeyButton::HANJA_KANJI),
            19 => Some(KeyButton::IME_OFF),
            20 => Some(KeyButton::ESCAPE),
            21 => Some(KeyButton::SPACE),
            22 => Some(KeyButton::A),
            23 => Some(KeyButton::B),
            24 => Some(KeyButton::C),
            25 => Some(KeyButton::D),
            26 => Some(KeyButton::E),
            27 => Some(KeyButton::F),
            28 => Some(KeyButton::G),
            29 => Some(KeyButton::H),
            30 => Some(KeyButton::I),
            31 => Some(KeyButton::J),
            32 => Some(KeyButton::K),
            33 => Some(KeyButton::L),
            34 => Some(KeyButton::M),
            35 => Some(KeyButton::N),
            36 => Some(KeyButton::O),
            37 => Some(KeyButton::P),
            38 => Some(KeyButton::Q),
            39 => Some(KeyButton::R),
            40 => Some(KeyButton::S),
            41 => Some(KeyButton::T),
            42 => Some(KeyButton::U),
            43 => Some(KeyButton::V),
            44 => Some(KeyButton::W),
            45 => Some(KeyButton::X),
            46 => Some(KeyButton::Y),
            47 => Some(KeyButton::Z),
            48 => Some(KeyButton::LSHIFT),
            49 => Some(KeyButton::RSHIFT),
            50 => Some(KeyButton::LCONTROL),
            51 => Some(KeyButton::RCONTROL),
            _ => None,
        }
    }

    /// Looks up the key with the given virtual-key code.
    pub fn from_vk(vk: u8) -> (key: Option<KeyButton>)
        ensures
            key == KeyButton::spec_from_vk(vk),
    {
        match vk {
            0x01 => Some(KeyButton::LBUTTON),
            0x02 => Some(KeyButton::RBUTTON),
            0x04 => Some(KeyButton::MBUTTON),
            0x05 => Some(KeyButton::XBUTTON1),
            0x06 => Some(KeyButton::XBUTTON2),
            0x08 => Some(KeyButton::BACK),
            0x09 => Some(KeyButton::TAB),
            0x0C => Some(KeyButton::CLEAR),
            0x0D => Some(KeyButton::RETURN),
            0x10 => Some(KeyButton::SHIFT),
            0x11 => Some(KeyButton::CONTROL),
            0x12 => Some(KeyButton::MENU),
            0x13 => Some(KeyButton::PAUSE),
            0x14 => Some(KeyButton::CAPITAL),
            0x15 => Some(KeyButton::KANA_HANGUL),
            0x16 => Some(KeyButton::IME_ON),
            0x17 => Some(KeyButton::JUNJA),
            0x18 => Some(KeyButton::FINAL),
            0x19 => Some(KeyButton::HANJA_KANJI),
            0x1A => Some(KeyButton::IME_OFF),
            0x1B => Some(KeyButton::ESCAPE),
            0x20 => Some(KeyButton::SPACE),
            0x41 => Some(KeyButton::A),
            0x42 => Some(KeyButton::B),
            0x43 => Some(KeyButton::C),
            0x44 => Some(KeyButton::D),
            0x45 => Some(KeyButton::E),
            0x46 => Some(KeyButton::F),
            0x47 => Some(KeyButton::G),
            0x48 => Some(KeyButton::H),
            0x49 => Some(KeyButton::I),
            0x4A => Some(KeyButton::J),
            0x4B => Some(KeyButton::K),
            0x4C => Some(KeyButton::L),
            0x4D => Some(KeyButton::M),
            0x4E => Some(KeyButton::N),
            0x4F => Some(KeyButton::O),
            0x50 => Some(KeyButton::P),
            0x51 => Some(KeyButton::Q),
            0x52 => Some(KeyButton::R),
            0x53 => Some(KeyButton::S),
            0x54 => Some(KeyButton::T),
            0x55 => Some(KeyButton::U),
            0x56 => Some(KeyButton::V),
            0x57 => Some(KeyButton::W),
            0x58 => Some(KeyButton::X),
            0x59 => Some(KeyButton::Y),
            0x5A => Some(KeyButton::Z),
            0xA0 => Some(KeyButton::LSHIFT),
            0xA1 => Some(KeyButton::RSHIFT),
            0xA2 => Some(KeyButton::LCONTROL),
            0xA3 => Some(KeyButton::RCONTROL),
            _ => None,
        }
    }

    /// The virtual-key code of this key.
    pub fn to_vk(self) -> (vk: u8)
        ensures
            vk == self.spec_vk(),
    {
        match self {
            KeyButton::LBUTTON => 0x01,
            KeyButton::RBUTTON => 0x02,
            KeyButton::MBUTTON => 0x04,
            KeyButton::XBUTTON1 => 0x05,
            KeyButton::XBUTTON2 => 0x06,
            KeyButton::BACK => 0x08,
            KeyButton::TAB => 0x09,
            KeyButton::CLEAR => 0x0C,
            KeyButton::RETURN => 0x0D,
            KeyButton::SHIFT => 0x10,
            KeyButton::CONTROL => 0x11,
            KeyButton::MENU => 0x12,
            KeyButton::PAUSE => 0x13,
            KeyButton::CAPITAL => 0x14,
            KeyButton::KANA_HANGUL => 0x15,
            KeyButton::IME_ON => 0x16,
            KeyButton::JUNJA => 0x17,
            KeyButton::FINAL => 0x18,
            KeyButton::HANJA_KANJI => 0x19,
            KeyButton::IME_OFF => 0x1A,
            KeyButton::ESCAPE => 0x1B,
            KeyButton::SPACE => 0x20,
            KeyButton::A => 0x41,
            KeyButton::B => 0x42,
            KeyButton::C => 0x43,
            KeyButton::D => 0x44,
            KeyButton::E => 0x45,
            KeyButton::F => 0x46,
            KeyButton::G => 0x47,
            KeyButton::H => 0x48,
            KeyButton::I => 0x49,
            KeyButton::J => 0x4A,
            KeyButton::K => 0x4B,
            KeyButton::L => 0x4C,
            KeyButton::M => 0x4D,
            KeyButton::N => 0x4E,
            KeyButton::O => 0x4F,
            KeyButton::P => 0x50,
            KeyButton::Q => 0x51,
            KeyButton::R => 0x52,
            KeyButton::S => 0x53,
            KeyButton::T => 0x54,
            KeyButton::U => 0x55,
            KeyButton::V => 0x56,
            KeyButton::W => 0x57,
            KeyButton::X => 0x58,
            KeyButton::Y => 0x59,
            KeyButton::Z => 0x5A,
            KeyButton::LSHIFT => 0xA0,
            KeyButton::RSHIFT => 0xA1,
            KeyButton::LCONTROL => 0xA2,
            KeyButton::RCONTROL => 0xA3,
        }
    }

    /// The name shown to the user for this key.
    pub fn name(self) -> (name: &'static str)
        ensures
            name@ == self.spec_name(),
    {
        match self {
            KeyButton::LBUTTON => "Left Click as key",
            KeyButton::RBUTTON => "Right Click as key",
            KeyButton::MBUTTON => "Middle Click as key",
            KeyButton::XBUTTON1 => "Mouse X1 as key",
            KeyButton::XBUTTON2 => "Mouse X2 as key",
            KeyButton::BACK => "Backspace",
            KeyButton::TAB => "Tab",
            KeyButton::CLEAR => "Clear",
            KeyButton::RETURN => "Enter",
            KeyButton::SHIFT => "Shift (ambidextrous)",
            KeyButton::CONTROL => "Ctrl (ambidextrous)",
            KeyButton::MENU => "Alt (ambidextrous)",
            KeyButton::PAUSE => "Pause",
            KeyButton::CAPITAL => "Caps Lock",
            KeyButton::KANA_HANGUL => "IME Kana/Hangul",
            KeyButton::IME_ON => "IME On",
            KeyButton::JUNJA => "IME Junja",
            KeyButton::FINAL => "IME Final",
            KeyButton::HANJA_KANJI => "IME Hanja/Kanji",
            KeyButton::IME_OFF => "IME Off",
            KeyButton::ESCAPE => "Escape",
            KeyButton::SPACE => "Space",
            KeyButton::A => "A",
            KeyButton::B => "B",
            KeyButton::C => "C",
            KeyButton::D => "D",
            KeyButton::E => "E",
            KeyButton::F => "F",
            KeyButton::G => "G",
            KeyButton::H => "H",
            KeyButton::I => "I",
            KeyButton::J => "J",
            KeyButton::K => "K",
            KeyButton::L => "L",
            KeyButton::M => "M",
            KeyButton::N => "N",
            KeyButton::O => "O",
            KeyButton::P => "P",
            KeyButton::Q => "Q",
            KeyButton::R => "R",
            KeyButton::S => "S",
            KeyButton::T => "T",
            KeyButton::U => "U",
            KeyButton::V => "V",
            KeyButton::W => "W",
            KeyButton::X => "X",
            KeyButton::Y => "Y",
            KeyButton::Z => "Z",
            KeyButton::LSHIFT => "Left Shift",
            KeyButton::RSHIFT => "Right Shift",
            KeyButton::LCONTROL => "Left Ctrl",
            KeyButton::RCONTROL => "Right Ctrl",
        }
    }

    /// The position of this key in declaration order.
    pub fn index(self) -> (i: usize)
        ensures
            i == self.spec_index(),
            i < KEY_BUTTON_COUNT,
    {
        match self {
            KeyButton::LBUTTON => 0,
            KeyButton::RBUTTON => 1,
            KeyButton::MBUTTON => 2,
            KeyButton::XBUTTON1 => 3,
            KeyButton::XBUTTON2 => 4,
            KeyButton::BACK => 5,
            KeyButton::TAB => 6,
            KeyButton::CLEAR => 7,
            KeyButton::RETURN => 8,
            KeyButton::SHIFT => 9,
            KeyButton::CONTROL => 10,
            KeyButton::MENU => 11,
            KeyButton::PAUSE => 12,
            KeyButton::CAPITAL => 13,
            KeyButton::KANA_HANGUL => 14,
            KeyButton::IME_ON => 15,
            KeyButton::JUNJA => 16,
            KeyButton::FINAL => 17,
            KeyButton::HANJA_KANJI => 18,
            KeyButton::IME_OFF => 19,
            KeyButton::ESCAPE => 20,
            KeyButton::SPACE => 21,
            KeyButton::A => 22,
            KeyButton::B => 23,
            KeyButton::C => 24,
            KeyButton::D => 25,
            KeyButton::E => 26,
            KeyButton::F => 27,
            KeyButton::G => 28,
            KeyButton::H => 29,
            KeyButton::I => 30,
            KeyButton::J => 31,
            KeyButton::K => 32,
            KeyButton::L => 33,
            KeyButton::M => 34,
            KeyButton::N => 35,
            KeyButton::O => 36,
            KeyButton::P => 37,
            KeyButton::Q => 38,
            KeyButton::R => 39,
            KeyButton::S => 40,
            KeyButton::T => 41,
            KeyButton::U => 42,
            KeyButton::V => 43,
            KeyButton::W => 44,
            KeyButton::X => 45,
            KeyButton::Y => 46,
            KeyButton::Z => 47,
            KeyButton::LSHIFT => 48,
            KeyButton::RSHIFT => 49,
            KeyButton::LCONTROL => 50,
            KeyButton::RCONTROL => 51,
        }
    }

    /// The key at position `i` in declaration order.
    pub fn from_index(i: usize) -> (key: Option<KeyButton>)
        ensures
            key == KeyButton::spec_from_index(i),
    {
        match i {
            0 => Some(KeyButton::LBUTTON),
            1 => Some(KeyButton::RBUTTON),
            2 => Some(KeyButton::MBUTTON),
            3 => Some(KeyButton::XBUTTON1),
            4 => Some(KeyButton::XBUTTON2),
            5 => Some(KeyButton::BACK),
            6 => Some(KeyButton::TAB),
            7 => Some(KeyButton::CLEAR),
            8 => Some(KeyButton::RETURN),
            9 => Some(KeyButton::SHIFT),
            10 => Some(KeyButton::CONTROL),
            11 => Some(KeyButton::MENU),
            12 => Some(KeyButton::PAUSE),
            13 => Some(KeyButton::CAPITAL),
            14 => Some(KeyButton::KANA_HANGUL),
            15 => Some(KeyButton::IME_ON),
            16 => Some(KeyButton::JUNJA),
            17 => Some(KeyButton::FINAL),
            18 => Some(KeyButton::HANJA_KANJI),
            19 => Some(KeyButton::IME_OFF),
            20 => Some(KeyButton::ESCAPE),
            21 => Some(KeyButton::SPACE),
            22 => Some(KeyButton::A),
            23 => Some(KeyButton::B),
            24 => Some(KeyButton::C),
            25 => Some(KeyButton::D),
            26 => Some(KeyButton::E),
            27 => Some(KeyButton::F),
            28 => Some(KeyButton::G),
            29 => Some(KeyButton::H),
            30 => Some(KeyButton::I),
            31 => Some(KeyButton::J),
            32 => Some(KeyButton::K),
            33 => Some(KeyButton::L),
            34 => Some(KeyButton::M),
            35 => Some(KeyButton::N),
            36 => Some(KeyButton::O),
            37 => Some(KeyButton::P),
            38 => Some(KeyButton::Q),
            39 => Some(KeyButton::R),
            40 => Some(KeyButton::S),
            41 => Some(KeyButton::T),
            42 => Some(KeyButton::U),
            43 => Some(KeyButton::V),
            44 => Some(KeyButton::W),
            45 => Some(KeyButton::X),
            46 => Some(KeyButton::Y),
            47 => Some(KeyButton::Z),
            48 => Some(KeyButton::LSHIFT),
            49 => Some(KeyButton::RSHIFT),
            50 => Some(KeyButton::LCONTROL),
            51 => Some(KeyButton::RCONTROL),
            _ => None,
        }
    }

    /// The input that presses this key.
    pub fn to_keydown_input(self) -> (input: InputRecord)
        ensures
            input == (InputRecord::Keyboard { vk: self.spec_vk(), key_up: false }),
    {
        InputRecord::Keyboard { vk: self.to_vk(), key_up: false }
    }

    /// The input that releases this key.
    pub fn to_keyup_input(self) -> (input: InputRecord)
        ensures
            input == (InputRecord::Keyboard { vk: self.spec_vk(), key_up: true }),
    {
        InputRecord::Keyboard { vk: self.to_vk(), key_up: true }
    }

    /// Every key, in declaration order.
    pub fn all() -> (keys: Vec<KeyButton>)
        ensures
            keys@.len() == KEY_BUTTON_COUNT,
            forall|i: usize|
                i < KEY_BUTTON_COUNT ==> KeyButton::spec_from_index(i) == Some(
                    #[trigger] keys@[i as int],
                ),
    {
        let mut keys: Vec<KeyButton> = Vec::new();
        let mut i: usize = 0;
        while i < KEY_BUTTON_COUNT
            invariant
                i <= KEY_BUTTON_COUNT,
                keys@.len() == i,
                forall|j: usize| j < i ==> KeyButton::spec_from_index(j) == Some(#[trigger] keys@[j as int]),
            decreases KEY_BUTTON_COUNT - i,
        {
            proof {
                lemma_from_index_in_range(i);
            }
            let key = KeyButton::from_index(i).unwrap();
            keys.push(key);
            i = i + 1;
        }
        keys
    }
}

/// Every index below `KEY_BUTTON_COUNT` names a key.
pub proof fn lemma_from_index_in_range(i: usize)
    requires
        i < KEY_BUTTON_COUNT,
    ensures
        KeyButton::spec_from_index(i) is Some,
{
}

/// Going from a key to its virtual-key code and back gives the same key.
pub proof fn lemma_vk_roundtrip(key: KeyButton)
    ensures
        KeyButton::spec_from_vk(key.spec_vk()) == Some(key),
{
}

/// A code that names a key is that key's virtual-key code.
pub proof fn lemma_from_vk_inverse(vk: u8)
    ensures
        KeyButton::spec_from_vk(vk) matches Some(key) ==> key.spec_vk() == vk,
{
}

/// The index of a key names that key, and indices are below `KEY_BUTTON_COUNT`.
pub proof fn lemma_index_roundtrip(key: KeyButton)
    ensures
        key.spec_index() < KEY_BUTTON_COUNT,
        KeyButton::spec_from_index(key.spec_index()) == Some(key),
{
}

/// Keys with the same index are the same key.
pub proof fn lemma_index_injective(a: KeyButton, b: KeyButton)
    ensures
        a.spec_index() == b.spec_index() ==> a == b,
{
    lemma_index_roundtrip(a);
    lemma_index_roundtrip(b);
}

/// Every key's virtual-key code is the Windows `VK_` constant the key is named after: the
/// mouse buttons as keys from 0x01, the letters A to Z at 0x41 to 0x5A in alphabetical order,
/// the left and right Shift and Ctrl keys at 0xA0 to 0xA3, and so on.
pub proof fn lemma_windows_vk_codes()
    ensures
        KeyButton::LBUTTON.spec_vk() == 0x01,
        KeyButton::RBUTTON.spec_vk() == 0x02,
        KeyButton::MBUTTON.spec_vk() == 0x04,
        KeyButton::XBUTTON1.spec_vk() == 0x05,
        KeyButton::XBUTTON2.spec_vk() == 0x06,
        KeyButton::BACK.spec_vk() == 0x08,
        KeyButton::TAB.spec_vk() == 0x09,
        KeyButton::CLEAR.spec_vk() == 0x0C,
        KeyButton::RETURN.spec_vk() == 0x0D,
        KeyButton::SHIFT.spec_vk() == 0x10,
        KeyButton::CONTROL.spec_vk() == 0x11,
        KeyButton::MENU.spec_vk() == 0x12,
        KeyButton::PAUSE.spec_vk() == 0x13,
        KeyButton::CAPITAL.spec_vk() == 0x14,
        KeyButton::KANA_HANGUL.spec_vk() == 0x15,
        KeyButton::IME_ON.spec_vk() == 0x16,
        KeyButton::JUNJA.spec_vk() == 0x17,
        KeyButton::FINAL.spec_vk() == 0x18,
        KeyButton::HANJA_KANJI.spec_vk() == 0x19,
        KeyButton::IME_OFF.spec_vk() == 0x1A,
        KeyButton::ESCAPE.spec_vk() == 0x1B,
        KeyButton::SPACE.spec_vk() == 0x20,
        KeyButton::A.spec_vk() == 0x41,
        KeyButton::B.spec_vk() == 0x42,
        KeyButton::C.spec_vk() == 0x43,
        KeyButton::D.spec_vk() == 0x44,
        KeyButton::E.spec_vk() == 0x45,
        KeyButton::F.spec_vk() == 0x46,
        KeyButton::G.spec_vk() == 0x47,
        KeyButton::H.spec_vk() == 0x48,
        KeyButton::I.spec_vk() == 0x49,
        KeyButton::J.spec_vk() == 0x4A,
        KeyButton::K.spec_vk() == 0x4B,
        KeyButton::L.spec_vk() == 0x4C,
        KeyButton::M.spec_vk() == 0x4D,
        KeyButton::N.spec_vk() == 0x4E,
        KeyButton::O.spec_vk() == 0x4F,
        KeyButton::P.spec_vk() == 0x50,
        KeyButton::Q.spec_vk() == 0x51,
        KeyButton::R.spec_vk() == 0x52,
        KeyButton::S.spec_vk() == 0x53,
        KeyButton::T.spec_vk() == 0x54,
        KeyButton::U.spec_vk() == 0x55,
        KeyButton::V.spec_vk() == 0x56,
        KeyButton::W.spec_vk() == 0x57,
        KeyButton::X.spec_vk() == 0x58,
        KeyButton::Y.spec_vk() == 0x59,
        KeyButton::Z.spec_vk() == 0x5A,
        KeyButton::LSHIFT.spec_vk() == 0xA0,
        KeyButton::RSHIFT.spec_vk() == 0xA1,
        KeyButton::LCONTROL.spec_vk() == 0xA2,
        KeyButton::RCONTROL.spec_vk() == 0xA3,
{
}

/// Every key's label is the one Reemap shows for it: "Left Shift" for the left Shift key,
/// "Right Shift" for the right one, the letter itself for a letter key, and so on.
pub proof fn lemma_key_labels()
    ensures
        KeyButton::LBUTTON.spec_name() == "Left Click as key"@,
        KeyButton::RBUTTON.spec_name() == "Right Click as key"@,
        KeyButton::MBUTTON.spec_name() == "Middle Click as key"@,
        KeyButton::XBUTTON1.spec_name() == "Mouse X1 as key"@,
        KeyButton::XBUTTON2.spec_name() == "Mouse X2 as key"@,
        KeyButton::BACK.spec_name() == "Backspace"@,
        KeyButton::TAB.spec_name() == "Tab"@,
        KeyButton::CLEAR.spec_name() == "Clear"@,
        KeyButton::RETURN.spec_name() == "Enter"@,
        KeyButton::SHIFT.spec_name() == "Shift (ambidextrous)"@,
        KeyButton::CONTROL.spec_name() == "Ctrl (ambidextrous)"@,
        KeyButton::MENU.spec_name() == "Alt (ambidextrous)"@,
        KeyButton::PAUSE.spec_name() == "Pause"@,
        KeyButton::CAPITAL.spec_name() == "Caps Lock"@,
        KeyButton::KANA_HANGUL.spec_name() == "IME Kana/Hangul"@,
        KeyButton::IME_ON.spec_name() == "IME On"@,
        KeyButton::JUNJA.spec_name() == "IME Junja"@,
        KeyButton::FINAL.spec_name() == "IME Final"@,
        KeyButton::HANJA_KANJI.spec_name() == "IME Hanja/Kanji"@,
        KeyButton::IME_OFF.spec_name() == "IME Off"@,
        KeyButton::ESCAPE.spec_name() == "Escape"@,
        KeyButton::SPACE.spec_name() == "Space"@,
        KeyButton::A.spec_name() == "A"@,
        KeyButton::B.spec_name() == "B"@,
        KeyButton::C.spec_name() == "C"@,
        KeyButton::D.spec_name() == "D"@,
        KeyButton::E.spec_name() == "E"@,
        KeyButton::F.spec_name() == "F"@,
        KeyButton::G.spec_name() == "G"@,
        KeyButton::H.spec_name() == "H"@,
        KeyButton::I.spec_name() == "I"@,
        KeyButton::J.spec_name() == "J"@,
        KeyButton::K.spec_name() == "K"@,
        KeyButton::L.spec_name() == "L"@,
        KeyButton::M.spec_name() == "M"@,
        KeyButton::N.spec_name() == "N"@,
        KeyButton::O.spec_name() == "O"@,
        KeyButton::P.spec_name() == "P"@,
        KeyButton::Q.spec_name() == "Q"@,
        KeyButton::R.spec_name() == "R"@,
        KeyButton::S.spec_name() == "S"@,
        KeyButton::T.spec_name() == "T"@,
        KeyButton::U.spec_name() == "U"@,
        KeyButton::V.spec_name() == "V"@,
        KeyButton::W.spec_name() == "W"@,
        KeyButton::X.spec_name() == "X"@,
        KeyButton::Y.spec_name() == "Y"@,
        KeyButton::Z.spec_name() == "Z"@,
        KeyButton::LSHIFT.spec_name() == "Left Shift"@,
        KeyButton::RSHIFT.spec_name() == "Right Shift"@,
        KeyButton::LCONTROL.spec_name() == "Left Ctrl"@,
        KeyButton::RCONTROL.spec_name() == "Right Ctrl"@,
{
}

/// A letter key is labelled with the letter its virtual-key code stands for: the code and
/// the label always name the same key.
pub proof fn lemma_letter_label_is_its_code(key: KeyButton)
    requires
        0x41 <= key.spec_vk() <= 0x5A,
    ensures
        key.spec_name() == seq![key.spec_vk() as char],
{
    reveal_strlit("A");
    reveal_strlit("B");
    reveal_strlit("C");
    reveal_strlit("D");
    reveal_strlit("E");
    reveal_strlit("F");
    reveal_strlit("G");
    reveal_strlit("H");
    reveal_strlit("I");
    reveal_strlit("J");
    reveal_strlit("K");
    reveal_strlit("L");
    reveal_strlit("M");
    reveal_strlit("N");
    reveal_strlit("O");
    reveal_strlit("P");
    reveal_strlit("Q");
    reveal_strlit("R");
    reveal_strlit("S");
    reveal_strlit("T");
    reveal_strlit("U");
    reveal_strlit("V");
    reveal_strlit("W");
    reveal_strlit("X");
    reveal_strlit("Y");
    reveal_strlit("Z");
    assert(key.spec_name() =~= seq![key.spec_vk() as char]);
}

} // verus!
