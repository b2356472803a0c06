use vstd::prelude::*;

verus! {

/// Mouse buttons as the host reports them.
#[derive(Debug, Clone, Copy, PartialEq, Eq, Structural)]
pub enum MouseButton {
    Left,
    Middle,
    Right,
    Unknown,
}

impl MouseButton {
    /// The host's number for this button; `Unknown` stands for every other number.
    pub open spec fn code_spec(self) -> u32 {
        match self {
            MouseButton::Left => 0,
            MouseButton::Middle => 1,
            MouseButton::Right => 2,
            MouseButton::Unknown => 255,
        }
    }

    /// The host's number for this button.
    pub fn code(self) -> (r: u32)
        ensures
            r == self.code_spec(),
    {
        match self {
            MouseButton::Left => 0,
            MouseButton::Middle => 1,
            MouseButton::Right => 2,
            MouseButton::Unknown => 255,
        }
    }

    /// The button that the host's number `code` denotes.
    pub open spec fn from_code(code: u32) -> MouseButton {
        if code == 0 {
            MouseButton::Left
        } else if code == 1 {
            MouseButton::Middle
        } else if code == 2 {
            MouseButton::Right
        } else {
            MouseButton::Unknown
        }
    }
}

impl From<u32> for MouseButton {
    fn from(button: u32) -> (r: MouseButton) {
        match button {
            0 => MouseButton::Left,
            1 => MouseButton::Middle,
            2 => MouseButton::Right,
            _ => MouseButton::Unknown,
        }
    }
}

impl vstd::std_specs::convert::FromSpecImpl<u32> for MouseButton {
    open spec fn obeys_from_spec() -> bool {
        true
    }

    open spec fn from_spec(v: u32) -> MouseButton {
        MouseButton::from_code(v)
    }
}


/// Keyboard keys as the host reports them.
#[derive(Debug, Clone, Copy, PartialEq, Eq, Structural)]
pub enum KeyCode {
    Key0,
    Key1,
    Key2,
    Key3,
    Key4,
    Key5,
    Key6,
    Key7,
    Key8,
    Key9,
    A,
    B,
    C,
    D,
    E,
    F,
    G,
    H,
    I,
    J,
    K,
    L,
    M,
    N,
    O,
    P,
    Q,
    R,
    S,
    T,
    U,
    V,
    W,
    X,
    Y,
    Z,
    ArrowLeft,
    ArrowUp,
    ArrowRight,
    ArrowDown,
    Space,
    Enter,
    Escape,
    Tab,
    Shift,
    Ctrl,
    Alt,
    Minus,
    Equal,
    Unknown,
}

impl KeyCode {
    /// The host's key code for this key; `Unknown` stands for every other code.
    pub open spec fn code_spec(self) -> u32 {
        match self {
            KeyCode::Key0 => 48,
            KeyCode::Key1 => 49,
            KeyCode::Key2 => 50,
            KeyCode::Key3 => 51,
            KeyCode::Key4 => 52,
            KeyCode::Key5 => 53,
            KeyCode::Key6 => 54,
            KeyCode::Key7 => 55,
            KeyCode::Key8 => 56,
            KeyCode::Key9 => 57,
            KeyCode::A => 65,
            KeyCode::B => 66,
            KeyCode::C => 67,
            KeyCode::D => 68,
            KeyCode::E => 69,
            KeyCode::F => 70,
            KeyCode::G => 71,
            KeyCode::H => 72,
            KeyCode::I => 73,
            KeyCode::J => 74,
            KeyCode::K => 75,
            KeyCode::L => 76,
            KeyCode::M => 77,
            KeyCode::N => 78,
            KeyCode::O => 79,
            KeyCode::P => 80,
            KeyCode::Q => 81,
            KeyCode::R => 82,
            KeyCode::S => 83,
            KeyCode::T => 84,
            KeyCode::U => 85,
            KeyCode::V => 86,
            KeyCode::W => 87,
            KeyCode::X => 88,
            KeyCode::Y => 89,
            KeyCode::Z => 90,
            KeyCode::ArrowLeft => 37,
            KeyCode::ArrowUp => 38,
            KeyCode::ArrowRight => 39,
            KeyCode::ArrowDown => 40,
            KeyCode::Space => 32,
            KeyCode::Enter => 13,
            KeyCode::Escape => 27,
            KeyCode::Tab => 9,
            KeyCode::Shift => 16,
            KeyCode::Ctrl => 17,
            KeyCode::Alt => 18,
            KeyCode::Minus => 189,
            KeyCode::Equal => 187,
            KeyCode::Unknown => 65535,
        }
    }

    /// The host's key code for this key.
    pub fn code(self) -> (r: u32)
        ensures
            r == self.code_spec(),
    {
        match self {
            KeyCode::Key0 => 48,
            KeyCode::Key1 => 49,
            KeyCode::Key2 => 50,
            KeyCode::Key3 => 51,
            KeyCode::Key4 => 52,
            KeyCode::Key5 => 53,
            KeyCode::Key6 => 54,
            KeyCode::Key7 => 55,
            KeyCode::Key8 => 56,
            KeyCode::Key9 => 57,
            KeyCode::A => 65,
            KeyCode::B => 66,
            KeyCode::C => 67,
            KeyCode::D => 68,
            KeyCode::E => 69,
            KeyCode::F => 70,
            KeyCode::G => 71,
            KeyCode::H => 72,
            KeyCode::I => 73,
            KeyCode::J => 74,
            KeyCode::K => 75,
            KeyCode::L => 76,
            KeyCode::M => 77,
            KeyCode::N => 78,
            KeyCode::O => 79,
            KeyCode::P => 80,
            KeyCode::Q => 81,
            KeyCode::R => 82,
            KeyCode::S => 83,
            KeyCode::T => 84,
            KeyCode::U => 85,
            KeyCode::V => 86,
            KeyCode::W => 87,
            KeyCode::X => 88,
            KeyCode::Y => 89,
            KeyCode::Z => 90,
            KeyCode::ArrowLeft => 37,
            KeyCode::ArrowUp => 38,
            KeyCode::ArrowRight => 39,
            KeyCode::ArrowDown => 40,
            KeyCode::Space => 32,
            KeyCode::Enter => 13,
            KeyCode::Escape => 27,
            KeyCode::Tab => 9,
            KeyCode::Shift => 16,
            KeyCode::Ctrl => 17,
            KeyCode::Alt => 18,
            KeyCode::Minus => 189,
            KeyCode::Equal => 187,
            KeyCode::Unknown => 65535,
        }
    }

    /// The key that the host's key code `code` denotes.
    pub open spec fn from_code(code: u32) -> KeyCode {
        match code {
            48 => KeyCode::Key0,
            49 => KeyCode::Key1,
            50 => KeyCode::Key2,
            51 => KeyCode::Key3,
            52 => KeyCode::Key4,
            53 => KeyCode::Key5,
            54 => KeyCode::Key6,
            55 => KeyCode::Key7,
            56 => KeyCode::Key8,
            57 => KeyCode::Key9,
            65 => KeyCode::A,
            66 => KeyCode::B,
            67 => KeyCode::C,
            68 => KeyCode::D,
            69 => KeyCode::E,
            70 => KeyCode::F,
            71 => KeyCode::G,
            72 => KeyCode::H,
            73 => KeyCode::I,
            74 => KeyCode::J,
            75 => KeyCode::K,
            76 => KeyCode::L,
            77 => KeyCode::M,
            78 => KeyCode::N,
            79 => KeyCode::O,
            80 => KeyCode::P,
            81 => KeyCode::Q,
            82 => KeyCode::R,
            83 => KeyCode::S,
            84 => KeyCode::T,
            85 => KeyCode::U,
            86 => KeyCode::V,
            87 => KeyCode::W,
            88 => KeyCode::X,
            89 => KeyCode::Y,
            90 => KeyCode::Z,
            37 => KeyCode::ArrowLeft,
            38 => KeyCode::ArrowUp,
            39 => KeyCode::ArrowRight,
            40 => KeyCode::ArrowDown,
            32 => KeyCode::Space,
            13 => KeyCode::Enter,
            27 => KeyCode::Escape,
            9 => KeyCode::Tab,
            16 => KeyCode::Shift,
            17 => KeyCode::Ctrl,
            18 => KeyCode::Alt,
            189 => KeyCode::Minus,
            187 => KeyCode::Equal,
            _ => KeyCode::Unknown,
        }
    }
}

impl From<u32> for KeyCode {
    fn from(code: u32) -> (r: KeyCode) {
        match code {
            48 => KeyCode::Key0,
            49 => KeyCode::Key1,
            50 => KeyCode::Key2,
            51 => KeyCode::Key3,
            52 => KeyCode::Key4,
            53 => KeyCode::Key5,
            54 => KeyCode::Key6,
            55 => KeyCode::Key7,
            56 => KeyCode::Key8,
            57 => KeyCode::Key9,
            65 => KeyCode::A,
            66 => KeyCode::B,
            67 => KeyCode::C,
            68 => KeyCode::D,
            69 => KeyCode::E,
            70 => KeyCode::F,
            71 => KeyCode::G,
            72 => KeyCode::H,
            73 => KeyCode::I,
            74 => KeyCode::J,
            75 => KeyCode::K,
            76 => KeyCode::L,
            77 => KeyCode::M,
            78 => KeyCode::N,
            79 => KeyCode::O,
            80 => KeyCode::P,
            81 => KeyCode::Q,
            82 => KeyCode::R,
            83 => KeyCode::S,
            84 => KeyCode::T,
            85 => KeyCode::U,
            86 => KeyCode::V,
            87 => KeyCode::W,
            88 => KeyCode::X,
            89 => KeyCode::Y,
            90 => KeyCode::Z,
            37 => KeyCode::ArrowLeft,
            38 => KeyCode::ArrowUp,
            39 => KeyCode::ArrowRight,
            40 => KeyCode::ArrowDown,
            32 => KeyCode::Space,
            13 => KeyCode::Enter,
            27 => KeyCode::Escape,
            9 => KeyCode::Tab,
            16 => KeyCode::Shift,
            17 => KeyCode::Ctrl,
            18 => KeyCode::Alt,
            189 => KeyCode::Minus,
            187 => KeyCode::Equal,
            _ => KeyCode::Unknown,
        }
    }
}

impl vstd::std_specs::convert::FromSpecImpl<u32> for KeyCode {
    open spec fn obeys_from_spec() -> bool {
        true
    }

    open spec fn from_spec(v: u32) -> KeyCode {
        KeyCode::from_code(v)
    }
}

/// Decoding is the inverse of `code`: every button comes back from its own number,
/// and a number that decodes to a known button is that button's number.
pub proof fn lemma_button_codes_round_trip(b: MouseButton, code: u32)
    ensures
        MouseButton::from_code(b.code_spec()) == b,
        MouseButton::from_code(code) != MouseButton::Unknown ==> MouseButton::from_code(
            code,
        ).code_spec() == code,
{
}

/// Decoding is the inverse of `code`: every key comes back from its own code,
/// and a code that decodes to a known key is that key's code.
pub proof fn lemma_key_codes_round_trip(k: KeyCode, code: u32)
    ensures
        KeyCode::from_code(k.code_spec()) == k,
        KeyCode::from_code(code) != KeyCode::Unknown ==> KeyCode::from_code(code).code_spec()
            == code,
{
}

} // verus!
