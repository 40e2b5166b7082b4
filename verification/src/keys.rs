//! Keyboard keys and the tables that translate platform key codes into them.
use vstd::prelude::*;
use vstd::std_specs::convert::FromSpecImpl;

verus! {

/// A keyboard key, independent of the platform that reported it.
#[derive(Clone, Copy, Debug, PartialEq, Eq, Structural)]
pub enum Key {
    Backspace,
    Enter,
    Tab,
    Shift,
    Control,
    Pause,
    Capital,
    Escape,
    Convert,
    NonConvert,
    Accept,
    ModeChange,
    Space,
    Prior,
    Next,
    End,
    Home,
    Left,
    Up,
    Right,
    Down,
    Select,
    Print,
    Execute,
    Snapshot,
    Insert,
    Delete,
    Help,
    A,
    B,
    C,
    D,
    E,
    F,
    G,
    H,
    I,
    J,
    K,
    L,
    M,
    N,
    O,
    P,
    Q,
    R,
    S,
    T,
    U,
    V,
    W,
    X,
    Y,
    Z,
    N0,
    N1,
    N2,
    N3,
    N4,
    N5,
    N6,
    N7,
    N8,
    N9,
    Lwin,
    Rwin,
    Apps,
    Sleep,
    Numpad0,
    Numpad1,
    Numpad2,
    Numpad3,
    Numpad4,
    Numpad5,
    Numpad6,
    Numpad7,
    Numpad8,
    Numpad9,
    Multiply,
    Add,
    Separator,
    Subtract,
    Decimal,
    Divide,
    F1,
    F2,
    F3,
    F4,
    F5,
    F6,
    F7,
    F8,
    F9,
    F10,
    F11,
    F12,
    F13,
    F14,
    F15,
    F16,
    F17,
    F18,
    F19,
    F20,
    F21,
    F22,
    F23,
    F24,
    Numlock,
    ScrollLock,
    NumpadEqual,
    LShift,
    RShift,
    LControl,
    RControl,
    LAlt,
    RAlt,
    Semicolon,
    Plus,
    Comma,
    Minus,
    Period,
    Slash,
    Grave,
    NoKey,
}

/// The key that an X11 keysym stands for: the table that the X11 backend
/// applies to the keysym of a key press or release.  Upper and lower case
/// letters stand for the same key; a keysym outside the table is `Key::NoKey`.
pub open spec fn x11_keysym_key(keysym: u32) -> Key {
    match keysym {
        0xFF08u32 => Key::Backspace,
        0xFF0Du32 => Key::Enter,
        0xFF09u32 => Key::Tab,
        0xFF13u32 => Key::Pause,
        0xFFE5u32 => Key::Capital,
        0xFF1Bu32 => Key::Escape,
        0xFF7Eu32 => Key::ModeChange,
        0x0020u32 => Key::Space,
        0xFF55u32 => Key::Prior,
        0xFF56u32 => Key::Next,
        0xFF57u32 => Key::End,
        0xFF50u32 => Key::Home,
        0xFF51u32 => Key::Left,
        0xFF52u32 => Key::Up,
        0xFF53u32 => Key::Right,
        0xFF54u32 => Key::Down,
        0xFF60u32 => Key::Select,
        0xFF61u32 => Key::Print,
        0xFF62u32 => Key::Execute,
        0xFF63u32 => Key::Insert,
        0xFFFFu32 => Key::Delete,
        0xFF6Au32 => Key::Help,
        0xFFE7u32 => Key::Lwin,
        0xFFE8u32 => Key::Rwin,
        0xFFB0u32 => Key::Numpad0,
        0xFFB1u32 => Key::Numpad1,
        0xFFB2u32 => Key::Numpad2,
        0xFFB3u32 => Key::Numpad3,
        0xFFB4u32 => Key::Numpad4,
        0xFFB5u32 => Key::Numpad5,
        0xFFB6u32 => Key::Numpad6,
        0xFFB7u32 => Key::Numpad7,
        0xFFB8u32 => Key::Numpad8,
        0xFFB9u32 => Key::Numpad9,
        0x00D7u32 => Key::Multiply,
        0xFFABu32 => Key::Add,
        0xFFACu32 => Key::Separator,
        0xFFADu32 => Key::Subtract,
        0xFFAEu32 => Key::Decimal,
        0xFFAFu32 => Key::Divide,
        0xFFBEu32 => Key::F1,
        0xFFBFu32 => Key::F2,
        0xFFC0u32 => Key::F3,
        0xFFC1u32 => Key::F4,
        0xFFC2u32 => Key::F5,
        0xFFC3u32 => Key::F6,
        0xFFC4u32 => Key::F7,
        0xFFC5u32 => Key::F8,
        0xFFC6u32 => Key::F9,
        0xFFC7u32 => Key::F10,
        0xFFC8u32 => Key::F11,
        0xFFC9u32 => Key::F12,
        0xFFCAu32 => Key::F13,
        0xFFCBu32 => Key::F14,
        0xFFCCu32 => Key::F15,
        0xFFCDu32 => Key::F16,
        0xFFCEu32 => Key::F17,
        0xFFCFu32 => Key::F18,
        0xFFD0u32 => Key::F19,
        0xFFD1u32 => Key::F20,
        0xFFD2u32 => Key::F21,
        0xFFD3u32 => Key::F22,
        0xFFD4u32 => Key::F23,
        0xFFD5u32 => Key::F24,
        0xFF7Fu32 => Key::Numlock,
        0xFF14u32 => Key::ScrollLock,
        0xFFBDu32 => Key::NumpadEqual,
        0xFFE1u32 => Key::LShift,
        0xFFE2u32 => Key::RShift,
        0xFFE3u32 => Key::LControl,
        0xFFE4u32 => Key::RControl,
        0xFFE9u32 => Key::LAlt,
        0xFFEAu32 => Key::RAlt,
        0x003Bu32 => Key::Semicolon,
        0x002Bu32 => Key::Plus,
        0x002Cu32 => Key::Comma,
        0x002Du32 => Key::Minus,
        0x002Eu32 => Key::Period,
        0x002Fu32 => Key::Slash,
        0x0060u32 => Key::Grave,
        0x0061u32 | 0x0041u32 => Key::A,
        0x0062u32 | 0x0042u32 => Key::B,
        0x0063u32 | 0x0043u32 => Key::C,
        0x0064u32 | 0x0044u32 => Key::D,
        0x0065u32 | 0x0045u32 => Key::E,
        0x0066u32 | 0x0046u32 => Key::F,
        0x0067u32 | 0x0047u32 => Key::G,
        0x0068u32 | 0x0048u32 => Key::H,
        0x0069u32 | 0x0049u32 => Key::I,
        0x006Au32 | 0x004Au32 => Key::J,
        0x006Bu32 | 0x004Bu32 => Key::K,
        0x006Cu32 | 0x004Cu32 => Key::L,
        0x006Du32 | 0x004Du32 => Key::M,
        0x006Eu32 | 0x004Eu32 => Key::N,
        0x006Fu32 | 0x004Fu32 => Key::O,
        0x0070u32 | 0x0050u32 => Key::P,
        0x0071u32 | 0x0051u32 => Key::Q,
        0x0072u32 | 0x0052u32 => Key::R,
        0x0073u32 | 0x0053u32 => Key::S,
        0x0074u32 | 0x0054u32 => Key::T,
        0x0075u32 | 0x0055u32 => Key::U,
        0x0076u32 | 0x0056u32 => Key::V,
        0x0077u32 | 0x0057u32 => Key::W,
        0x0078u32 | 0x0058u32 => Key::X,
        0x0079u32 | 0x0059u32 => Key::Y,
        0x007Au32 | 0x005Au32 => Key::Z,
        _ => Key::NoKey,
    }
}

/// The key that a Win32 virtual-key code stands for: the table that the
/// Win32 backend applies to the low 16 bits of a key message's `wParam`.
pub open spec fn virtual_key_key(code: u16) -> Key {
    match code {
        0x0008u16 => Key::Backspace,
        0x000Du16 => Key::Enter,
        0x0009u16 => Key::Tab,
        0x0010u16 => Key::Shift,
        0x0011u16 => Key::Control,
        0x0013u16 => Key::Pause,
        0x0014u16 => Key::Capital,
        0x001Bu16 => Key::Escape,
        0x001Cu16 => Key::Convert,
        0x001Du16 => Key::NonConvert,
        0x001Eu16 => Key::Accept,
        0x001Fu16 => Key::ModeChange,
        0x0020u16 => Key::Space,
        0x0021u16 => Key::Prior,
        0x0022u16 => Key::Next,
        0x0023u16 => Key::End,
        0x0024u16 => Key::Home,
        0x0025u16 => Key::Left,
        0x0026u16 => Key::Up,
        0x0027u16 => Key::Right,
        0x0028u16 => Key::Down,
        0x0029u16 => Key::Select,
        0x002Au16 => Key::Print,
        0x002Bu16 => Key::Execute,
        0x002Cu16 => Key::Snapshot,
        0x002Du16 => Key::Insert,
        0x002Eu16 => Key::Delete,
        0x002Fu16 => Key::Help,
        0x0041u16 => Key::A,
        0x0042u16 => Key::B,
        0x0043u16 => Key::C,
        0x0044u16 => Key::D,
        0x0045u16 => Key::E,
        0x0046u16 => Key::F,
        0x0047u16 => Key::G,
        0x0048u16 => Key::H,
        0x0049u16 => Key::I,
        0x004Au16 => Key::J,
        0x004Bu16 => Key::K,
        0x004Cu16 => Key::L,
        0x004Du16 => Key::M,
        0x004Eu16 => Key::N,
        0x004Fu16 => Key::O,
        0x0050u16 => Key::P,
        0x0051u16 => Key::Q,
        0x0052u16 => Key::R,
        0x0053u16 => Key::S,
        0x0054u16 => Key::T,
        0x0055u16 => Key::U,
        0x0056u16 => Key::V,
        0x0057u16 => Key::W,
        0x0058u16 => Key::X,
        0x0059u16 => Key::Y,
        0x005Au16 => Key::Z,
        0x0030u16 => Key::N0,
        0x0031u16 => Key::N1,
        0x0032u16 => Key::N2,
        0x0033u16 => Key::N3,
        0x0034u16 => Key::N4,
        0x0035u16 => Key::N5,
        0x0036u16 => Key::N6,
        0x0037u16 => Key::N7,
        0x0038u16 => Key::N8,
        0x0039u16 => Key::N9,
        0x005Bu16 => Key::Lwin,
        0x005Cu16 => Key::Rwin,
        0x005Du16 => Key::Apps,
        0x005Fu16 => Key::Sleep,
        0x0060u16 => Key::Numpad0,
        0x0061u16 => Key::Numpad1,
        0x0062u16 => Key::Numpad2,
        0x0063u16 => Key::Numpad3,
        0x0064u16 => Key::Numpad4,
        0x0065u16 => Key::Numpad5,
        0x0066u16 => Key::Numpad6,
        0x0067u16 => Key::Numpad7,
        0x0068u16 => Key::Numpad8,
        0x0069u16 => Key::Numpad9,
        0x006Au16 => Key::Multiply,
        0x006Bu16 => Key::Add,
        0x006Cu16 => Key::Separator,
        0x006Du16 => Key::Subtract,
        0x006Eu16 => Key::Decimal,
        0x006Fu16 => Key::Divide,
        0x0070u16 => Key::F1,
        0x0071u16 => Key::F2,
        0x0072u16 => Key::F3,
        0x0073u16 => Key::F4,
        0x0074u16 => Key::F5,
        0x0075u16 => Key::F6,
        0x0076u16 => Key::F7,
        0x0077u16 => Key::F8,
        0x0078u16 => Key::F9,
        0x0079u16 => Key::F10,
        0x007Au16 => Key::F11,
        0x007Bu16 => Key::F12,
        0x007Cu16 => Key::F13,
        0x007Du16 => Key::F14,
        0x007Eu16 => Key::F15,
        0x007Fu16 => Key::F16,
        0x0080u16 => Key::F17,
        0x0081u16 => Key::F18,
        0x0082u16 => Key::F19,
        0x0083u16 => Key::F20,
        0x0084u16 => Key::F21,
        0x0085u16 => Key::F22,
        0x0086u16 => Key::F23,
        0x0087u16 => Key::F24,
        0x0090u16 => Key::Numlock,
        0x0091u16 => Key::ScrollLock,
        0x0092u16 => Key::NumpadEqual,
        0x00A0u16 => Key::LShift,
        0x00A1u16 => Key::RShift,
        0x00A2u16 => Key::LControl,
        0x00A3u16 => Key::RControl,
        0x00A4u16 => Key::LAlt,
        0x00A5u16 => Key::RAlt,
        0x00BAu16 => Key::Semicolon,
        0x00BBu16 => Key::Plus,
        0x00BCu16 => Key::Comma,
        0x00BDu16 => Key::Minus,
        0x00BEu16 => Key::Period,
        0x00BFu16 => Key::Slash,
        0x00C0u16 => Key::Grave,
        _ => Key::NoKey,
    }
}

/// Translates an X11 keysym into a `Key`.
impl From<u32> for Key {
    fn from(val: u32) -> (key: Key) {
        match val {
            0xFF08 => Key::Backspace, // XK_BackSpace
            0xFF0D => Key::Enter, // XK_Return
            0xFF09 => Key::Tab, // XK_Tab
            0xFF13 => Key::Pause, // XK_Pause
            0xFFE5 => Key::Capital, // XK_Caps_Lock
            0xFF1B => Key::Escape, // XK_Escape
            0xFF7E => Key::ModeChange, // XK_Mode_switch
            0x0020 => Key::Space, // XK_space
            0xFF55 => Key::Prior, // XK_Prior
            0xFF56 => Key::Next, // XK_Next
            0xFF57 => Key::End, // XK_End
            0xFF50 => Key::Home, // XK_Home
            0xFF51 => Key::Left, // XK_Left
            0xFF52 => Key::Up, // XK_Up
            0xFF53 => Key::Right, // XK_Right
            0xFF54 => Key::Down, // XK_Down
            0xFF60 => Key::Select, // XK_Select
            0xFF61 => Key::Print, // XK_Print
            0xFF62 => Key::Execute, // XK_Execute
            0xFF63 => Key::Insert, // XK_Insert
            0xFFFF => Key::Delete, // XK_Delete
            0xFF6A => Key::Help, // XK_Help
            0xFFE7 => Key::Lwin, // XK_Meta_L
            0xFFE8 => Key::Rwin, // XK_Meta_R
            0xFFB0 => Key::Numpad0, // XK_KP_0
            0xFFB1 => Key::Numpad1, // XK_KP_1
            0xFFB2 => Key::Numpad2, // XK_KP_2
            0xFFB3 => Key::Numpad3, // XK_KP_3
            0xFFB4 => Key::Numpad4, // XK_KP_4
            0xFFB5 => Key::Numpad5, // XK_KP_5
            0xFFB6 => Key::Numpad6, // XK_KP_6
            0xFFB7 => Key::Numpad7, // XK_KP_7
            0xFFB8 => Key::Numpad8, // XK_KP_8
            0xFFB9 => Key::Numpad9, // XK_KP_9
            0x00D7 => Key::Multiply, // XK_multiply
            0xFFAB => Key::Add, // XK_KP_Add
            0xFFAC => Key::Separator, // XK_KP_Separator
            0xFFAD => Key::Subtract, // XK_KP_Subtract
            0xFFAE => Key::Decimal, // XK_KP_Decimal
            0xFFAF => Key::Divide, // XK_KP_Divide
            0xFFBE => Key::F1, // XK_F1
            0xFFBF => Key::F2, // XK_F2
            0xFFC0 => Key::F3, // XK_F3
            0xFFC1 => Key::F4, // XK_F4
            0xFFC2 => Key::F5, // XK_F5
            0xFFC3 => Key::F6, // XK_F6
            0xFFC4 => Key::F7, // XK_F7
            0xFFC5 => Key::F8, // XK_F8
            0xFFC6 => Key::F9, // XK_F9
            0xFFC7 => Key::F10, // XK_F10
            0xFFC8 => Key::F11, // XK_F11
            0xFFC9 => Key::F12, // XK_F12
            0xFFCA => Key::F13, // XK_F13
            0xFFCB => Key::F14, // XK_F14
            0xFFCC => Key::F15, // XK_F15
            0xFFCD => Key::F16, // XK_F16
            0xFFCE => Key::F17, // XK_F17
            0xFFCF => Key::F18, // XK_F18
            0xFFD0 => Key::F19, // XK_F19
            0xFFD1 => Key::F20, // XK_F20
            0xFFD2 => Key::F21, // XK_F21
            0xFFD3 => Key::F22, // XK_F22
            0xFFD4 => Key::F23, // XK_F23
            0xFFD5 => Key::F24, // XK_F24
            0xFF7F => Key::Numlock, // XK_Num_Lock
            0xFF14 => Key::ScrollLock, // XK_Scroll_Lock
            0xFFBD => Key::NumpadEqual, // XK_KP_Equal
            0xFFE1 => Key::LShift, // XK_Shift_L
            0xFFE2 => Key::RShift, // XK_Shift_R
            0xFFE3 => Key::LControl, // XK_Control_L
            0xFFE4 => Key::RControl, // XK_Control_R
            0xFFE9 => Key::LAlt, // XK_Alt_L
            0xFFEA => Key::RAlt, // XK_Alt_R
            0x003B => Key::Semicolon, // XK_semicolon
            0x002B => Key::Plus, // XK_plus
            0x002C => Key::Comma, // XK_comma
            0x002D => Key::Minus, // XK_minus
            0x002E => Key::Period, // XK_period
            0x002F => Key::Slash, // XK_slash
            0x0060 => Key::Grave, // XK_grave
            0x0061 | 0x0041 => Key::A, // XK_a | XK_A
            0x0062 | 0x0042 => Key::B, // XK_b | XK_B
            0x0063 | 0x0043 => Key::C, // XK_c | XK_C
            0x0064 | 0x0044 => Key::D, // XK_d | XK_D
            0x0065 | 0x0045 => Key::E, // XK_e | XK_E
            0x0066 | 0x0046 => Key::F, // XK_f | XK_F
            0x0067 | 0x0047 => Key::G, // XK_g | XK_G
            0x0068 | 0x0048 => Key::H, // XK_h | XK_H
            0x0069 | 0x0049 => Key::I, // XK_i | XK_I
            0x006A | 0x004A => Key::J, // XK_j | XK_J
            0x006B | 0x004B => Key::K, // XK_k | XK_K
            0x006C | 0x004C => Key::L, // XK_l | XK_L
            0x006D | 0x004D => Key::M, // XK_m | XK_M
            0x006E | 0x004E => Key::N, // XK_n | XK_N
            0x006F | 0x004F => Key::O, // XK_o | XK_O
            0x0070 | 0x0050 => Key::P, // XK_p | XK_P
            0x0071 | 0x0051 => Key::Q, // XK_q | XK_Q
            0x0072 | 0x0052 => Key::R, // XK_r | XK_R
            0x0073 | 0x0053 => Key::S, // XK_s | XK_S
            0x0074 | 0x0054 => Key::T, // XK_t | XK_T
            0x0075 | 0x0055 => Key::U, // XK_u | XK_U
            0x0076 | 0x0056 => Key::V, // XK_v | XK_V
            0x0077 | 0x0057 => Key::W, // XK_w | XK_W
            0x0078 | 0x0058 => Key::X, // XK_x | XK_X
            0x0079 | 0x0059 => Key::Y, // XK_y | XK_Y
            0x007A | 0x005A => Key::Z, // XK_z | XK_Z
            _ => Key::NoKey,
        }
    }
}

impl FromSpecImpl<u32> for Key {
    open spec fn obeys_from_spec() -> bool {
        true
    }

    open spec fn from_spec(v: u32) -> Key {
        x11_keysym_key(v)
    }
}

impl Key {
    /// Translates a Win32 virtual-key code into a `Key`; only the low 16 bits
    /// of `val` are read.
    pub fn from_virtual_key(val: u32) -> (key: Key)
        ensures
            key == virtual_key_key(val as u16),
    {
        let code: u16 = val as u16;
        match code {
        0x0008 => Key::Backspace,
        0x000D => Key::Enter,
        0x0009 => Key::Tab,
        0x0010 => Key::Shift,
        0x0011 => Key::Control,
        0x0013 => Key::Pause,
        0x0014 => Key::Capital,
        0x001B => Key::Escape,
        0x001C => Key::Convert,
        0x001D => Key::NonConvert,
        0x001E => Key::Accept,
        0x001F => Key::ModeChange,
        0x0020 => Key::Space,
        0x0021 => Key::Prior,
        0x0022 => Key::Next,
        0x0023 => Key::End,
        0x0024 => Key::Home,
        0x0025 => Key::Left,
        0x0026 => Key::Up,
        0x0027 => Key::Right,
        0x0028 => Key::Down,
        0x0029 => Key::Select,
        0x002A => Key::Print,
        0x002B => Key::Execute,
        0x002C => Key::Snapshot,
        0x002D => Key::Insert,
        0x002E => Key::Delete,
        0x002F => Key::Help,
        0x0041 => Key::A,
        0x0042 => Key::B,
        0x0043 => Key::C,
        0x0044 => Key::D,
        0x0045 => Key::E,
        0x0046 => Key::F,
        0x0047 => Key::G,
        0x0048 => Key::H,
        0x0049 => Key::I,
        0x004A => Key::J,
        0x004B => Key::K,
        0x004C => Key::L,
        0x004D => Key::M,
        0x004E => Key::N,
        0x004F => Key::O,
        0x0050 => Key::P,
        0x0051 => Key::Q,
        0x0052 => Key::R,
        0x0053 => Key::S,
        0x0054 => Key::T,
        0x0055 => Key::U,
        0x0056 => Key::V,
        0x0057 => Key::W,
        0x0058 => Key::X,
        0x0059 => Key::Y,
        0x005A => Key::Z,
        0x0030 => Key::N0,
        0x0031 => Key::N1,
        0x0032 => Key::N2,
        0x0033 => Key::N3,
        0x0034 => Key::N4,
        0x0035 => Key::N5,
        0x0036 => Key::N6,
        0x0037 => Key::N7,
        0x0038 => Key::N8,
        0x0039 => Key::N9,
        0x005B => Key::Lwin,
        0x005C => Key::Rwin,
        0x005D => Key::Apps,
        0x005F => Key::Sleep,
        0x0060 => Key::Numpad0,
        0x0061 => Key::Numpad1,
        0x0062 => Key::Numpad2,
        0x0063 => Key::Numpad3,
        0x0064 => Key::Numpad4,
        0x0065 => Key::Numpad5,
        0x0066 => Key::Numpad6,
        0x0067 => Key::Numpad7,
        0x0068 => Key::Numpad8,
        0x0069 => Key::Numpad9,
        0x006A => Key::Multiply,
        0x006B => Key::Add,
        0x006C => Key::Separator,
        0x006D => Key::Subtract,
        0x006E => Key::Decimal,
        0x006F => Key::Divide,
        0x0070 => Key::F1,
        0x0071 => Key::F2,
        0x0072 => Key::F3,
        0x0073 => Key::F4,
        0x0074 => Key::F5,
        0x0075 => Key::F6,
        0x0076 => Key::F7,
        0x0077 => Key::F8,
        0x0078 => Key::F9,
        0x0079 => Key::F10,
        0x007A => Key::F11,
        0x007B => Key::F12,
        0x007C => Key::F13,
        0x007D => Key::F14,
        0x007E => Key::F15,
        0x007F => Key::F16,
        0x0080 => Key::F17,
        0x0081 => Key::F18,
        0x0082 => Key::F19,
        0x0083 => Key::F20,
        0x0084 => Key::F21,
        0x0085 => Key::F22,
        0x0086 => Key::F23,
        0x0087 => Key::F24,
        0x0090 => Key::Numlock,
        0x0091 => Key::ScrollLock,
        0x0092 => Key::NumpadEqual,
        0x00A0 => Key::LShift,
        0x00A1 => Key::RShift,
        0x00A2 => Key::LControl,
        0x00A3 => Key::RControl,
        0x00A4 => Key::LAlt,
        0x00A5 => Key::RAlt,
        0x00BA => Key::Semicolon,
        0x00BB => Key::Plus,
        0x00BC => Key::Comma,
        0x00BD => Key::Minus,
        0x00BE => Key::Period,
        0x00BF => Key::Slash,
        0x00C0 => Key::Grave,
        _ => Key::NoKey,
        }
    }
}

/// X11 letters are read without regard to case: the keysyms of `a`..`z` and
/// of `A`..`Z` stand for the same key, and that key is a letter key.
pub proof fn lemma_x11_letters_ignore_case(i: u32)
    requires
        i < 26,
    ensures
        x11_keysym_key((0x61 + i) as u32) == x11_keysym_key((0x41 + i) as u32),
        x11_keysym_key((0x41 + i) as u32) != Key::NoKey,
{
    if i == 0 {
    } else if i == 1 {
    } else if i == 2 {
    } else if i == 3 {
    } else if i == 4 {
    } else if i == 5 {
    } else if i == 6 {
    } else if i == 7 {
    } else if i == 8 {
    } else if i == 9 {
    } else if i == 10 {
    } else if i == 11 {
    } else if i == 12 {
    } else if i == 13 {
    } else if i == 14 {
    } else if i == 15 {
    } else if i == 16 {
    } else if i == 17 {
    } else if i == 18 {
    } else if i == 19 {
    } else if i == 20 {
    } else if i == 21 {
    } else if i == 22 {
    } else if i == 23 {
    } else if i == 24 {
    } else if i == 25 {
    }
}

/// The two platform tables agree on the letter keys: the Win32 virtual key
/// `0x41 + i` and the X11 keysym of the `i`-th capital letter are the same key.
pub proof fn lemma_letter_keys_agree(i: u32)
    requires
        i < 26,
    ensures
        virtual_key_key((0x41 + i) as u16) == x11_keysym_key((0x41 + i) as u32),
{
    if i == 0 {
    } else if i == 1 {
    } else if i == 2 {
    } else if i == 3 {
    } else if i == 4 {
    } else if i == 5 {
    } else if i == 6 {
    } else if i == 7 {
    } else if i == 8 {
    } else if i == 9 {
    } else if i == 10 {
    } else if i == 11 {
    } else if i == 12 {
    } else if i == 13 {
    } else if i == 14 {
    } else if i == 15 {
    } else if i == 16 {
    } else if i == 17 {
    } else if i == 18 {
    } else if i == 19 {
    } else if i == 20 {
    } else if i == 21 {
    } else if i == 22 {
    } else if i == 23 {
    } else if i == 24 {
    } else if i == 25 {
    }
}

/// The two platform tables agree on the function keys F1..F24.
pub proof fn lemma_function_keys_agree(i: u32)
    requires
        i < 24,
    ensures
        virtual_key_key((0x70 + i) as u16) == x11_keysym_key((0xFFBE + i) as u32),
        virtual_key_key((0x70 + i) as u16) != Key::NoKey,
{
    if i == 0 {
    } else if i == 1 {
    } else if i == 2 {
    } else if i == 3 {
    } else if i == 4 {
    } else if i == 5 {
    } else if i == 6 {
    } else if i == 7 {
    } else if i == 8 {
    } else if i == 9 {
    } else if i == 10 {
    } else if i == 11 {
    } else if i == 12 {
    } else if i == 13 {
    } else if i == 14 {
    } else if i == 15 {
    } else if i == 16 {
    } else if i == 17 {
    } else if i == 18 {
    } else if i == 19 {
    } else if i == 20 {
    } else if i == 21 {
    } else if i == 22 {
    } else if i == 23 {
    }
}

/// The two platform tables agree on the numeric keypad digits 0..9.
pub proof fn lemma_numpad_keys_agree(i: u32)
    requires
        i < 10,
    ensures
        virtual_key_key((0x60 + i) as u16) == x11_keysym_key((0xFFB0 + i) as u32),
        virtual_key_key((0x60 + i) as u16) != Key::NoKey,
{
    if i == 0 {
    } else if i == 1 {
    } else if i == 2 {
    } else if i == 3 {
    } else if i == 4 {
    } else if i == 5 {
    } else if i == 6 {
    } else if i == 7 {
    } else if i == 8 {
    } else if i == 9 {
    }
}

/// A Win32 key code is read from its low 16 bits only: clearing the upper
/// bits does not change the key.
pub proof fn lemma_virtual_key_reads_low_bits(val: u32)
    ensures
        virtual_key_key((val & 0xffff) as u16) == virtual_key_key(val as u16),
{
    assert((val & 0xffff) as u16 == val as u16) by (bit_vector);
}

} // verus!
