use vstd::prelude::*;
use vstd::std_specs::convert::FromSpecImpl;

verus! {

/// Change of a cell between two successive scans.
#[derive(Clone, Copy, Debug, PartialEq, Eq, Structural)]
pub enum Edge {
    /// The cell kept its state.
    NoEdge,
    /// Released before, pressed now.
    Rising,
    /// Pressed before, released now.
    Falling,
}

impl Edge {
    /// The edge between a previous and a current pressed state.
    pub open spec fn between(from: bool, to: bool) -> Edge {
        if !from && to {
            Edge::Rising
        } else if from && !to {
            Edge::Falling
        } else {
            Edge::NoEdge
        }
    }
}

impl Default for Edge {
    fn default() -> (r: Edge)
        ensures
            r == Edge::NoEdge,
    {
        Edge::NoEdge
    }
}

impl FromSpecImpl<(bool, bool)> for Edge {
    open spec fn obeys_from_spec() -> bool {
        true
    }

    open spec fn from_spec(v: (bool, bool)) -> Edge {
        Edge::between(v.0, v.1)
    }
}

impl From<(bool, bool)> for Edge {
    fn from(v: (bool, bool)) -> (r: Edge) {
        let (from, to) = v;
        if !from && to {
            Edge::Rising
        } else if from && !to {
            Edge::Falling
        } else {
            Edge::NoEdge
        }
    }
}

/// Rising exactly on released-then-pressed, falling exactly on
/// pressed-then-released, no edge otherwise.
pub proof fn lemma_edge_derivation(previous: bool, current: bool)
    ensures
        Edge::between(previous, current) == Edge::Rising <==> !previous && current,
        Edge::between(previous, current) == Edge::Falling <==> previous && !current,
        Edge::between(previous, current) == Edge::NoEdge <==> previous == current,
{
}

/// A keyboard usage that the firmware can report.
#[derive(Clone, Copy, Debug, PartialEq, Eq, Structural)]
pub enum Key {
    Escape,
    F1,
    F2,
    F3,
    F4,
    F5,
    F6,
    F7,
    F8,
    F9,
    F10,
    F11,
    F12,
    Insert,
    DeleteForward,
    Grave,
    Keyboard1,
    Keyboard2,
    Keyboard3,
    Keyboard4,
    Keyboard5,
    Keyboard6,
    Keyboard7,
    Keyboard8,
    Keyboard9,
    Keyboard0,
    Minus,
    Equal,
    DeleteBackspace,
    PageUp,
    Tab,
    Q,
    W,
    E,
    R,
    T,
    Y,
    U,
    I,
    O,
    P,
    LeftBrace,
    RightBrace,
    Backslash,
    PageDown,
    CapsLock,
    A,
    S,
    D,
    F,
    G,
    H,
    J,
    K,
    L,
    Semicolon,
    Apostrophe,
    ReturnEnter,
    Home,
    LeftShift,
    Z,
    X,
    C,
    V,
    B,
    N,
    M,
    Comma,
    Dot,
    ForwardSlash,
    RightShift,
    UpArrow,
    End,
    LeftControl,
    LeftAlt,
    LeftGUI,
    Space,
    RightGUI,
    RightAlt,
    RightControl,
    LeftArrow,
    DownArrow,
    RightArrow,
    VolumeUp,
    VolumeDown,
}

/// Number of variants of [`Key`].
pub const KEY_COUNT: u8 = 85;

impl Key {
    /// Position of the key in the declaration order, which is what a
    /// [`ModifiedKey`] stores in its low byte.
    pub open spec fn ordinal_spec(self) -> u8 {
        match self {
            Key::Escape => 0,
            Key::F1 => 1,
            Key::F2 => 2,
            Key::F3 => 3,
            Key::F4 => 4,
            Key::F5 => 5,
            Key::F6 => 6,
            Key::F7 => 7,
            Key::F8 => 8,
            Key::F9 => 9,
            Key::F10 => 10,
            Key::F11 => 11,
            Key::F12 => 12,
            Key::Insert => 13,
            Key::DeleteForward => 14,
            Key::Grave => 15,
            Key::Keyboard1 => 16,
            Key::Keyboard2 => 17,
            Key::Keyboard3 => 18,
            Key::Keyboard4 => 19,
            Key::Keyboard5 => 20,
            Key::Keyboard6 => 21,
            Key::Keyboard7 => 22,
            Key::Keyboard8 => 23,
            Key::Keyboard9 => 24,
            Key::Keyboard0 => 25,
            Key::Minus => 26,
            Key::Equal => 27,
            Key::DeleteBackspace => 28,
            Key::PageUp => 29,
            Key::Tab => 30,
            Key::Q => 31,
            Key::W => 32,
            Key::E => 33,
            Key::R => 34,
            Key::T => 35,
            Key::Y => 36,
            Key::U => 37,
            Key::I => 38,
            Key::O => 39,
            Key::P => 40,
            Key::LeftBrace => 41,
            Key::RightBrace => 42,
            Key::Backslash => 43,
            Key::PageDown => 44,
            Key::CapsLock => 45,
            Key::A => 46,
            Key::S => 47,
            Key::D => 48,
            Key::F => 49,
            Key::G => 50,
            Key::H => 51,
            Key::J => 52,
            Key::K => 53,
            Key::L => 54,
            Key::Semicolon => 55,
            Key::Apostrophe => 56,
            Key::ReturnEnter => 57,
            Key::Home => 58,
            Key::LeftShift => 59,
            Key::Z => 60,
            Key::X => 61,
            Key::C => 62,
            Key::V => 63,
            Key::B => 64,
            Key::N => 65,
            Key::M => 66,
            Key::Comma => 67,
            Key::Dot => 68,
            Key::ForwardSlash => 69,
            Key::RightShift => 70,
            Key::UpArrow => 71,
            Key::End => 72,
            Key::LeftControl => 73,
            Key::LeftAlt => 74,
            Key::LeftGUI => 75,
            Key::Space => 76,
            Key::RightGUI => 77,
            Key::RightAlt => 78,
            Key::RightControl => 79,
            Key::LeftArrow => 80,
            Key::DownArrow => 81,
            Key::RightArrow => 82,
            Key::VolumeUp => 83,
            Key::VolumeDown => 84,
        }
    }

    /// The key at a position of the declaration order. Below
    /// [`KEY_COUNT`] there is exactly one.
    pub open spec fn at_ordinal(ordinal: u8) -> Key {
        choose|k: Key| k.ordinal_spec() == ordinal
    }

    /// Usage id of the key on the HID keyboard page.
    pub open spec fn usage_id_spec(self) -> u8 {
        match self {
            Key::Escape => 0x29,
            Key::F1 => 0x3A,
            Key::F2 => 0x3B,
            Key::F3 => 0x3C,
            Key::F4 => 0x3D,
            Key::F5 => 0x3E,
            Key::F6 => 0x3F,
            Key::F7 => 0x40,
            Key::F8 => 0x41,
            Key::F9 => 0x42,
            Key::F10 => 0x43,
            Key::F11 => 0x44,
            Key::F12 => 0x45,
            Key::Insert => 0x49,
            Key::DeleteForward => 0x4C,
            Key::Grave => 0x35,
            Key::Keyboard1 => 0x1E,
            Key::Keyboard2 => 0x1F,
            Key::Keyboard3 => 0x20,
            Key::Keyboard4 => 0x21,
            Key::Keyboard5 => 0x22,
            Key::Keyboard6 => 0x23,
            Key::Keyboard7 => 0x24,
            Key::Keyboard8 => 0x25,
            Key::Keyboard9 => 0x26,
            Key::Keyboard0 => 0x27,
            Key::Minus => 0x2D,
            Key::Equal => 0x2E,
            Key::DeleteBackspace => 0x2A,
            Key::PageUp => 0x4B,
            Key::Tab => 0x2B,
            Key::Q => 0x14,
            Key::W => 0x1A,
            Key::E => 0x08,
            Key::R => 0x15,
            Key::T => 0x17,
            Key::Y => 0x1C,
            Key::U => 0x18,
            Key::I => 0x0C,
            Key::O => 0x12,
            Key::P => 0x13,
            Key::LeftBrace => 0x2F,
            Key::RightBrace => 0x30,
            Key::Backslash => 0x31,
            Key::PageDown => 0x4E,
            Key::CapsLock => 0x39,
            Key::A => 0x04,
            Key::S => 0x16,
            Key::D => 0x07,
            Key::F => 0x09,
            Key::G => 0x0A,
            Key::H => 0x0B,
            Key::J => 0x0D,
            Key::K => 0x0E,
            Key::L => 0x0F,
            Key::Semicolon => 0x33,
            Key::Apostrophe => 0x34,
            Key::ReturnEnter => 0x28,
            Key::Home => 0x4A,
            Key::LeftShift => 0xE1,
            Key::Z => 0x1D,
            Key::X => 0x1B,
            Key::C => 0x06,
            Key::V => 0x19,
            Key::B => 0x05,
            Key::N => 0x11,
            Key::M => 0x10,
            Key::Comma => 0x36,
            Key::Dot => 0x37,
            Key::ForwardSlash => 0x38,
            Key::RightShift => 0xE5,
            Key::UpArrow => 0x52,
            Key::End => 0x4D,
            Key::LeftControl => 0xE0,
            Key::LeftAlt => 0xE2,
            Key::LeftGUI => 0xE3,
            Key::Space => 0x2C,
            Key::RightGUI => 0xE7,
            Key::RightAlt => 0xE6,
            Key::RightControl => 0xE4,
            Key::LeftArrow => 0x50,
            Key::DownArrow => 0x51,
            Key::RightArrow => 0x4F,
            Key::VolumeUp => 0x80,
            Key::VolumeDown => 0x81,
        }
    }

    pub fn ordinal(self) -> (r: u8)
        ensures
            r == self.ordinal_spec(),
            r < KEY_COUNT,
    {
        match self {
            Key::Escape => 0,
            Key::F1 => 1,
            Key::F2 => 2,
            Key::F3 => 3,
            Key::F4 => 4,
            Key::F5 => 5,
            Key::F6 => 6,
            Key::F7 => 7,
            Key::F8 => 8,
            Key::F9 => 9,
            Key::F10 => 10,
            Key::F11 => 11,
            Key::F12 => 12,
            Key::Insert => 13,
            Key::DeleteForward => 14,
            Key::Grave => 15,
            Key::Keyboard1 => 16,
            Key::Keyboard2 => 17,
            Key::Keyboard3 => 18,
            Key::Keyboard4 => 19,
            Key::Keyboard5 => 20,
            Key::Keyboard6 => 21,
            Key::Keyboard7 => 22,
            Key::Keyboard8 => 23,
            Key::Keyboard9 => 24,
            Key::Keyboard0 => 25,
            Key::Minus => 26,
            Key::Equal => 27,
            Key::DeleteBackspace => 28,
            Key::PageUp => 29,
            Key::Tab => 30,
            Key::Q => 31,
            Key::W => 32,
            Key::E => 33,
            Key::R => 34,
            Key::T => 35,
            Key::Y => 36,
            Key::U => 37,
            Key::I => 38,
            Key::O => 39,
            Key::P => 40,
            Key::LeftBrace => 41,
            Key::RightBrace => 42,
            Key::Backslash => 43,
            Key::PageDown => 44,
            Key::CapsLock => 45,
            Key::A => 46,
            Key::S => 47,
            Key::D => 48,
            Key::F => 49,
            Key::G => 50,
            Key::H => 51,
            Key::J => 52,
            Key::K => 53,
            Key::L => 54,
            Key::Semicolon => 55,
            Key::Apostrophe => 56,
            Key::ReturnEnter => 57,
            Key::Home => 58,
            Key::LeftShift => 59,
            Key::Z => 60,
            Key::X => 61,
            Key::C => 62,
            Key::V => 63,
            Key::B => 64,
            Key::N => 65,
            Key::M => 66,
            Key::Comma => 67,
            Key::Dot => 68,
            Key::ForwardSlash => 69,
            Key::RightShift => 70,
            Key::UpArrow => 71,
            Key::End => 72,
            Key::LeftControl => 73,
            Key::LeftAlt => 74,
            Key::LeftGUI => 75,
            Key::Space => 76,
            Key::RightGUI => 77,
            Key::RightAlt => 78,
            Key::RightControl => 79,
            Key::LeftArrow => 80,
            Key::DownArrow => 81,
            Key::RightArrow => 82,
            Key::VolumeUp => 83,
            Key::VolumeDown => 84,
        }
    }

    pub fn from_ordinal(ordinal: u8) -> (r: Option<Key>)
        ensures
            ordinal < KEY_COUNT ==> r == Some(Key::at_ordinal(ordinal)),
            ordinal < KEY_COUNT ==> Key::at_ordinal(ordinal).ordinal_spec() == ordinal,
            ordinal >= KEY_COUNT ==> r is None,
    {
        let r = match ordinal {
            0 => Some(Key::Escape),
            1 => Some(Key::F1),
            2 => Some(Key::F2),
            3 => Some(Key::F3),
            4 => Some(Key::F4),
            5 => Some(Key::F5),
            6 => Some(Key::F6),
            7 => Some(Key::F7),
            8 => Some(Key::F8),
            9 => Some(Key::F9),
            10 => Some(Key::F10),
            11 => Some(Key::F11),
            12 => Some(Key::F12),
            13 => Some(Key::Insert),
            14 => Some(Key::DeleteForward),
            15 => Some(Key::Grave),
            16 => Some(Key::Keyboard1),
            17 => Some(Key::Keyboard2),
            18 => Some(Key::Keyboard3),
            19 => Some(Key::Keyboard4),
            20 => Some(Key::Keyboard5),
            21 => Some(Key::Keyboard6),
            22 => Some(Key::Keyboard7),
            23 => Some(Key::Keyboard8),
            24 => Some(Key::Keyboard9),
            25 => Some(Key::Keyboard0),
            26 => Some(Key::Minus),
            27 => Some(Key::Equal),
            28 => Some(Key::DeleteBackspace),
            29 => Some(Key::PageUp),
            30 => Some(Key::Tab),
            31 => Some(Key::Q),
            32 => Some(Key::W),
            33 => Some(Key::E),
            34 => Some(Key::R),
            35 => Some(Key::T),
            36 => Some(Key::Y),
            37 => Some(Key::U),
            38 => Some(Key::I),
            39 => Some(Key::O),
            40 => Some(Key::P),
            41 => Some(Key::LeftBrace),
            42 => Some(Key::RightBrace),
            43 => Some(Key::Backslash),
            44 => Some(Key::PageDown),
            45 => Some(Key::CapsLock),
            46 => Some(Key::A),
            47 => Some(Key::S),
            48 => Some(Key::D),
            49 => Some(Key::F),
            50 => Some(Key::G),
            51 => Some(Key::H),
            52 => Some(Key::J),
            53 => Some(Key::K),
            54 => Some(Key::L),
            55 => Some(Key::Semicolon),
            56 => Some(Key::Apostrophe),
            57 => Some(Key::ReturnEnter),
            58 => Some(Key::Home),
            59 => Some(Key::LeftShift),
            60 => Some(Key::Z),
            61 => Some(Key::X),
            62 => Some(Key::C),
            63 => Some(Key::V),
            64 => Some(Key::B),
            65 => Some(Key::N),
            66 => Some(Key::M),
            67 => Some(Key::Comma),
            68 => Some(Key::Dot),
            69 => Some(Key::ForwardSlash),
            70 => Some(Key::RightShift),
            71 => Some(Key::UpArrow),
            72 => Some(Key::End),
            73 => Some(Key::LeftControl),
            74 => Some(Key::LeftAlt),
            75 => Some(Key::LeftGUI),
            76 => Some(Key::Space),
            77 => Some(Key::RightGUI),
            78 => Some(Key::RightAlt),
            79 => Some(Key::RightControl),
            80 => Some(Key::LeftArrow),
            81 => Some(Key::DownArrow),
            82 => Some(Key::RightArrow),
            83 => Some(Key::VolumeUp),
            84 => Some(Key::VolumeDown),
            _ => None,
        };
        proof {
            if let Some(k) = r {
                assert(k.ordinal_spec() == ordinal);
                lemma_ordinal_injective(k, Key::at_ordinal(ordinal));
            }
        }
        r
    }

    pub fn usage_id(self) -> (r: u8)
        ensures
            r == self.usage_id_spec(),
    {
        match self {
            Key::Escape => 0x29,
            Key::F1 => 0x3A,
            Key::F2 => 0x3B,
            Key::F3 => 0x3C,
            Key::F4 => 0x3D,
            Key::F5 => 0x3E,
            Key::F6 => 0x3F,
            Key::F7 => 0x40,
            Key::F8 => 0x41,
            Key::F9 => 0x42,
            Key::F10 => 0x43,
            Key::F11 => 0x44,
            Key::F12 => 0x45,
            Key::Insert => 0x49,
            Key::DeleteForward => 0x4C,
            Key::Grave => 0x35,
            Key::Keyboard1 => 0x1E,
            Key::Keyboard2 => 0x1F,
            Key::Keyboard3 => 0x20,
            Key::Keyboard4 => 0x21,
            Key::Keyboard5 => 0x22,
            Key::Keyboard6 => 0x23,
            Key::Keyboard7 => 0x24,
            Key::Keyboard8 => 0x25,
            Key::Keyboard9 => 0x26,
            Key::Keyboard0 => 0x27,
            Key::Minus => 0x2D,
            Key::Equal => 0x2E,
            Key::DeleteBackspace => 0x2A,
            Key::PageUp => 0x4B,
            Key::Tab => 0x2B,
            Key::Q => 0x14,
            Key::W => 0x1A,
            Key::E => 0x08,
            Key::R => 0x15,
            Key::T => 0x17,
            Key::Y => 0x1C,
            Key::U => 0x18,
            Key::I => 0x0C,
            Key::O => 0x12,
            Key::P => 0x13,
            Key::LeftBrace => 0x2F,
            Key::RightBrace => 0x30,
            Key::Backslash => 0x31,
            Key::PageDown => 0x4E,
            Key::CapsLock => 0x39,
            Key::A => 0x04,
            Key::S => 0x16,
            Key::D => 0x07,
            Key::F => 0x09,
            Key::G => 0x0A,
            Key::H => 0x0B,
            Key::J => 0x0D,
            Key::K => 0x0E,
            Key::L => 0x0F,
            Key::Semicolon => 0x33,
            Key::Apostrophe => 0x34,
            Key::ReturnEnter => 0x28,
            Key::Home => 0x4A,
            Key::LeftShift => 0xE1,
            Key::Z => 0x1D,
            Key::X => 0x1B,
            Key::C => 0x06,
            Key::V => 0x19,
            Key::B => 0x05,
            Key::N => 0x11,
            Key::M => 0x10,
            Key::Comma => 0x36,
            Key::Dot => 0x37,
            Key::ForwardSlash => 0x38,
            Key::RightShift => 0xE5,
            Key::UpArrow => 0x52,
            Key::End => 0x4D,
            Key::LeftControl => 0xE0,
            Key::LeftAlt => 0xE2,
            Key::LeftGUI => 0xE3,
            Key::Space => 0x2C,
            Key::RightGUI => 0xE7,
            Key::RightAlt => 0xE6,
            Key::RightControl => 0xE4,
            Key::LeftArrow => 0x50,
            Key::DownArrow => 0x51,
            Key::RightArrow => 0x4F,
            Key::VolumeUp => 0x80,
            Key::VolumeDown => 0x81,
        }
    }
}

/// Distinct keys stand at distinct positions of the declaration order.
pub proof fn lemma_ordinal_injective(a: Key, b: Key)
    requires
        a.ordinal_spec() == b.ordinal_spec(),
    ensures
        a == b,
{
}

/// Looking a key up by its own ordinal finds that key.
pub proof fn lemma_at_ordinal_of_key(key: Key)
    ensures
        Key::at_ordinal(key.ordinal_spec()) == key,
        key.ordinal_spec() < KEY_COUNT,
{
    let found = Key::at_ordinal(key.ordinal_spec());
    assert(found.ordinal_spec() == key.ordinal_spec());
    lemma_ordinal_injective(found, key);
}

/// Distinct keys report distinct usage ids.
pub proof fn lemma_usage_id_injective(a: Key, b: Key)
    requires
        a.usage_id_spec() == b.usage_id_spec(),
    ensures
        a == b,
{
}

#[verifier::external_type_specification]
#[verifier::external_body]
pub struct ExKeyboard(usbd_human_interface_device::page::Keyboard);

/// The variant of the HID keyboard page that `Keyboard::from` gives for a
/// usage id.
pub uninterp spec fn keyboard_usage(id: u8) -> usbd_human_interface_device::page::Keyboard;

/// Calls `Keyboard::from(u8)` of `usbd_human_interface_device::page`, the
/// conversion that `num_enum` derives from the enum's discriminants. The
/// contract only names its result; it is the same for the same id.
#[verifier::external_body]
fn keyboard_from_usage_id(id: u8) -> (r: usbd_human_interface_device::page::Keyboard)
    ensures
        r == keyboard_usage(id),
{
    usbd_human_interface_device::page::Keyboard::from(id)
}

impl Key {
    /// The usage of the HID keyboard page that stands for this key in a
    /// report.
    pub fn to_keyboard(self) -> (r: usbd_human_interface_device::page::Keyboard)
        ensures
            r == keyboard_usage(self.usage_id_spec()),
    {
        keyboard_from_usage_id(self.usage_id())
    }
}

impl FromSpecImpl<Key> for usbd_human_interface_device::page::Keyboard {
    open spec fn obeys_from_spec() -> bool {
        true
    }

    open spec fn from_spec(v: Key) -> usbd_human_interface_device::page::Keyboard {
        keyboard_usage(v.usage_id_spec())
    }
}

impl From<Key> for usbd_human_interface_device::page::Keyboard {
    fn from(v: Key) -> (r: usbd_human_interface_device::page::Keyboard) {
        v.to_keyboard()
    }
}

/// One of the eight modifier bits of a [`ModifiedKey`], or none of them.
#[derive(Clone, Copy, Debug, PartialEq, Eq, Structural)]
pub enum Modifier {
    NoModifier,
    LeftShift,
    LeftControl,
    LeftAlt,
    LeftGUI,
    RightShift,
    RightControl,
    RightAlt,
    RightGUI,
}

impl Modifier {
    /// The bit mask of the modifier: one bit, or zero for `NoModifier`.
    pub open spec fn mask_spec(self) -> u8 {
        match self {
            Modifier::NoModifier => 0,
            Modifier::LeftShift => 1,
            Modifier::LeftControl => 2,
            Modifier::LeftAlt => 4,
            Modifier::LeftGUI => 8,
            Modifier::RightShift => 16,
            Modifier::RightControl => 32,
            Modifier::RightAlt => 64,
            Modifier::RightGUI => 128,
        }
    }

    /// The modifier of a bit position, counted from the least significant
    /// bit of the mask.
    pub open spec fn of_bit_spec(bit: int) -> Modifier {
        if bit == 0 {
            Modifier::LeftShift
        } else if bit == 1 {
            Modifier::LeftControl
        } else if bit == 2 {
            Modifier::LeftAlt
        } else if bit == 3 {
            Modifier::LeftGUI
        } else if bit == 4 {
            Modifier::RightShift
        } else if bit == 5 {
            Modifier::RightControl
        } else if bit == 6 {
            Modifier::RightAlt
        } else if bit == 7 {
            Modifier::RightGUI
        } else {
            Modifier::NoModifier
        }
    }

    /// The key that reports the modifier, if it is one.
    pub open spec fn key_spec(self) -> Option<Key> {
        match self {
            Modifier::NoModifier => None,
            Modifier::LeftShift => Some(Key::LeftShift),
            Modifier::LeftControl => Some(Key::LeftControl),
            Modifier::LeftAlt => Some(Key::LeftAlt),
            Modifier::LeftGUI => Some(Key::LeftGUI),
            Modifier::RightShift => Some(Key::RightShift),
            Modifier::RightControl => Some(Key::RightControl),
            Modifier::RightAlt => Some(Key::RightAlt),
            Modifier::RightGUI => Some(Key::RightGUI),
        }
    }

    pub fn mask(self) -> (r: u8)
        ensures
            r == self.mask_spec(),
    {
        match self {
            Modifier::NoModifier => 0,
            Modifier::LeftShift => 1,
            Modifier::LeftControl => 2,
            Modifier::LeftAlt => 4,
            Modifier::LeftGUI => 8,
            Modifier::RightShift => 16,
            Modifier::RightControl => 32,
            Modifier::RightAlt => 64,
            Modifier::RightGUI => 128,
        }
    }

    pub fn of_bit(bit: usize) -> (r: Modifier)
        ensures
            r == Modifier::of_bit_spec(bit as int),
    {
        match bit {
            0 => Modifier::LeftShift,
            1 => Modifier::LeftControl,
            2 => Modifier::LeftAlt,
            3 => Modifier::LeftGUI,
            4 => Modifier::RightShift,
            5 => Modifier::RightControl,
            6 => Modifier::RightAlt,
            7 => Modifier::RightGUI,
            _ => Modifier::NoModifier,
        }
    }

    pub fn key(self) -> (r: Option<Key>)
        ensures
            r == self.key_spec(),
    {
        match self {
            Modifier::NoModifier => None,
            Modifier::LeftShift => Some(Key::LeftShift),
            Modifier::LeftControl => Some(Key::LeftControl),
            Modifier::LeftAlt => Some(Key::LeftAlt),
            Modifier::LeftGUI => Some(Key::LeftGUI),
            Modifier::RightShift => Some(Key::RightShift),
            Modifier::RightControl => Some(Key::RightControl),
            Modifier::RightAlt => Some(Key::RightAlt),
            Modifier::RightGUI => Some(Key::RightGUI),
        }
    }
}

impl Default for Modifier {
    fn default() -> (r: Modifier)
        ensures
            r == Modifier::NoModifier,
    {
        Modifier::NoModifier
    }
}

/// Whether bit `bit` of `mask` is set, bit 0 being the least significant.
pub open spec fn mask_has_bit(mask: u8, bit: int) -> bool {
    if bit == 0 {
        mask % 2 == 1
    } else if bit == 1 {
        (mask / 2) % 2 == 1
    } else if bit == 2 {
        (mask / 4) % 2 == 1
    } else if bit == 3 {
        (mask / 8) % 2 == 1
    } else if bit == 4 {
        (mask / 16) % 2 == 1
    } else if bit == 5 {
        (mask / 32) % 2 == 1
    } else if bit == 6 {
        (mask / 64) % 2 == 1
    } else if bit == 7 {
        (mask / 128) % 2 == 1
    } else {
        false
    }
}

fn has_bit(mask: u8, bit: usize) -> (r: bool)
    ensures
        r == mask_has_bit(mask, bit as int),
{
    match bit {
        0 => mask % 2 == 1,
        1 => (mask / 2) % 2 == 1,
        2 => (mask / 4) % 2 == 1,
        3 => (mask / 8) % 2 == 1,
        4 => (mask / 16) % 2 == 1,
        5 => (mask / 32) % 2 == 1,
        6 => (mask / 64) % 2 == 1,
        7 => (mask / 128) % 2 == 1,
        _ => false,
    }
}

/// A key together with the modifiers to hold while it is down. The low byte
/// is the ordinal of a [`Key`], the high byte a mask of [`Modifier`] bits.
#[derive(Clone, Copy, Debug, PartialEq, Eq)]
pub struct ModifiedKey(u16);

impl ModifiedKey {
    #[verifier::type_invariant]
    spec fn holds_a_key(self) -> bool {
        self.0 % 256 < KEY_COUNT
    }

    /// The sixteen bits of the composite.
    pub closed spec fn bits_spec(self) -> u16 {
        self.0
    }

    /// The modifier mask, the high byte.
    pub open spec fn mask_spec(self) -> u8 {
        (self.bits_spec() / 256) as u8
    }

    /// The key, whose ordinal is the low byte.
    pub open spec fn key_spec(self) -> Key {
        Key::at_ordinal((self.bits_spec() % 256) as u8)
    }

    /// What `get_modifiers` gives at a bit position.
    pub open spec fn modifier_at(self, bit: int) -> Modifier {
        if 0 <= bit < 8 && mask_has_bit(self.mask_spec(), bit) {
            Modifier::of_bit_spec(bit)
        } else {
            Modifier::NoModifier
        }
    }

    /// The composite of a modifier mask and a key.
    pub closed spec fn of(mask: u8, key: Key) -> ModifiedKey {
        ModifiedKey((mask as int * 256 + key.ordinal_spec()) as u16)
    }

    /// The composite of a modifier mask and a key.
    pub fn new(mask: u8, key: Key) -> (r: ModifiedKey)
        ensures
            r == ModifiedKey::of(mask, key),
            r.bits_spec() == mask as int * 256 + key.ordinal_spec(),
            r.mask_spec() == mask,
            r.key_spec() == key,
    {
        proof {
            lemma_at_ordinal_of_key(key);
        }
        let bits: u16 = mask as u16 * 256 + key.ordinal() as u16;
        ModifiedKey(bits)
    }

    /// The composite of one modifier and a key.
    pub fn with_modifier(modifier: Modifier, key: Key) -> (r: ModifiedKey)
        ensures
            r == ModifiedKey::of(modifier.mask_spec(), key),
            r.mask_spec() == modifier.mask_spec(),
            r.key_spec() == key,
    {
        ModifiedKey::new(modifier.mask(), key)
    }

    /// The composite with the given bits, if their low byte is the ordinal
    /// of a key.
    pub fn from_bits(bits: u16) -> (r: Option<ModifiedKey>)
        ensures
            bits % 256 < KEY_COUNT ==> r is Some && r->0.bits_spec() == bits,
            bits % 256 >= KEY_COUNT ==> r is None,
    {
        if bits % 256 < KEY_COUNT as u16 {
            Some(ModifiedKey(bits))
        } else {
            None
        }
    }

    pub fn bits(self) -> (r: u16)
        ensures
            r == self.bits_spec(),
    {
        self.0
    }

    /// The modifiers by bit position: at position `i` the modifier of bit
    /// `i` where the mask has that bit, `NoModifier` where it has not.
    pub fn get_modifiers(self) -> (mods: [Modifier; 8])
        ensures
            forall|bit: int| 0 <= bit < 8 ==> #[trigger] mods[bit] == self.modifier_at(bit),
    {
        let mut mods = [Modifier::NoModifier; 8];
        let mask: u8 = (self.0 / 256) as u8;
        let mut bit: usize = 0;
        while bit < 8
            invariant
                bit <= 8,
                mask == self.mask_spec(),
                forall|b: int| 0 <= b < bit ==> mods[b] == self.modifier_at(b),
            decreases 8 - bit,
        {
            if has_bit(mask, bit) {
                mods[bit] = Modifier::of_bit(bit);
            } else {
                mods[bit] = Modifier::NoModifier;
            }
            bit += 1;
        }
        mods
    }

    pub fn get_key(self) -> (key: Key)
        ensures
            key == self.key_spec(),
    {
        proof {
            use_type_invariant(&self);
        }
        let low: u8 = (self.0 % 256) as u8;
        match Key::from_ordinal(low) {
            Some(key) => key,
            None => Key::Escape,
        }
    }
}

/// The parts of a composite are the mask and the key it was made of.
pub proof fn lemma_modified_key_parts(mask: u8, key: Key)
    ensures
        ModifiedKey::of(mask, key).bits_spec() == mask as int * 256 + key.ordinal_spec(),
        ModifiedKey::of(mask, key).mask_spec() == mask,
        ModifiedKey::of(mask, key).key_spec() == key,
{
    lemma_at_ordinal_of_key(key);
}

/// A command to the firmware itself.
#[derive(Clone, Copy, Debug, PartialEq, Eq, Structural)]
pub enum Control {
    RGBAnimationNext,
    RGBAnimationPrevious,
    RGBSpeedUp,
    RGBSpeedDown,
    RGBBrightnessUp,
    RGBBrightnessDown,
    RGBDirectionToggle,
    U2FBootloaderJump,
}

/// A layer of the key map. Layers are ordered by their index; the base
/// layer has index 0.
pub trait LayerIndex: Copy {
    spec fn index_spec(self) -> nat;

    fn index(self) -> (r: usize)
        ensures
            r == self.index_spec(),
    ;
}

/// What a cell of the key map, or a turn of the encoder, stands for.
#[derive(Clone, Copy, Debug, PartialEq, Eq)]
pub enum Action<L: LayerIndex> {
    /// Transparent.
    Pass,
    /// Explicitly nothing.
    NoAction,
    Key(Key),
    ModifiedKey(ModifiedKey),
    Control(Control),
    /// While held, selects layer `L`.
    LayerModifier(L),
}

impl<L: LayerIndex> Default for Action<L> {
    fn default() -> (r: Action<L>)
        ensures
            r == Action::<L>::Pass,
    {
        Action::Pass
    }
}

impl<L: LayerIndex> FromSpecImpl<Key> for Action<L> {
    open spec fn obeys_from_spec() -> bool {
        true
    }

    open spec fn from_spec(v: Key) -> Action<L> {
        Action::Key(v)
    }
}

impl<L: LayerIndex> From<Key> for Action<L> {
    fn from(v: Key) -> (r: Action<L>) {
        Action::Key(v)
    }
}

impl<L: LayerIndex> FromSpecImpl<Modifier> for Action<L> {
    open spec fn obeys_from_spec() -> bool {
        true
    }

    open spec fn from_spec(v: Modifier) -> Action<L> {
        match v.key_spec() {
            Some(key) => Action::Key(key),
            None => Action::NoAction,
        }
    }
}

impl<L: LayerIndex> From<Modifier> for Action<L> {
    fn from(v: Modifier) -> (r: Action<L>) {
        match v.key() {
            Some(key) => Action::Key(key),
            None => Action::NoAction,
        }
    }
}

} // verus!
