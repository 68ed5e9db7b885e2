use vstd::prelude::*;

verus! {

/// The host key symbols that the keypad layout names; every other host key is `Other`.
#[derive(Debug, Clone, Copy, PartialEq, Eq, Structural)]
pub enum KeySymbol {
    Num1,
    Num2,
    Num3,
    Num4,
    Q,
    W,
    E,
    R,
    A,
    S,
    D,
    F,
    Z,
    X,
    C,
    V,
    Other,
}

/// The 4-bit keypad code of a host key, if the layout maps it.
pub open spec fn key_code(k: KeySymbol) -> Option<u8> {
    match k {
        KeySymbol::Num1 => Some(0x1),
        KeySymbol::Num2 => Some(0x2),
        KeySymbol::Num3 => Some(0x3),
        KeySymbol::Num4 => Some(0xC),
        KeySymbol::Q => Some(0x4),
        KeySymbol::W => Some(0x5),
        KeySymbol::E => Some(0x6),
        KeySymbol::R => Some(0xD),
        KeySymbol::A => Some(0x7),
        KeySymbol::S => Some(0x8),
        KeySymbol::D => Some(0x9),
        KeySymbol::F => Some(0xE),
        KeySymbol::Z => Some(0xA),
        KeySymbol::X => Some(0x0),
        KeySymbol::C => Some(0xB),
        KeySymbol::V => Some(0xF),
        KeySymbol::Other => None,
    }
}

/// The keypad code of the held key, if a key is held and the layout maps it.
pub open spec fn held_code(held: Option<KeySymbol>) -> Option<u8> {
    match held {
        Some(k) => key_code(k),
        None => None,
    }
}

/// The most recently pressed host key, if any; a new press replaces it.
pub struct Keyboard {
    pub(crate) keycode: Option<KeySymbol>,
}

impl Keyboard {
    /// The host key currently held, if any.
    pub closed spec fn held(&self) -> Option<KeySymbol> {
        self.keycode
    }

    /// A keyboard with no key held.
    pub fn new() -> (r: Keyboard)
        ensures
            r.held() is None,
    {
        Keyboard { keycode: None }
    }

    /// The keypad code of the held key, or `None` when no key is held or the held key
    /// is not on the keypad.
    pub fn get_key(&self) -> (r: Option<u8>)
        ensures
            r == held_code(self.held()),
    {
        match self.keycode {
            Some(key) => match key {
                KeySymbol::Num1 => Some(0x1),
                KeySymbol::Num2 => Some(0x2),
                KeySymbol::Num3 => Some(0x3),
                KeySymbol::Num4 => Some(0xC),
                KeySymbol::Q => Some(0x4),
                KeySymbol::W => Some(0x5),
                KeySymbol::E => Some(0x6),
                KeySymbol::R => Some(0xD),
                KeySymbol::A => Some(0x7),
                KeySymbol::S => Some(0x8),
                KeySymbol::D => Some(0x9),
                KeySymbol::F => Some(0xE),
                KeySymbol::Z => Some(0xA),
                KeySymbol::X => Some(0x0),
                KeySymbol::C => Some(0xB),
                KeySymbol::V => Some(0xF),
                KeySymbol::Other => None,
            },
            None => None,
        }
    }

    /// Records a key press, replacing any earlier one.
    pub fn set_key(&mut self, key: KeySymbol)
        ensures
            final(self).held() == Some(key),
    {
        self.keycode = Some(key);
    }
}

} // verus!
