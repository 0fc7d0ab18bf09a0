//! Input events, the keys they carry and their modifier sets.
use vstd::prelude::*;

verus! {

/// A set of qualifier keys over {SHIFT, ALT, CTRL}, stored as a bit field
/// (SHIFT = 1, ALT = 2, CTRL = 4, as in the XTerm and Kitty protocols).
#[derive(Clone, Copy, Debug, PartialEq, Eq, Structural, Hash)]
pub struct Modifiers(pub u8);

pub const SHIFT_BIT: u8 = 1;

pub const ALT_BIT: u8 = 2;

pub const CTRL_BIT: u8 = 4;

impl Modifiers {
    /// The empty set.
    pub fn none() -> (r: Modifiers)
        ensures
            r.0 == 0,
    {
        Modifiers(0)
    }

    pub fn shift() -> (r: Modifiers)
        ensures
            r.0 == SHIFT_BIT,
    {
        Modifiers(SHIFT_BIT)
    }

    pub fn alt() -> (r: Modifiers)
        ensures
            r.0 == ALT_BIT,
    {
        Modifiers(ALT_BIT)
    }

    pub fn ctrl() -> (r: Modifiers)
        ensures
            r.0 == CTRL_BIT,
    {
        Modifiers(CTRL_BIT)
    }

    /// The union of two modifier sets.
    pub fn union(self, other: Modifiers) -> (r: Modifiers)
        ensures
            r.0 == self.0 | other.0,
    {
        Modifiers(self.0 | other.0)
    }

    pub open spec fn spec_has_shift(self) -> bool {
        self.0 & SHIFT_BIT != 0
    }

    /// Whether SHIFT is in the set.
    pub fn has_shift(self) -> (r: bool)
        ensures
            r == self.spec_has_shift(),
    {
        self.0 & SHIFT_BIT != 0
    }
}

/// One key, as the terminal reported it.
#[derive(Clone, Copy, Debug, PartialEq, Eq, Structural, Hash)]
pub enum KeyInput {
    /// A decoded Unicode scalar value.
    Codepoint(char),
    /// A backend-defined special key code (at least 256).
    Special(i32),
    /// A raw byte that did not start a valid UTF-8 sequence.
    Byte(u8),
}

/// One decoded input event.
#[derive(Clone, Copy, Debug, PartialEq, Eq, Structural, Hash)]
pub enum Event {
    KeyPress { modifiers: Modifiers, key: KeyInput, is_repeat: bool },
    KeyRelease { modifiers: Modifiers, key: KeyInput },
    Resize { width: u32, height: u32 },
    Mouse { device_id: u16, x: u32, y: u32, buttons: u32, modifiers: Modifiers },
    PasteBegin,
    PasteEnd,
}

/// The result of feeding one raw unit to the decoder.
#[derive(Clone, Copy, Debug, PartialEq, Eq, Structural)]
pub enum Step {
    /// A complete event.
    Emit(Event),
    /// The unit was consumed and no event is complete yet.
    Continue,
    /// A resize was reported: the caller queries the size and calls `resize_event`.
    NeedSize,
    /// A mouse event was reported: the caller queries its state and calls `mouse_event`.
    NeedMouse,
    /// A character value that is not a Unicode scalar value was decoded.
    Invalid,
}

/// A first press (not a repeat) of `key` with the modifier bits `bits`.
pub open spec fn press(bits: u8, key: KeyInput) -> Event {
    Event::KeyPress { modifiers: Modifiers(bits), key, is_repeat: false }
}

} // verus!
