//! The decoding engine: UTF-8 reassembly followed by the ordered translation
//! passes and the two in-band protocol parsers.
use vstd::prelude::*;

use crate::event::{press, Event, KeyInput, Step};
use crate::protocol::{kitty_spec, xterm_spec, KittyState, XTermState};
use crate::translate::{fixed_spec, translate_fixed, KITTY_ENTRY_CODE, XTERM_ENTRY_CODE};
use crate::utf8::{char_from_u32, is_scalar, utf8_spec, Utf8Outcome, Utf8State};

verus! {

/// The resumable state of the decoder between two raw units.
#[derive(Clone, Copy, Debug, PartialEq, Eq, Structural)]
pub struct Decoder {
    pub utf8: Utf8State,
    pub xterm: XTermState,
    pub kitty: KittyState,
}

/// The event bound to `code` by the first entry of `t` with that code.
pub open spec fn lookup(t: Seq<(i32, Event)>, code: i32) -> Option<Event>
    decreases t.len(),
{
    if t.len() == 0 {
        None
    } else if t[0].0 == code {
        Some(t[0].1)
    } else {
        lookup(t.drop_first(), code)
    }
}

/// The translation of one resolved key, given the learned bindings `t`.
/// The two protocol entry codes come first; then the passes are tried in
/// order and the first that applies decides.
pub open spec fn translate_spec(d: Decoder, t: Seq<(i32, Event)>, input: KeyInput) -> (Decoder, Step) {
    let learned = match input {
        KeyInput::Special(code) => lookup(t, code),
        _ => None,
    };
    if input == KeyInput::Special(XTERM_ENTRY_CODE) {
        (Decoder { xterm: XTermState::ParsingMode(0), ..d }, Step::Continue)
    } else if input == KeyInput::Special(KITTY_ENTRY_CODE) {
        (Decoder { kitty: KittyState::ParsingType, ..d }, Step::Continue)
    } else if learned is Some {
        (d, Step::Emit(learned->0))
    } else if fixed_spec(input) is Some {
        (d, fixed_spec(input)->0)
    } else if xterm_spec(d.xterm, input) is Some {
        let (x, step) = xterm_spec(d.xterm, input)->0;
        (Decoder { xterm: x, ..d }, step)
    } else if kitty_spec(d.kitty, input) is Some {
        let (k, step) = kitty_spec(d.kitty, input)->0;
        (Decoder { kitty: k, ..d }, step)
    } else {
        (d, Step::Emit(press(0, input)))
    }
}

/// The decoder's transition on one raw unit: values below 256 are bytes and
/// go through UTF-8 reassembly, the others are special codes.
pub open spec fn decode_spec(d: Decoder, t: Seq<(i32, Event)>, unit: i32) -> (Decoder, Step) {
    if unit < 256 {
        let (u, out) = utf8_spec(d.utf8, unit as u8);
        let d1 = Decoder { utf8: u, ..d };
        match out {
            Utf8Outcome::NeedMore => (d1, Step::Continue),
            Utf8Outcome::Raw(b) => (d1, Step::Emit(press(0, KeyInput::Byte(b)))),
            Utf8Outcome::Complete(v) => if is_scalar(v as int) {
                translate_spec(d1, t, KeyInput::Codepoint(v as char))
            } else {
                (d1, Step::Invalid)
            },
        }
    } else {
        translate_spec(d, t, KeyInput::Special(unit))
    }
}

/// The decoder with nothing in progress.
pub open spec fn idle() -> Decoder {
    Decoder {
        utf8: Utf8State { partial: 0, remaining: 0 },
        xterm: XTermState::Off,
        kitty: KittyState::Off,
    }
}

/// Finds the event bound to `code` in `t`.
pub fn find_binding(t: &Vec<(i32, Event)>, code: i32) -> (r: Option<Event>)
    ensures
        r == lookup(t@, code),
{
    let mut i: usize = 0;
    assert(t@.skip(0) =~= t@);
    while i < t.len()
        invariant
            0 <= i <= t@.len(),
            lookup(t@, code) == lookup(t@.skip(i as int), code),
        decreases t@.len() - i,
    {
        if t[i].0 == code {
            return Some(t[i].1);
        }
        assert(t@.skip(i as int).drop_first() =~= t@.skip(i as int + 1));
        i = i + 1;
    }
    None
}

impl Decoder {
    /// The decoder with nothing in progress.
    pub fn new() -> (r: Decoder)
        ensures
            r == idle(),
    {
        Decoder { utf8: Utf8State::new(), xterm: XTermState::Off, kitty: KittyState::Off }
    }

    /// Translates one resolved key (see `translate_spec`).
    pub fn translate(&mut self, t: &Vec<(i32, Event)>, input: KeyInput) -> (r: Step)
        ensures
            (*final(self), r) == translate_spec(*old(self), t@, input),
    {
        if input == KeyInput::Special(XTERM_ENTRY_CODE) {
            self.xterm = XTermState::ParsingMode(0);
            return Step::Continue;
        }
        if input == KeyInput::Special(KITTY_ENTRY_CODE) {
            self.kitty = KittyState::ParsingType;
            return Step::Continue;
        }
        if let KeyInput::Special(code) = input {
            if let Some(e) = find_binding(t, code) {
                return Step::Emit(e);
            }
        }
        if let Some(step) = translate_fixed(input) {
            return step;
        }
        if let Some(step) = self.xterm.advance(input) {
            return step;
        }
        if let Some(step) = self.kitty.advance(input) {
            return step;
        }
        Step::Emit(Event::KeyPress { modifiers: crate::event::Modifiers(0), key: input, is_repeat: false })
    }

    /// Feeds one raw unit to the decoder (see `decode_spec`).
    pub fn feed(&mut self, t: &Vec<(i32, Event)>, unit: i32) -> (r: Step)
        ensures
            (*final(self), r) == decode_spec(*old(self), t@, unit),
    {
        if unit < 256 {
            match self.utf8.push(unit as u8) {
                Utf8Outcome::NeedMore => Step::Continue,
                Utf8Outcome::Raw(b) => Step::Emit(
                    Event::KeyPress { modifiers: crate::event::Modifiers(0), key: KeyInput::Byte(b), is_repeat: false },
                ),
                Utf8Outcome::Complete(v) => match char_from_u32(v) {
                    Some(c) => self.translate(t, KeyInput::Codepoint(c)),
                    None => Step::Invalid,
                },
            }
        } else {
            self.translate(t, KeyInput::Special(unit))
        }
    }
}

} // verus!
