//! The two in-band escape protocols: XTerm's modify-other-keys and Kitty's
//! full keyboard mode. Each is a small state machine fed one key at a time.
use vstd::prelude::*;
use vstd::wrapping::u32_specs;

use crate::event::{Event, KeyInput, Modifiers, Step};
use crate::keys;
use crate::translate::KITTY_END_CODE;
use crate::utf8::{char_from_u32, is_scalar};

verus! {

/// Progress through an XTerm modify-keys sequence.
#[derive(Clone, Copy, Debug, PartialEq, Eq, Structural)]
pub enum XTermState {
    Off,
    /// Reading the decimal modifier value.
    ParsingMode(u32),
    /// Reading the decimal character code, after the modifier value.
    ParsingChar(u32, u32),
}

/// The kind of a Kitty key report.
#[derive(Clone, Copy, Debug, PartialEq, Eq, Structural)]
pub enum KeyType {
    Press,
    Release,
    Repeat,
}

/// Progress through a Kitty full-mode sequence.
#[derive(Clone, Copy, Debug, PartialEq, Eq, Structural)]
pub enum KittyState {
    Off,
    ParsingType,
    ParsingModifiers(KeyType),
    /// The report kind, the modifier bits and the key value gathered so far.
    ParsingKey(KeyType, u8, u32),
}

/// The decimal value of an ASCII digit.
pub open spec fn digit_spec(c: char) -> Option<u32> {
    if '0' <= c && c <= '9' {
        Some((c as u32 - '0' as u32) as u32)
    } else {
        None
    }
}

/// `n * 10 + d`, wrapping on overflow.
pub open spec fn push_decimal(n: u32, d: u32) -> u32 {
    u32_specs::wrapping_add(u32_specs::wrapping_mul(n, 10), d)
}

/// `n * 85 + d`, wrapping on overflow.
pub open spec fn push_base85(n: u32, d: u32) -> u32 {
    u32_specs::wrapping_add(u32_specs::wrapping_mul(n, 85), d)
}

/// The XTerm parser's move on one key, or `None` where the key does not
/// belong to the sequence (the state is then left as it was).
pub open spec fn xterm_spec(s: XTermState, input: KeyInput) -> Option<(XTermState, Step)> {
    match (s, input) {
        (XTermState::ParsingMode(n), KeyInput::Codepoint(c)) => if digit_spec(c) is Some {
            Some((XTermState::ParsingMode(push_decimal(n, digit_spec(c)->0)), Step::Continue))
        } else if c == ';' {
            Some((XTermState::ParsingChar(n, 0), Step::Continue))
        } else {
            None
        },
        (XTermState::ParsingChar(m, v), KeyInput::Codepoint(c)) => if digit_spec(c) is Some {
            Some((XTermState::ParsingChar(m, push_decimal(v, digit_spec(c)->0)), Step::Continue))
        } else if c == '~' {
            Some((XTermState::Off, xterm_final(m, v)))
        } else {
            None
        },
        _ => None,
    }
}

/// The outcome of a complete XTerm sequence with modifier value `m` and
/// character code `v`. A modifier value of 0 yields no event.
pub open spec fn xterm_final(m: u32, v: u32) -> Step {
    if m == 0 {
        Step::Continue
    } else if !is_scalar(v as int) {
        Step::Invalid
    } else {
        Step::Emit(
            Event::KeyPress {
                modifiers: Modifiers((m - 1) as u8),
                key: KeyInput::Codepoint(v as char),
                is_repeat: false,
            },
        )
    }
}

/// The value of a character in the 64-symbol alphabet of Kitty's modifier field.
pub open spec fn base64_spec(c: char) -> Option<u32> {
    if 'A' <= c && c <= 'Z' {
        Some((c as u32 - 'A' as u32) as u32)
    } else if 'a' <= c && c <= 'z' {
        Some((c as u32 - 'a' as u32 + 26) as u32)
    } else if '0' <= c && c <= '9' {
        Some((c as u32 - '0' as u32 + 52) as u32)
    } else if c == '+' {
        Some(62)
    } else if c == '/' {
        Some(63)
    } else {
        None
    }
}

/// The position of a character in the punctuation part of Kitty's key alphabet.
pub open spec fn punct_index(c: char) -> Option<u32> {
    if c == '.' { Some(0) }
    else if c == '-' { Some(1) }
    else if c == ':' { Some(2) }
    else if c == '+' { Some(3) }
    else if c == '=' { Some(4) }
    else if c == '^' { Some(5) }
    else if c == '!' { Some(6) }
    else if c == '/' { Some(7) }
    else if c == '*' { Some(8) }
    else if c == '?' { Some(9) }
    else if c == '&' { Some(10) }
    else if c == '<' { Some(11) }
    else if c == '>' { Some(12) }
    else if c == '(' { Some(13) }
    else if c == ')' { Some(14) }
    else if c == '[' { Some(15) }
    else if c == ']' { Some(16) }
    else if c == '{' { Some(17) }
    else if c == '}' { Some(18) }
    else if c == '@' { Some(19) }
    else if c == '%' { Some(20) }
    else if c == '$' { Some(21) }
    else if c == '#' { Some(22) }
    else { None }
}

/// The value of a character in the 85-symbol alphabet of Kitty's key field.
pub open spec fn base85_spec(c: char) -> Option<u32> {
    if 'A' <= c && c <= 'Z' {
        Some((c as u32 - 'A' as u32) as u32)
    } else if 'a' <= c && c <= 'z' {
        Some((c as u32 - 'a' as u32 + 26) as u32)
    } else if '0' <= c && c <= '9' {
        Some((c as u32 - '0' as u32 + 52) as u32)
    } else if punct_index(c) is Some {
        Some((punct_index(c)->0 + 62) as u32)
    } else {
        None
    }
}

/// The key that a finished Kitty report names, by key value; `shift` tells
/// whether SHIFT is among the modifiers.
pub open spec fn kitty_key(k: u32, shift: bool) -> KeyInput {
    if k == 0 {
        KeyInput::Codepoint(' ')
    } else if !shift && k == 1 {
        KeyInput::Codepoint('\'')
    } else if !shift && k == 2 {
        KeyInput::Codepoint(',')
    } else if !shift && k == 3 {
        KeyInput::Codepoint('-')
    } else if !shift && k == 4 {
        KeyInput::Codepoint('.')
    } else if !shift && k == 5 {
        KeyInput::Codepoint('/')
    } else if !shift && 6 <= k <= 15 {
        KeyInput::Codepoint(('0' as u32 + k - 6) as char)
    } else if !shift && k == 16 {
        KeyInput::Codepoint(';')
    } else if !shift && k == 17 {
        KeyInput::Codepoint('=')
    } else if 18 <= k <= 43 {
        if shift {
            KeyInput::Codepoint(('A' as u32 + k - 18) as char)
        } else {
            KeyInput::Codepoint(('a' as u32 + k - 18) as char)
        }
    } else if !shift && k == 44 {
        KeyInput::Codepoint('[')
    } else if !shift && k == 45 {
        KeyInput::Codepoint('\\')
    } else if !shift && k == 46 {
        KeyInput::Codepoint(']')
    } else if !shift && k == 47 {
        KeyInput::Codepoint('`')
    } else if k == 50 {
        KeyInput::Codepoint('\u{1b}')
    } else if k == 51 {
        KeyInput::Codepoint('\n')
    } else if k == 52 {
        KeyInput::Codepoint('\t')
    } else if 53 <= k <= 63 {
        KeyInput::Special(kitty_named_key(k))
    } else if 69 <= k <= 80 {
        KeyInput::Special((keys::KEY_F0 + k - 68) as i32)
    } else if 150 <= k <= 181 {
        if shift {
            KeyInput::Codepoint(('\u{410}' as u32 + k - 150) as char)
        } else {
            KeyInput::Codepoint(('\u{430}' as u32 + k - 150) as char)
        }
    } else if k == 182 {
        if shift {
            KeyInput::Codepoint('\u{401}')
        } else {
            KeyInput::Codepoint('\u{451}')
        }
    } else {
        KeyInput::Special(u32_specs::wrapping_add(k, 600) as i32)
    }
}

/// The special key of a Kitty key value from 53 to 63.
pub open spec fn kitty_named_key(k: u32) -> i32 {
    if k == 53 {
        keys::KEY_BACKSPACE
    } else if k == 54 {
        keys::KEY_IC
    } else if k == 55 {
        keys::KEY_DC
    } else if k == 56 {
        keys::KEY_RIGHT
    } else if k == 57 {
        keys::KEY_LEFT
    } else if k == 58 {
        keys::KEY_DOWN
    } else if k == 59 {
        keys::KEY_UP
    } else if k == 60 {
        keys::KEY_PPAGE
    } else if k == 61 {
        keys::KEY_NPAGE
    } else if k == 62 {
        keys::KEY_HOME
    } else {
        keys::KEY_END
    }
}

/// The event of a finished Kitty report.
pub open spec fn kitty_event(t: KeyType, m: u8, k: u32) -> Event {
    let key = kitty_key(k, Modifiers(m).spec_has_shift());
    match t {
        KeyType::Press => Event::KeyPress { modifiers: Modifiers(m), key, is_repeat: false },
        KeyType::Repeat => Event::KeyPress { modifiers: Modifiers(m), key, is_repeat: true },
        KeyType::Release => Event::KeyRelease { modifiers: Modifiers(m), key },
    }
}

/// The Kitty parser's move on one key, or `None` where the key does not
/// belong to the sequence (the state is then left as it was).
pub open spec fn kitty_spec(s: KittyState, input: KeyInput) -> Option<(KittyState, Step)> {
    match (s, input) {
        (KittyState::ParsingType, KeyInput::Codepoint(c)) => if c == 'p' {
            Some((KittyState::ParsingModifiers(KeyType::Press), Step::Continue))
        } else if c == 'r' {
            Some((KittyState::ParsingModifiers(KeyType::Release), Step::Continue))
        } else if c == 't' {
            Some((KittyState::ParsingModifiers(KeyType::Repeat), Step::Continue))
        } else {
            None
        },
        (KittyState::ParsingModifiers(t), KeyInput::Codepoint(c)) => if base64_spec(c) is Some {
            Some((KittyState::ParsingKey(t, base64_spec(c)->0 as u8, 0), Step::Continue))
        } else {
            None
        },
        (KittyState::ParsingKey(t, m, k), KeyInput::Codepoint(c)) => if base85_spec(c) is Some {
            Some((KittyState::ParsingKey(t, m, push_base85(k, base85_spec(c)->0)), Step::Continue))
        } else {
            None
        },
        (KittyState::ParsingKey(t, m, k), KeyInput::Special(code)) => if code == KITTY_END_CODE {
            Some((KittyState::Off, Step::Emit(kitty_event(t, m, k))))
        } else {
            None
        },
        _ => None,
    }
}

/// Computes `digit_spec`.
fn digit_of(c: char) -> (r: Option<u32>)
    ensures
        r == digit_spec(c),
{
    if '0' <= c && c <= '9' {
        Some(c as u32 - '0' as u32)
    } else {
        None
    }
}

/// Computes `base64_spec`.
pub fn base64_value(c: char) -> (r: Option<u32>)
    ensures
        r == base64_spec(c),
{
    if 'A' <= c && c <= 'Z' {
        Some(c as u32 - 'A' as u32)
    } else if 'a' <= c && c <= 'z' {
        Some(c as u32 - 'a' as u32 + 26)
    } else if '0' <= c && c <= '9' {
        Some(c as u32 - '0' as u32 + 52)
    } else if c == '+' {
        Some(62)
    } else if c == '/' {
        Some(63)
    } else {
        None
    }
}

/// Computes `base85_spec`.
pub fn base85_value(c: char) -> (r: Option<u32>)
    ensures
        r == base85_spec(c),
{
    if 'A' <= c && c <= 'Z' {
        return Some(c as u32 - 'A' as u32);
    } else if 'a' <= c && c <= 'z' {
        return Some(c as u32 - 'a' as u32 + 26);
    } else if '0' <= c && c <= '9' {
        return Some(c as u32 - '0' as u32 + 52);
    }
    let alphabet: [char; 23] = [
        '.', '-', ':', '+', '=', '^', '!', '/', '*', '?', '&', '<', '>', '(', ')', '[', ']', '{',
        '}', '@', '%', '$', '#',
    ];
    let mut i: usize = 0;
    while i < 23
        invariant
            0 <= i <= 23,
            alphabet@ == seq!['.', '-', ':', '+', '=', '^', '!', '/', '*', '?', '&', '<', '>', '(', ')', '[', ']', '{', '}', '@', '%', '$', '#'],
            forall|j: int| 0 <= j < i ==> alphabet@[j] != c,
            !('A' <= c && c <= 'Z') && !('a' <= c && c <= 'z') && !('0' <= c && c <= '9'),
        decreases 23 - i,
    {
        if alphabet[i] == c {
            return Some(i as u32 + 62);
        }
        i = i + 1;
    }
    None
}

/// Computes `kitty_named_key`.
fn kitty_named_key_of(k: u32) -> (r: i32)
    ensures
        r == kitty_named_key(k),
{
    if k == 53 {
        keys::KEY_BACKSPACE
    } else if k == 54 {
        keys::KEY_IC
    } else if k == 55 {
        keys::KEY_DC
    } else if k == 56 {
        keys::KEY_RIGHT
    } else if k == 57 {
        keys::KEY_LEFT
    } else if k == 58 {
        keys::KEY_DOWN
    } else if k == 59 {
        keys::KEY_UP
    } else if k == 60 {
        keys::KEY_PPAGE
    } else if k == 61 {
        keys::KEY_NPAGE
    } else if k == 62 {
        keys::KEY_HOME
    } else {
        keys::KEY_END
    }
}

/// A character whose value is known to be a scalar value.
fn scalar_char(v: u32) -> (r: char)
    requires
        is_scalar(v as int),
    ensures
        r == v as char,
{
    match char_from_u32(v) {
        Some(c) => c,
        None => ' ',
    }
}

/// Computes `kitty_key`: the key that a finished Kitty report names.
pub fn kitty_key_of(k: u32, shift: bool) -> (r: KeyInput)
    ensures
        r == kitty_key(k, shift),
{
    if k == 0 {
        KeyInput::Codepoint(' ')
    } else if !shift && k == 1 {
        KeyInput::Codepoint('\'')
    } else if !shift && k == 2 {
        KeyInput::Codepoint(',')
    } else if !shift && k == 3 {
        KeyInput::Codepoint('-')
    } else if !shift && k == 4 {
        KeyInput::Codepoint('.')
    } else if !shift && k == 5 {
        KeyInput::Codepoint('/')
    } else if !shift && 6 <= k && k <= 15 {
        KeyInput::Codepoint(scalar_char('0' as u32 + k - 6))
    } else if !shift && k == 16 {
        KeyInput::Codepoint(';')
    } else if !shift && k == 17 {
        KeyInput::Codepoint('=')
    } else if 18 <= k && k <= 43 {
        if shift {
            KeyInput::Codepoint(scalar_char('A' as u32 + k - 18))
        } else {
            KeyInput::Codepoint(scalar_char('a' as u32 + k - 18))
        }
    } else if !shift && k == 44 {
        KeyInput::Codepoint('[')
    } else if !shift && k == 45 {
        KeyInput::Codepoint('\\')
    } else if !shift && k == 46 {
        KeyInput::Codepoint(']')
    } else if !shift && k == 47 {
        KeyInput::Codepoint('`')
    } else if k == 50 {
        KeyInput::Codepoint('\u{1b}')
    } else if k == 51 {
        KeyInput::Codepoint('\n')
    } else if k == 52 {
        KeyInput::Codepoint('\t')
    } else if 53 <= k && k <= 63 {
        KeyInput::Special(kitty_named_key_of(k))
    } else if 69 <= k && k <= 80 {
        KeyInput::Special(keys::KEY_F0 + (k - 68) as i32)
    } else if 150 <= k && k <= 181 {
        if shift {
            KeyInput::Codepoint(scalar_char('\u{410}' as u32 + k - 150))
        } else {
            KeyInput::Codepoint(scalar_char('\u{430}' as u32 + k - 150))
        }
    } else if k == 182 {
        if shift {
            KeyInput::Codepoint('\u{401}')
        } else {
            KeyInput::Codepoint('\u{451}')
        }
    } else {
        KeyInput::Special(k.wrapping_add(600) as i32)
    }
}

impl XTermState {
    /// Feeds one key to the XTerm parser: `None` where the key does not
    /// belong to the sequence, the state then being left as it was.
    pub fn advance(&mut self, input: KeyInput) -> (r: Option<Step>)
        ensures
            match xterm_spec(*old(self), input) {
                Some((s, step)) => *final(self) == s && r == Some(step),
                None => *final(self) == *old(self) && r is None,
            },
    {
        match (*self, input) {
            (XTermState::ParsingMode(n), KeyInput::Codepoint(c)) => {
                if let Some(d) = digit_of(c) {
                    *self = XTermState::ParsingMode(n.wrapping_mul(10).wrapping_add(d));
                    Some(Step::Continue)
                } else if c == ';' {
                    *self = XTermState::ParsingChar(n, 0);
                    Some(Step::Continue)
                } else {
                    None
                }
            },
            (XTermState::ParsingChar(m, v), KeyInput::Codepoint(c)) => {
                if let Some(d) = digit_of(c) {
                    *self = XTermState::ParsingChar(m, v.wrapping_mul(10).wrapping_add(d));
                    Some(Step::Continue)
                } else if c == '~' {
                    *self = XTermState::Off;
                    if m == 0 {
                        Some(Step::Continue)
                    } else {
                        match char_from_u32(v) {
                            Some(ch) => Some(
                                Step::Emit(
                                    Event::KeyPress {
                                        modifiers: Modifiers((m - 1) as u8),
                                        key: KeyInput::Codepoint(ch),
                                        is_repeat: false,
                                    },
                                ),
                            ),
                            None => Some(Step::Invalid),
                        }
                    }
                } else {
                    None
                }
            },
            _ => None,
        }
    }
}

impl KittyState {
    /// Feeds one key to the Kitty parser: `None` where the key does not
    /// belong to the sequence, the state then being left as it was.
    pub fn advance(&mut self, input: KeyInput) -> (r: Option<Step>)
        ensures
            match kitty_spec(*old(self), input) {
                Some((s, step)) => *final(self) == s && r == Some(step),
                None => *final(self) == *old(self) && r is None,
            },
    {
        match (*self, input) {
            (KittyState::ParsingType, KeyInput::Codepoint(c)) => {
                let t = if c == 'p' {
                    KeyType::Press
                } else if c == 'r' {
                    KeyType::Release
                } else if c == 't' {
                    KeyType::Repeat
                } else {
                    return None;
                };
                *self = KittyState::ParsingModifiers(t);
                Some(Step::Continue)
            },
            (KittyState::ParsingModifiers(t), KeyInput::Codepoint(c)) => {
                match base64_value(c) {
                    Some(m) => {
                        *self = KittyState::ParsingKey(t, m as u8, 0);
                        Some(Step::Continue)
                    },
                    None => None,
                }
            },
            (KittyState::ParsingKey(t, m, k), KeyInput::Codepoint(c)) => {
                match base85_value(c) {
                    Some(v) => {
                        *self = KittyState::ParsingKey(t, m, k.wrapping_mul(85).wrapping_add(v));
                        Some(Step::Continue)
                    },
                    None => None,
                }
            },
            (KittyState::ParsingKey(t, m, k), KeyInput::Special(code)) => {
                if code == KITTY_END_CODE {
                    *self = KittyState::Off;
                    let modifiers = Modifiers(m);
                    let key = kitty_key_of(k, modifiers.has_shift());
                    let e = match t {
                        KeyType::Press => Event::KeyPress { modifiers, key, is_repeat: false },
                        KeyType::Repeat => Event::KeyPress { modifiers, key, is_repeat: true },
                        KeyType::Release => Event::KeyRelease { modifiers, key },
                    };
                    Some(Step::Emit(e))
                } else {
                    None
                }
            },
            _ => None,
        }
    }
}

} // verus!
