//! Reassembly of UTF-8 encoded characters, one byte at a time.
use vstd::prelude::*;

verus! {

/// What one byte does to the reassembly.
#[derive(Clone, Copy, Debug, PartialEq, Eq, Structural)]
pub enum Utf8Outcome {
    /// The last byte of a character arrived; the value is not yet known to be a scalar value.
    Complete(u32),
    /// The byte belongs to no valid sequence and is passed through.
    Raw(u8),
    /// More continuation bytes are expected.
    NeedMore,
}

/// A partially received character: the bits gathered so far and the number
/// of continuation bytes still expected.
#[derive(Clone, Copy, Debug, PartialEq, Eq, Structural)]
pub struct Utf8State {
    pub partial: u32,
    pub remaining: usize,
}

/// Classification of a lead byte: its payload bits and how many
/// continuation bytes follow it, or `None` for a byte that cannot lead.
pub open spec fn lead_spec(b: u8) -> Option<(u32, usize)> {
    if b >> 7u8 == 0 {
        Some(((b & 0x7f) as u32, 0))
    } else if b >> 5u8 == 6 {
        Some(((b & 0x1f) as u32, 1))
    } else if b >> 4u8 == 14 {
        Some(((b & 0x0f) as u32, 2))
    } else if b >> 3u8 == 30 {
        Some(((b & 0x07) as u32, 3))
    } else {
        None
    }
}

pub open spec fn is_continuation(b: u8) -> bool {
    b >> 6u8 == 2
}

/// The accumulator after folding in one continuation byte.
pub open spec fn fold_continuation(partial: u32, b: u8) -> u32 {
    (partial << 6u32) | ((b & 0x3f) as u32)
}

/// The transition of the reassembler on one byte. A byte that cannot
/// continue the sequence in progress abandons it and is passed through as a
/// raw byte; it is not read again as a lead byte.
pub open spec fn utf8_spec(s: Utf8State, b: u8) -> (Utf8State, Utf8Outcome) {
    if s.remaining == 0 {
        match lead_spec(b) {
            Some((p, n)) => if n == 0 {
                (Utf8State { partial: p, remaining: 0 }, Utf8Outcome::Complete(p))
            } else {
                (Utf8State { partial: p, remaining: n }, Utf8Outcome::NeedMore)
            },
            None => (s, Utf8Outcome::Raw(b)),
        }
    } else if is_continuation(b) {
        let p = fold_continuation(s.partial, b);
        if s.remaining == 1 {
            (Utf8State { partial: p, remaining: 0 }, Utf8Outcome::Complete(p))
        } else {
            (Utf8State { partial: p, remaining: (s.remaining - 1) as usize }, Utf8Outcome::NeedMore)
        }
    } else {
        // A byte that cannot continue the sequence abandons it.
        (Utf8State { partial: s.partial, remaining: 0 }, Utf8Outcome::Raw(b))
    }
}

/// Whether `v` is a Unicode scalar value.
pub open spec fn is_scalar(v: int) -> bool {
    0 <= v <= 0x10FFFF && !(0xD800 <= v <= 0xDFFF)
}

/// Relies on `char::from_u32`: `Some` exactly for Unicode scalar values, with
/// the character of that value.
#[verifier::external_body]
pub(crate) fn char_from_u32(v: u32) -> (r: Option<char>)
    ensures
        r == (if is_scalar(v as int) { Some(v as char) } else { None::<char> }),
{
    char::from_u32(v)
}

impl Utf8State {
    /// The state with no character in progress.
    pub fn new() -> (r: Utf8State)
        ensures
            r.partial == 0,
            r.remaining == 0,
    {
        Utf8State { partial: 0, remaining: 0 }
    }

    /// Feeds one byte to the reassembler.
    pub fn push(&mut self, b: u8) -> (r: Utf8Outcome)
        ensures
            (*final(self), r) == utf8_spec(*old(self), b),
    {
        if self.remaining == 0 {
            if b >> 7u8 == 0 {
                self.partial = (b & 0x7f) as u32;
                Utf8Outcome::Complete(self.partial)
            } else if b >> 5u8 == 6 {
                self.partial = (b & 0x1f) as u32;
                self.remaining = 1;
                Utf8Outcome::NeedMore
            } else if b >> 4u8 == 14 {
                self.partial = (b & 0x0f) as u32;
                self.remaining = 2;
                Utf8Outcome::NeedMore
            } else if b >> 3u8 == 30 {
                self.partial = (b & 0x07) as u32;
                self.remaining = 3;
                Utf8Outcome::NeedMore
            } else {
                Utf8Outcome::Raw(b)
            }
        } else if b >> 6u8 == 2 {
            self.partial = (self.partial << 6u32) | ((b & 0x3f) as u32);
            self.remaining = self.remaining - 1;
            if self.remaining == 0 {
                Utf8Outcome::Complete(self.partial)
            } else {
                Utf8Outcome::NeedMore
            }
        } else {
            self.remaining = 0;
            Utf8Outcome::Raw(b)
        }
    }
}

} // verus!
