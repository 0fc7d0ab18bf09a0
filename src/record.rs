//! A record of the calls made to a terminal backend, with the answer to each.
//! The negotiation reaches the backend only through a `Recorder`, so its
//! contracts can speak of what it asked and what the terminal answered.
use vstd::prelude::*;

use crate::backend::{KeyError, TerminalBackend};

verus! {

/// One call to the backend and the answer it gave.
pub enum Call {
    SetInputModes,
    /// `key_code_for(definition)` and its answer.
    KeyCodeFor(Seq<u8>, Result<i32, KeyError>),
    /// `define_key_code(definition, code)` and its answer.
    Define(Seq<u8>, i32, Result<(), ()>),
    /// `get_terminfo_string(name)` and its answer.
    Terminfo(Seq<u8>, Option<Seq<u8>>),
    /// `write_raw(data)` and its answer.
    Write(Seq<u8>, bool),
    /// `escape_delay_overridden()` and its answer.
    EscapeDelayOverridden(bool),
    /// `set_escape_delay(ms)`.
    SetEscapeDelay(i32),
    PushResize,
}

/// The answer of a `key_code_for` call.
pub open spec fn lookup_answer(c: Call) -> Result<i32, KeyError> {
    match c {
        Call::KeyCodeFor(_, a) => a,
        _ => Err(KeyError::NotDefined),
    }
}

/// The answer of a `define_key_code` call.
pub open spec fn define_answer(c: Call) -> Result<(), ()> {
    match c {
        Call::Define(_, _, a) => a,
        _ => Err(()),
    }
}

/// The answer of a `get_terminfo_string` call.
pub open spec fn terminfo_answer(c: Call) -> Option<Seq<u8>> {
    match c {
        Call::Terminfo(_, a) => a,
        _ => None,
    }
}

/// The answer of an `escape_delay_overridden` call.
pub open spec fn overridden_answer(c: Call) -> bool {
    match c {
        Call::EscapeDelayOverridden(a) => a,
        _ => false,
    }
}

/// The bytes of an optional byte vector.
pub open spec fn bytes_view(r: Option<Vec<u8>>) -> Option<Seq<u8>> {
    match r {
        Some(d) => Some(d@),
        None => None,
    }
}

/// `new` continues `old`: the calls of `old`, then more.
pub open spec fn extends(old: Seq<Call>, new: Seq<Call>) -> bool {
    old.len() <= new.len() && new.take(old.len() as int) == old
}

/// The calls that `new` adds to `old`.
pub open spec fn added(old: Seq<Call>, new: Seq<Call>) -> Seq<Call> {
    new.skip(old.len() as int)
}

/// The calls of each part, one part after the other.
pub open spec fn concat_all(parts: Seq<Seq<Call>>) -> Seq<Call>
    decreases parts.len(),
{
    if parts.len() == 0 {
        seq![]
    } else {
        concat_all(parts.drop_last()) + parts.last()
    }
}

/// A backend with the record of every call made to it through this wrapper.
#[verifier::reject_recursive_types(B)]
pub struct Recorder<B> {
    backend: B,
    log: Ghost<Seq<Call>>,
}

impl<B: TerminalBackend> Recorder<B> {
    /// The calls made so far, oldest first.
    pub closed spec fn log(&self) -> Seq<Call> {
        self.log@
    }

    /// Wraps `backend`, with no call recorded.
    pub fn new(backend: B) -> (r: Recorder<B>)
        ensures
            r.log() == Seq::<Call>::empty(),
    {
        Recorder { backend, log: Ghost(Seq::empty()) }
    }

    /// The wrapped backend, for reading.
    pub fn backend(&self) -> &B {
        &self.backend
    }

    /// Gives the wrapped backend back.
    pub fn into_inner(self) -> B {
        self.backend
    }

    pub fn set_input_modes(&mut self)
        ensures
            final(self).log() == old(self).log().push(Call::SetInputModes),
    {
        self.backend.set_input_modes();
        self.log = Ghost(self.log@.push(Call::SetInputModes));
    }

    pub fn key_code_for(&mut self, definition: &Vec<u8>) -> (r: Result<i32, KeyError>)
        ensures
            final(self).log() == old(self).log().push(Call::KeyCodeFor(definition@, r)),
    {
        let r = self.backend.key_code_for(definition);
        self.log = Ghost(self.log@.push(Call::KeyCodeFor(definition@, r)));
        r
    }

    pub fn define_key_code(&mut self, definition: &Vec<u8>, code: i32) -> (r: Result<(), ()>)
        ensures
            final(self).log() == old(self).log().push(Call::Define(definition@, code, r)),
    {
        let r = self.backend.define_key_code(definition, code);
        self.log = Ghost(self.log@.push(Call::Define(definition@, code, r)));
        r
    }

    pub fn get_terminfo_string(&mut self, name: &Vec<u8>) -> (r: Option<Vec<u8>>)
        ensures
            final(self).log() == old(self).log().push(
                Call::Terminfo(name@, bytes_view(r)),
            ),
    {
        let r = self.backend.get_terminfo_string(name);
        self.log = Ghost(
            self.log@.push(
                Call::Terminfo(name@, bytes_view(r)),
            ),
        );
        r
    }

    pub fn write_raw(&mut self, data: &Vec<u8>) -> (r: bool)
        ensures
            final(self).log() == old(self).log().push(Call::Write(data@, r)),
    {
        let r = self.backend.write_raw(data);
        self.log = Ghost(self.log@.push(Call::Write(data@, r)));
        r
    }

    pub fn escape_delay_overridden(&mut self) -> (r: bool)
        ensures
            final(self).log() == old(self).log().push(Call::EscapeDelayOverridden(r)),
    {
        let r = self.backend.escape_delay_overridden();
        self.log = Ghost(self.log@.push(Call::EscapeDelayOverridden(r)));
        r
    }

    pub fn set_escape_delay(&mut self, ms: i32)
        ensures
            final(self).log() == old(self).log().push(Call::SetEscapeDelay(ms)),
    {
        self.backend.set_escape_delay(ms);
        self.log = Ghost(self.log@.push(Call::SetEscapeDelay(ms)));
    }

    pub fn push_resize(&mut self)
        ensures
            final(self).log() == old(self).log().push(Call::PushResize),
    {
        self.backend.push_resize();
        self.log = Ghost(self.log@.push(Call::PushResize));
    }
}

} // verus!
