//! The terminal backend: the capability interface through which the library
//! reaches the terminal. Nothing is assumed of what its methods return; the
//! library calls them through `record::Recorder`, which records each answer.
use vstd::prelude::*;

verus! {

/// Why an escape sequence has no key code.
#[derive(Clone, Copy, Debug, PartialEq, Eq, Structural)]
pub enum KeyError {
    /// The sequence is not bound.
    NotDefined,
    /// The sequence is a prefix of, or extends, another binding.
    PrefixConflict,
    /// The backend cannot bind sequences at all.
    NotSupported,
}

/// The meaning of the integer that a key-code query returns: 0 when the
/// sequence is not bound, -1 when it conflicts with a binding, the key code
/// otherwise.
pub open spec fn key_result_spec(ret: i32) -> Result<i32, KeyError> {
    if ret == 0 {
        Err(KeyError::NotDefined)
    } else if ret == -1 {
        Err(KeyError::PrefixConflict)
    } else {
        Ok(ret)
    }
}

/// Reads the integer that a key-code query returns (see `key_result_spec`).
pub fn key_result(ret: i32) -> (r: Result<i32, KeyError>)
    ensures
        r == key_result_spec(ret),
{
    if ret == 0 {
        Err(KeyError::NotDefined)
    } else if ret == -1 {
        Err(KeyError::PrefixConflict)
    } else {
        Ok(ret)
    }
}

/// The operations of a terminal that the negotiation needs.
pub trait TerminalBackend {
    /// Puts the terminal in raw, no-echo, keypad input mode and asks for all mouse events.
    fn set_input_modes(&mut self);

    /// The key code currently bound to the escape sequence `definition`.
    fn key_code_for(&mut self, definition: &Vec<u8>) -> Result<i32, KeyError>;

    /// Binds the escape sequence `definition` to `code`.
    fn define_key_code(&mut self, definition: &Vec<u8>, code: i32) -> Result<(), ()>;

    /// The terminfo string capability called `name`, if the terminal has it.
    fn get_terminfo_string(&mut self, name: &Vec<u8>) -> Option<Vec<u8>>;

    /// Sends `data` to the terminal; `true` when all of it was written.
    fn write_raw(&mut self, data: &Vec<u8>) -> bool;

    /// Whether the escape-disambiguation delay was set from outside.
    fn escape_delay_overridden(&mut self) -> bool;

    /// Sets the escape-disambiguation delay, in milliseconds.
    fn set_escape_delay(&mut self, ms: i32);

    /// Queues a resize notification as the next input unit.
    fn push_resize(&mut self);
}

} // verus!
