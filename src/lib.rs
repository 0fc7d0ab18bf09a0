//! Decoding of raw terminal input units into typed input events.
//!
//! The library holds the decoding engine (UTF-8 reassembly, the ordered
//! translation passes and the two in-band escape-protocol parsers) and the
//! decisions of the startup capability negotiation. The terminal itself is
//! reached through the [`TerminalBackend`] capability interface.
use vstd::prelude::*;

pub mod event;
pub mod backend;
pub mod record;
pub mod keys;
pub mod utf8;
pub mod translate;
pub mod protocol;
pub mod decoder;
pub mod plan;
pub mod negotiate;
pub mod stream;
pub mod laws;

pub use backend::{key_result, KeyError, TerminalBackend};
pub use record::Recorder;
pub use event::{Event, KeyInput, Modifiers, Step};
pub use stream::{mouse_event, resize_event, BracketedPaste, InputStream, KittyFullMode, XTermModifyOtherKeys};
