//! The fixed translation passes: shifted keys, control characters, the
//! synthetic Alt-prefix and XTerm-grid codes, suspend keys and the Kitty key
//! table.
use vstd::prelude::*;

use crate::event::{press, Event, KeyInput, Modifiers, Step, ALT_BIT, CTRL_BIT, SHIFT_BIT};
use crate::keys;

verus! {

/// Private code bound to the bracketed-paste start marker.
pub const PASTE_BEGIN_CODE: i32 = 2000;

/// Private code bound to the bracketed-paste end marker.
pub const PASTE_END_CODE: i32 = 2001;

/// Private code bound to the XTerm modify-keys introducer.
pub const XTERM_ENTRY_CODE: i32 = 2100;

/// Private code bound to the Kitty full-mode introducer.
pub const KITTY_ENTRY_CODE: i32 = 2200;

/// Private code bound to the Kitty full-mode terminator.
pub const KITTY_END_CODE: i32 = 2201;

/// First code of the synthetic XTerm modifier-by-key grid.
pub const GRID_BASE: i32 = 2300;

/// Base of the synthetic Alt-prefix codes (`ESC <byte>` is bound to this plus the byte).
pub const ALT_PREFIX_BASE: i32 = 3000;

/// The unshifted key of a shifted special key code.
pub open spec fn shifted_base(code: i32) -> Option<KeyInput> {
    if code == keys::KEY_SLEFT {
        Some(KeyInput::Special(keys::KEY_LEFT))
    } else if code == keys::KEY_SRIGHT {
        Some(KeyInput::Special(keys::KEY_RIGHT))
    } else if code == keys::KEY_SR {
        Some(KeyInput::Special(keys::KEY_UP))
    } else if code == keys::KEY_SF {
        Some(KeyInput::Special(keys::KEY_DOWN))
    } else if code == keys::KEY_SHOME {
        Some(KeyInput::Special(keys::KEY_HOME))
    } else if code == keys::KEY_SEND {
        Some(KeyInput::Special(keys::KEY_END))
    } else if code == keys::KEY_SDC {
        Some(KeyInput::Special(keys::KEY_DC))
    } else if code == keys::KEY_BTAB {
        Some(KeyInput::Codepoint('\t'))
    } else if code == keys::KEY_SBEG {
        Some(KeyInput::Special(keys::KEY_BEG))
    } else if code == keys::KEY_SCANCEL {
        Some(KeyInput::Special(keys::KEY_CANCEL))
    } else if code == keys::KEY_SCOMMAND {
        Some(KeyInput::Special(keys::KEY_COMMAND))
    } else if code == keys::KEY_SCOPY {
        Some(KeyInput::Special(keys::KEY_COPY))
    } else if code == keys::KEY_SCREATE {
        Some(KeyInput::Special(keys::KEY_CREATE))
    } else if code == keys::KEY_SDL {
        Some(KeyInput::Special(keys::KEY_DL))
    } else if code == keys::KEY_SEOL {
        Some(KeyInput::Special(keys::KEY_EOL))
    } else if code == keys::KEY_SEXIT {
        Some(KeyInput::Special(keys::KEY_EXIT))
    } else if code == keys::KEY_SFIND {
        Some(KeyInput::Special(keys::KEY_FIND))
    } else if code == keys::KEY_SHELP {
        Some(KeyInput::Special(keys::KEY_HELP))
    } else if code == keys::KEY_SIC {
        Some(KeyInput::Special(keys::KEY_IC))
    } else if code == keys::KEY_SMESSAGE {
        Some(KeyInput::Special(keys::KEY_MESSAGE))
    } else if code == keys::KEY_SMOVE {
        Some(KeyInput::Special(keys::KEY_MOVE))
    } else if code == keys::KEY_SNEXT {
        Some(KeyInput::Special(keys::KEY_NEXT))
    } else if code == keys::KEY_SOPTIONS {
        Some(KeyInput::Special(keys::KEY_OPTIONS))
    } else if code == keys::KEY_SPREVIOUS {
        Some(KeyInput::Special(keys::KEY_PREVIOUS))
    } else if code == keys::KEY_SPRINT {
        Some(KeyInput::Special(keys::KEY_PRINT))
    } else if code == keys::KEY_SREDO {
        Some(KeyInput::Special(keys::KEY_REDO))
    } else if code == keys::KEY_SREPLACE {
        Some(KeyInput::Special(keys::KEY_REPLACE))
    } else if code == keys::KEY_SRSUME {
        Some(KeyInput::Special(keys::KEY_RESUME))
    } else if code == keys::KEY_SSAVE {
        Some(KeyInput::Special(keys::KEY_SAVE))
    } else if code == keys::KEY_SUNDO {
        Some(KeyInput::Special(keys::KEY_UNDO))
    } else {
        None
    }
}

/// Computes `shifted_base`.
pub fn shifted_base_of(code: i32) -> (r: Option<KeyInput>)
    ensures
        r == shifted_base(code),
{
    if code == keys::KEY_SLEFT {
        Some(KeyInput::Special(keys::KEY_LEFT))
    } else if code == keys::KEY_SRIGHT {
        Some(KeyInput::Special(keys::KEY_RIGHT))
    } else if code == keys::KEY_SR {
        Some(KeyInput::Special(keys::KEY_UP))
    } else if code == keys::KEY_SF {
        Some(KeyInput::Special(keys::KEY_DOWN))
    } else if code == keys::KEY_SHOME {
        Some(KeyInput::Special(keys::KEY_HOME))
    } else if code == keys::KEY_SEND {
        Some(KeyInput::Special(keys::KEY_END))
    } else if code == keys::KEY_SDC {
        Some(KeyInput::Special(keys::KEY_DC))
    } else if code == keys::KEY_BTAB {
        Some(KeyInput::Codepoint('\t'))
    } else if code == keys::KEY_SBEG {
        Some(KeyInput::Special(keys::KEY_BEG))
    } else if code == keys::KEY_SCANCEL {
        Some(KeyInput::Special(keys::KEY_CANCEL))
    } else if code == keys::KEY_SCOMMAND {
        Some(KeyInput::Special(keys::KEY_COMMAND))
    } else if code == keys::KEY_SCOPY {
        Some(KeyInput::Special(keys::KEY_COPY))
    } else if code == keys::KEY_SCREATE {
        Some(KeyInput::Special(keys::KEY_CREATE))
    } else if code == keys::KEY_SDL {
        Some(KeyInput::Special(keys::KEY_DL))
    } else if code == keys::KEY_SEOL {
        Some(KeyInput::Special(keys::KEY_EOL))
    } else if code == keys::KEY_SEXIT {
        Some(KeyInput::Special(keys::KEY_EXIT))
    } else if code == keys::KEY_SFIND {
        Some(KeyInput::Special(keys::KEY_FIND))
    } else if code == keys::KEY_SHELP {
        Some(KeyInput::Special(keys::KEY_HELP))
    } else if code == keys::KEY_SIC {
        Some(KeyInput::Special(keys::KEY_IC))
    } else if code == keys::KEY_SMESSAGE {
        Some(KeyInput::Special(keys::KEY_MESSAGE))
    } else if code == keys::KEY_SMOVE {
        Some(KeyInput::Special(keys::KEY_MOVE))
    } else if code == keys::KEY_SNEXT {
        Some(KeyInput::Special(keys::KEY_NEXT))
    } else if code == keys::KEY_SOPTIONS {
        Some(KeyInput::Special(keys::KEY_OPTIONS))
    } else if code == keys::KEY_SPREVIOUS {
        Some(KeyInput::Special(keys::KEY_PREVIOUS))
    } else if code == keys::KEY_SPRINT {
        Some(KeyInput::Special(keys::KEY_PRINT))
    } else if code == keys::KEY_SREDO {
        Some(KeyInput::Special(keys::KEY_REDO))
    } else if code == keys::KEY_SREPLACE {
        Some(KeyInput::Special(keys::KEY_REPLACE))
    } else if code == keys::KEY_SRSUME {
        Some(KeyInput::Special(keys::KEY_RESUME))
    } else if code == keys::KEY_SSAVE {
        Some(KeyInput::Special(keys::KEY_SAVE))
    } else if code == keys::KEY_SUNDO {
        Some(KeyInput::Special(keys::KEY_UNDO))
    } else {
        None
    }
}

/// The key of a synthetic XTerm-grid slot (the code's last decimal digit).
pub open spec fn grid_key(slot: int) -> Option<i32> {
    if slot == 0 {
        Some(keys::KEY_UP)
    } else if slot == 1 {
        Some(keys::KEY_DOWN)
    } else if slot == 2 {
        Some(keys::KEY_RIGHT)
    } else if slot == 3 {
        Some(keys::KEY_LEFT)
    } else if slot == 4 {
        Some(keys::KEY_HOME)
    } else if slot == 5 {
        Some(keys::KEY_END)
    } else if slot == 6 {
        Some(keys::KEY_PPAGE)
    } else if slot == 7 {
        Some(keys::KEY_NPAGE)
    } else if slot == 8 {
        Some(keys::KEY_DC)
    } else {
        None
    }
}

/// The event of a synthetic Alt-prefix code (3001 to 3255).
pub open spec fn alt_prefix_event(code: i32) -> Event {
    let b = code - ALT_PREFIX_BASE;
    if code < 3027 && code != 3008 && code != 3009 && code != 3013 {
        press(CTRL_BIT | ALT_BIT, KeyInput::Codepoint((b + 96) as char))
    } else if code == 3013 {
        press(ALT_BIT, KeyInput::Codepoint('\n'))
    } else {
        press(ALT_BIT, KeyInput::Codepoint(b as char))
    }
}

/// The event that a control character stands for, if any.
pub open spec fn control_event(v: u32) -> Option<Event> {
    if v == 0x7f {
        Some(press(0, KeyInput::Special(keys::KEY_BACKSPACE)))
    } else if v == 0 {
        Some(press(CTRL_BIT, KeyInput::Codepoint(' ')))
    } else if 0 < v < 27 && v != 9 && v != 10 && v != 8 {
        Some(press(CTRL_BIT, KeyInput::Codepoint((v + 96) as char)))
    } else if 128 < v < 155 {
        Some(press(CTRL_BIT | ALT_BIT, KeyInput::Codepoint((v - 32) as char)))
    } else {
        None
    }
}

/// The fixed outcome of a special code, if it has one.
pub open spec fn special_step(code: i32) -> Option<Step> {
    if code == keys::KEY_RESIZE {
        Some(Step::NeedSize)
    } else if code == keys::KEY_MOUSE {
        Some(Step::NeedMouse)
    } else if code == PASTE_BEGIN_CODE {
        Some(Step::Emit(Event::PasteBegin))
    } else if code == PASTE_END_CODE {
        Some(Step::Emit(Event::PasteEnd))
    } else if shifted_base(code) is Some {
        Some(Step::Emit(press(SHIFT_BIT, shifted_base(code)->0)))
    } else if code == keys::KEY_SUSPEND {
        Some(Step::Emit(press(CTRL_BIT, KeyInput::Codepoint('z'))))
    } else if code == keys::KEY_SSUSPEND {
        Some(Step::Emit(press(CTRL_BIT | SHIFT_BIT, KeyInput::Codepoint('z'))))
    } else if 3001 <= code <= 3255 {
        Some(Step::Emit(alt_prefix_event(code)))
    } else if 2300 <= code <= 2399 && grid_key((code - GRID_BASE) % 10) is Some {
        Some(
            Step::Emit(
                press(
                    ((code - GRID_BASE) / 10) as u8,
                    KeyInput::Special(grid_key((code - GRID_BASE) % 10)->0),
                ),
            ),
        )
    } else {
        None
    }
}

/// The fixed passes: what a unit decodes to regardless of learned bindings
/// and protocol state, if anything.
pub open spec fn fixed_spec(input: KeyInput) -> Option<Step> {
    match input {
        KeyInput::Special(code) => special_step(code),
        KeyInput::Codepoint(ch) => match control_event(ch as u32) {
            Some(e) => Some(Step::Emit(e)),
            None => None,
        },
        KeyInput::Byte(_) => None,
    }
}

/// Computes `grid_key`.
fn grid_key_of(slot: i32) -> (r: Option<i32>)
    ensures
        r == grid_key(slot as int),
{
    if slot == 0 {
        Some(keys::KEY_UP)
    } else if slot == 1 {
        Some(keys::KEY_DOWN)
    } else if slot == 2 {
        Some(keys::KEY_RIGHT)
    } else if slot == 3 {
        Some(keys::KEY_LEFT)
    } else if slot == 4 {
        Some(keys::KEY_HOME)
    } else if slot == 5 {
        Some(keys::KEY_END)
    } else if slot == 6 {
        Some(keys::KEY_PPAGE)
    } else if slot == 7 {
        Some(keys::KEY_NPAGE)
    } else if slot == 8 {
        Some(keys::KEY_DC)
    } else {
        None
    }
}

/// Computes `special_step`.
pub fn special_step_of(code: i32) -> (r: Option<Step>)
    ensures
        r == special_step(code),
{
    if code == keys::KEY_RESIZE {
        return Some(Step::NeedSize);
    } else if code == keys::KEY_MOUSE {
        return Some(Step::NeedMouse);
    } else if code == PASTE_BEGIN_CODE {
        return Some(Step::Emit(Event::PasteBegin));
    } else if code == PASTE_END_CODE {
        return Some(Step::Emit(Event::PasteEnd));
    }
    if let Some(base) = shifted_base_of(code) {
        return Some(Step::Emit(Event::KeyPress { modifiers: Modifiers(SHIFT_BIT), key: base, is_repeat: false }));
    }
    if code == keys::KEY_SUSPEND {
        Some(Step::Emit(Event::KeyPress { modifiers: Modifiers(CTRL_BIT), key: KeyInput::Codepoint('z'), is_repeat: false }))
    } else if code == keys::KEY_SSUSPEND {
        Some(Step::Emit(Event::KeyPress { modifiers: Modifiers(CTRL_BIT | SHIFT_BIT), key: KeyInput::Codepoint('z'), is_repeat: false }))
    } else if 3001 <= code && code <= 3255 {
        let b = code - ALT_PREFIX_BASE;
        let e = if code < 3027 && code != 3008 && code != 3009 && code != 3013 {
            Event::KeyPress { modifiers: Modifiers(CTRL_BIT | ALT_BIT), key: KeyInput::Codepoint(((b + 96) as u8) as char), is_repeat: false }
        } else if code == 3013 {
            Event::KeyPress { modifiers: Modifiers(ALT_BIT), key: KeyInput::Codepoint('\n'), is_repeat: false }
        } else {
            Event::KeyPress { modifiers: Modifiers(ALT_BIT), key: KeyInput::Codepoint((b as u8) as char), is_repeat: false }
        };
        Some(Step::Emit(e))
    } else if 2300 <= code && code <= 2399 {
        let base = code - GRID_BASE;
        match grid_key_of(base % 10) {
            Some(k) => Some(Step::Emit(Event::KeyPress { modifiers: Modifiers((base / 10) as u8), key: KeyInput::Special(k), is_repeat: false })),
            None => None,
        }
    } else {
        None
    }
}

/// Computes `fixed_spec`.
pub fn translate_fixed(input: KeyInput) -> (r: Option<Step>)
    ensures
        r == fixed_spec(input),
{
    match input {
        KeyInput::Special(code) => special_step_of(code),
        KeyInput::Codepoint(ch) => {
            let v = ch as u32;
            if v == 0x7f {
                Some(Step::Emit(Event::KeyPress { modifiers: Modifiers(0), key: KeyInput::Special(keys::KEY_BACKSPACE), is_repeat: false }))
            } else if v == 0 {
                Some(Step::Emit(Event::KeyPress { modifiers: Modifiers(CTRL_BIT), key: KeyInput::Codepoint(' '), is_repeat: false }))
            } else if 0 < v && v < 27 && v != 9 && v != 10 && v != 8 {
                Some(Step::Emit(Event::KeyPress { modifiers: Modifiers(CTRL_BIT), key: KeyInput::Codepoint(((v + 96) as u8) as char), is_repeat: false }))
            } else if 128 < v && v < 155 {
                Some(Step::Emit(Event::KeyPress { modifiers: Modifiers(CTRL_BIT | ALT_BIT), key: KeyInput::Codepoint(((v - 32) as u8) as char), is_repeat: false }))
            } else {
                None
            }
        },
        KeyInput::Byte(_) => None,
    }
}

} // verus!
