use std::collections::HashMap;

use terminal_input::keys::{
    BUTTON_ALT, BUTTON_CTRL, BUTTON_SHIFT, KEY_BACKSPACE, KEY_BTAB, KEY_DC, KEY_F0, KEY_LEFT,
    KEY_MOUSE, KEY_NPAGE, KEY_RESIZE, KEY_SLEFT, KEY_SSUSPEND, KEY_SUSPEND, KEY_UP,
};
use terminal_input::{
    mouse_event, resize_event, Event, InputStream, KeyError, KeyInput, Modifiers, Step,
    Recorder, TerminalBackend,
};

/// A terminal that knows nothing and binds nothing, unless told.
#[derive(Default)]
struct Scripted {
    bindings: HashMap<Vec<u8>, i32>,
    terminfo: HashMap<Vec<u8>, Vec<u8>>,
}

impl TerminalBackend for Scripted {
    fn set_input_modes(&mut self) {}
    fn key_code_for(&mut self, definition: &Vec<u8>) -> Result<i32, KeyError> {
        self.bindings.get(definition).copied().ok_or(KeyError::NotDefined)
    }
    fn define_key_code(&mut self, _definition: &Vec<u8>, _code: i32) -> Result<(), ()> {
        Err(())
    }
    fn get_terminfo_string(&mut self, name: &Vec<u8>) -> Option<Vec<u8>> {
        self.terminfo.get(name).cloned()
    }
    fn write_raw(&mut self, _data: &Vec<u8>) -> bool {
        true
    }
    fn escape_delay_overridden(&mut self) -> bool {
        true
    }
    fn set_escape_delay(&mut self, _ms: i32) {}
    fn push_resize(&mut self) {}
}

fn stream() -> InputStream {
    init(&mut Scripted::default())
}

fn feed_all(s: &mut InputStream, units: &[i32]) -> Vec<Step> {
    units.iter().map(|&u| s.feed(u)).collect()
}

fn press(bits: u8, key: KeyInput) -> Step {
    Step::Emit(Event::KeyPress { modifiers: Modifiers(bits), key, is_repeat: false })
}

fn chars(text: &str) -> Vec<i32> {
    text.chars().map(|c| c as i32).collect()
}


/// Negotiates through a recorder and hands the backend back.
fn init(b: &mut Scripted) -> InputStream {
    let mut rec = Recorder::new(std::mem::take(b));
    let s = InputStream::init(&mut rec);
    *b = rec.into_inner();
    s
}

#[test]
fn utf8_round_trip_each_length() {
    for c in ['a', '~', 'é', 'ж', '€', '語', '😀', '\u{10FFFF}'] {
        let mut s = stream();
        let mut buf = [0u8; 4];
        let units: Vec<i32> = c.encode_utf8(&mut buf).bytes().map(|b| b as i32).collect();
        let steps = feed_all(&mut s, &units);
        let (last, rest) = steps.split_last().unwrap();
        assert!(rest.iter().all(|st| *st == Step::Continue), "{:?}", c);
        assert_eq!(*last, press(0, KeyInput::Codepoint(c)));
    }
}

#[test]
fn malformed_lead_byte() {
    let mut s = stream();
    assert_eq!(feed_all(&mut s, &[0xC0, 0x41]), vec![Step::Continue, press(0, KeyInput::Byte(0x41))]);
    // The abandoned sequence does not swallow what follows.
    assert_eq!(s.feed(0x62), press(0, KeyInput::Codepoint('b')));
}

#[test]
fn invalid_lead_byte_passes_through() {
    let mut s = stream();
    assert_eq!(s.feed(0xFF), press(0, KeyInput::Byte(0xFF)));
    assert_eq!(s.feed(0x80), press(0, KeyInput::Byte(0x80)));
}

#[test]
fn surrogate_is_a_decode_error() {
    let mut s = stream();
    // ED A0 80 would be U+D800.
    assert_eq!(feed_all(&mut s, &[0xED, 0xA0, 0x80]), vec![Step::Continue, Step::Continue, Step::Invalid]);
    assert_eq!(s.feed(0x61), press(0, KeyInput::Codepoint('a')));
}

#[test]
fn control_heuristic() {
    let mut s = stream();
    assert_eq!(s.feed(0x01), press(4, KeyInput::Codepoint('a')));
    assert_eq!(s.feed(0x00), press(4, KeyInput::Codepoint(' ')));
    assert_eq!(s.feed(0x7F), press(0, KeyInput::Special(KEY_BACKSPACE)));
    assert_eq!(s.feed(0x1A), press(4, KeyInput::Codepoint('z')));
    assert_eq!(s.feed(0x09), press(0, KeyInput::Codepoint('\t')));
    assert_eq!(s.feed(0x0A), press(0, KeyInput::Codepoint('\n')));
    assert_eq!(s.feed(0x08), press(0, KeyInput::Codepoint('\u{8}')));
    // U+0081, two bytes, is Ctrl+Alt+a.
    assert_eq!(feed_all(&mut s, &[0xC2, 0x81]), vec![Step::Continue, press(6, KeyInput::Codepoint('a'))]);
}

#[test]
fn xterm_modify_keys() {
    let mut s = stream();
    let mut units = vec![2100];
    units.extend(chars("5;97~"));
    let steps = feed_all(&mut s, &units);
    assert_eq!(steps[..5], [Step::Continue; 5]);
    assert_eq!(steps[5], press(4, KeyInput::Codepoint('a')));
}

#[test]
fn xterm_modify_keys_mode_zero_yields_nothing() {
    let mut s = stream();
    let mut units = vec![2100];
    units.extend(chars("0;97~"));
    assert!(feed_all(&mut s, &units).iter().all(|st| *st == Step::Continue));
    assert_eq!(s.feed('x' as i32), press(0, KeyInput::Codepoint('x')));
}

#[test]
fn xterm_modify_keys_abort_falls_through() {
    let mut s = stream();
    assert_eq!(s.feed(2100), Step::Continue);
    assert_eq!(s.feed('x' as i32), press(0, KeyInput::Codepoint('x')));
}

#[test]
fn kitty_full_mode_press() {
    let mut s = stream();
    let mut units = vec![2200];
    units.extend(chars("pAS"));
    units.push(2201);
    let steps = feed_all(&mut s, &units);
    assert_eq!(steps[..4], [Step::Continue; 4]);
    assert_eq!(steps[4], press(0, KeyInput::Codepoint('a')));
}

#[test]
fn kitty_full_mode_release_repeat_and_shift() {
    let mut s = stream();
    let mut units = vec![2200];
    units.extend(chars("rBS"));
    units.push(2201);
    assert_eq!(
        *feed_all(&mut s, &units).last().unwrap(),
        Step::Emit(Event::KeyRelease { modifiers: Modifiers(1), key: KeyInput::Codepoint('A') })
    );
    let mut units = vec![2200];
    units.extend(chars("tEz"));
    units.push(2201);
    // 'z' is 51: Newline, with Ctrl.
    assert_eq!(
        *feed_all(&mut s, &units).last().unwrap(),
        Step::Emit(Event::KeyPress { modifiers: Modifiers(4), key: KeyInput::Codepoint('\n'), is_repeat: true })
    );
}

#[test]
fn kitty_full_mode_multi_digit_keys() {
    let mut s = stream();
    // "Bu" = 1 * 85 + 46 = 131: unmapped, offset by 600.
    let mut units = vec![2200];
    units.extend(chars("pABu"));
    units.push(2201);
    assert_eq!(*feed_all(&mut s, &units).last().unwrap(), press(0, KeyInput::Special(731)));
    // "CA" = 170: the Cyrillic letter twenty after 'а'.
    let mut units = vec![2200];
    units.extend(chars("pACA"));
    units.push(2201);
    assert_eq!(*feed_all(&mut s, &units).last().unwrap(), press(0, KeyInput::Codepoint('ф')));
    // '.' = 62 is Home; '/' = 69 is F1.
    let mut units = vec![2200];
    units.extend(chars("pA."));
    units.push(2201);
    assert_eq!(*feed_all(&mut s, &units).last().unwrap(), press(0, KeyInput::Special(terminal_input::keys::KEY_HOME)));
    let mut units = vec![2200];
    units.extend(chars("pA/"));
    units.push(2201);
    assert_eq!(*feed_all(&mut s, &units).last().unwrap(), press(0, KeyInput::Special(KEY_F0 + 1)));
}

#[test]
fn kitty_shifted_punctuation_is_special() {
    let mut s = stream();
    let mut units = vec![2200];
    units.extend(chars("pBB"));
    units.push(2201);
    assert_eq!(*feed_all(&mut s, &units).last().unwrap(), press(1, KeyInput::Special(601)));
}

#[test]
fn resize() {
    let mut s = stream();
    assert_eq!(s.feed(KEY_RESIZE), Step::NeedSize);
    assert_eq!(resize_event(80, 24), Event::Resize { width: 80, height: 24 });
}

#[test]
fn mouse() {
    let mut s = stream();
    assert_eq!(s.feed(KEY_MOUSE), Step::NeedMouse);
    assert_eq!(
        mouse_event(3, 10, 20, 0x4 | BUTTON_CTRL | BUTTON_SHIFT),
        Event::Mouse { device_id: 3, x: 10, y: 20, buttons: 0x4, modifiers: Modifiers(5) }
    );
    assert_eq!(
        mouse_event(0, 1, 2, BUTTON_ALT),
        Event::Mouse { device_id: 0, x: 1, y: 2, buttons: 0, modifiers: Modifiers(2) }
    );
}

#[test]
fn paste_markers() {
    let mut s = stream();
    assert_eq!(s.feed(2000), Step::Emit(Event::PasteBegin));
    assert_eq!(s.feed(2001), Step::Emit(Event::PasteEnd));
}

#[test]
fn shifted_special_keys() {
    let mut s = stream();
    assert_eq!(s.feed(KEY_SLEFT), press(1, KeyInput::Special(KEY_LEFT)));
    assert_eq!(s.feed(KEY_BTAB), press(1, KeyInput::Codepoint('\t')));
    assert_eq!(s.feed(KEY_SUSPEND), press(4, KeyInput::Codepoint('z')));
    assert_eq!(s.feed(KEY_SSUSPEND), press(5, KeyInput::Codepoint('z')));
    assert_eq!(s.feed(KEY_UP), press(0, KeyInput::Special(KEY_UP)));
}

#[test]
fn alt_prefix_codes() {
    let mut s = stream();
    assert_eq!(s.feed(3001), press(6, KeyInput::Codepoint('a')));
    assert_eq!(s.feed(3013), press(2, KeyInput::Codepoint('\n')));
    assert_eq!(s.feed(3009), press(2, KeyInput::Codepoint('\t')));
    assert_eq!(s.feed(3000 + 'x' as i32), press(2, KeyInput::Codepoint('x')));
    assert_eq!(s.feed(3000 + '7' as i32), press(2, KeyInput::Codepoint('7')));
}

#[test]
fn xterm_grid_codes() {
    let mut s = stream();
    assert_eq!(s.feed(2353), press(5, KeyInput::Special(KEY_LEFT)));
    assert_eq!(s.feed(2328), press(2, KeyInput::Special(KEY_DC)));
    assert_eq!(s.feed(2377), press(7, KeyInput::Special(KEY_NPAGE)));
    assert_eq!(s.feed(2309), press(0, KeyInput::Special(2309)));
}

#[test]
fn learned_bindings_come_first() {
    let mut b = Scripted::default();
    b.terminfo.insert(b"kLFT5".to_vec(), b"\x1b[1;5D".to_vec());
    b.bindings.insert(b"\x1b[1;5D".to_vec(), KEY_RESIZE);
    let mut s = init(&mut b);
    assert_eq!(s.extra_bound_keys().len(), 1);
    assert_eq!(s.feed(KEY_RESIZE), press(4, KeyInput::Special(KEY_LEFT)));
}

#[test]
fn protocol_entry_codes_come_before_learned_bindings() {
    let mut b = Scripted::default();
    b.terminfo.insert(b"kUP3".to_vec(), b"\x1b[1;3A".to_vec());
    b.bindings.insert(b"\x1b[1;3A".to_vec(), 2100);
    let mut s = init(&mut b);
    assert_eq!(s.extra_bound_keys().len(), 1);
    assert_eq!(s.feed(2100), Step::Continue);
    assert_eq!(feed_all(&mut s, &chars("3;98~")).last(), Some(&press(2, KeyInput::Codepoint('b'))));
}

#[test]
fn xterm_modify_keys_invalid_character_code() {
    let mut s = stream();
    let mut units = vec![2100];
    units.extend(chars("2;55296~"));
    assert_eq!(*feed_all(&mut s, &units).last().unwrap(), Step::Invalid);
    assert_eq!(s.feed('1' as i32), press(0, KeyInput::Codepoint('1')));
}

#[test]
fn modifier_sets() {
    assert_eq!(Modifiers::none(), Modifiers(0));
    assert_eq!(Modifiers::ctrl().union(Modifiers::alt()), Modifiers(6));
    assert_eq!(Modifiers::shift().union(Modifiers::shift()), Modifiers::shift());
    assert!(Modifiers(5).has_shift());
    assert!(!Modifiers::ctrl().has_shift());
}
