use std::collections::HashMap;

use terminal_input::keys::{KEY_DC, KEY_DOWN, KEY_LEFT, KEY_NPAGE, KEY_PPAGE, KEY_RIGHT, KEY_SLEFT, KEY_SRIGHT, KEY_UP};
use terminal_input::plan::{alt_prefix_bindings, catalog_names, xterm_grid_bindings, xterm_paging_bindings};
use terminal_input::{
    BracketedPaste, Event, InputStream, KeyError, KeyInput, KittyFullMode, Modifiers, Step,
    TerminalBackend, XTermModifyOtherKeys, Recorder,
};

/// A terminal whose answers are set up in advance and whose requests are recorded.
#[derive(Default)]
struct Scripted {
    supports_binding: bool,
    bindings: HashMap<Vec<u8>, i32>,
    terminfo: HashMap<Vec<u8>, Vec<u8>>,
    written: Vec<Vec<u8>>,
    delay_overridden: bool,
    delay: Option<i32>,
    resize_queued: bool,
}

impl TerminalBackend for Scripted {
    fn set_input_modes(&mut self) {}
    fn key_code_for(&mut self, definition: &Vec<u8>) -> Result<i32, KeyError> {
        if !self.supports_binding {
            return Err(KeyError::NotSupported);
        }
        self.bindings.get(definition).copied().ok_or(KeyError::NotDefined)
    }
    fn define_key_code(&mut self, definition: &Vec<u8>, code: i32) -> Result<(), ()> {
        if !self.supports_binding {
            return Err(());
        }
        self.bindings.insert(definition.clone(), code);
        Ok(())
    }
    fn get_terminfo_string(&mut self, name: &Vec<u8>) -> Option<Vec<u8>> {
        self.terminfo.get(name).cloned()
    }
    fn write_raw(&mut self, data: &Vec<u8>) -> bool {
        self.written.push(data.clone());
        true
    }
    fn escape_delay_overridden(&mut self) -> bool {
        self.delay_overridden
    }
    fn set_escape_delay(&mut self, ms: i32) {
        self.delay = Some(ms);
    }
    fn push_resize(&mut self) {
        self.resize_queued = true;
    }
}

fn xterm_like() -> Scripted {
    let mut b = Scripted { supports_binding: true, ..Default::default() };
    for (s, c) in [
        (&b"\x1bOA"[..], KEY_UP),
        (b"\x1bOB", KEY_DOWN),
        (b"\x1bOC", KEY_RIGHT),
        (b"\x1bOD", KEY_LEFT),
        (b"\x1b[1;2C", KEY_SRIGHT),
        (b"\x1b[1;2D", KEY_SLEFT),
        (b"\x1b[3~", KEY_DC),
        (b"\x1b[5~", KEY_PPAGE),
        (b"\x1b[6~", KEY_NPAGE),
    ] {
        b.bindings.insert(s.to_vec(), c);
    }
    b
}


/// Negotiates through a recorder and hands the backend back.
fn init(b: &mut Scripted) -> InputStream {
    let mut rec = Recorder::new(std::mem::take(b));
    let s = InputStream::init(&mut rec);
    *b = rec.into_inner();
    s
}

fn shutdown(s: InputStream, b: &mut Scripted) {
    let mut rec = Recorder::new(std::mem::take(b));
    s.shutdown(&mut rec);
    *b = rec.into_inner();
}

#[test]
fn negotiation_without_support_is_idempotent() {
    for _ in 0..2 {
        let mut b = Scripted::default();
        let s = init(&mut b);
        assert!(s.extra_bound_keys().is_empty());
        assert_eq!(s.active_guard_count(), 0);
        assert!(b.written.is_empty());
        assert!(b.resize_queued);
    }
}

#[test]
fn negotiation_enables_protocols_when_reservations_succeed() {
    let mut b = Scripted { supports_binding: true, ..Default::default() };
    let s = init(&mut b);
    assert_eq!(s.active_guard_count(), 3);
    assert_eq!(b.bindings.get(&b"\x1b[200~"[..]), Some(&2000));
    assert_eq!(b.bindings.get(&b"\x1b[201~"[..]), Some(&2001));
    assert_eq!(b.bindings.get(&b"\x1b[27;"[..]), Some(&2100));
    assert_eq!(b.bindings.get(&b"\x1b_K"[..]), Some(&2200));
    assert_eq!(b.bindings.get(&b"\x1b\\"[..]), Some(&2201));
    assert_eq!(
        b.written,
        vec![b"\x1b[?2004h".to_vec(), b"\x1b[>4;2m".to_vec(), b"\x1b[?2017h".to_vec()]
    );
    assert_eq!(b.delay, Some(25));
    shutdown(s, &mut b);
    assert_eq!(&b.written[3..], &[b"\x1b[?2004l".to_vec(), b"\x1b[>4n".to_vec(), b"\x1b[?2017l".to_vec()]);
}

#[test]
fn negotiation_keeps_an_explicit_escape_delay() {
    let mut b = Scripted { delay_overridden: true, ..Default::default() };
    let _ = init(&mut b);
    assert_eq!(b.delay, None);
}

#[test]
fn negotiation_binds_alt_prefix() {
    let mut b = Scripted { supports_binding: true, ..Default::default() };
    let _ = init(&mut b);
    assert_eq!(b.bindings.get(&b"\x1ba"[..]), Some(&3097));
    assert_eq!(b.bindings.get(&b"\x1b\x01"[..]), Some(&3001));
    assert_eq!(b.bindings.get(&b"\x1b!"[..]), None);
    // No family was recognised.
    assert_eq!(b.bindings.get(&b"\x1b[1;5A"[..]), None);
}

#[test]
fn negotiation_does_not_override_existing_bindings() {
    let mut b = Scripted { supports_binding: true, ..Default::default() };
    b.bindings.insert(b"\x1bq".to_vec(), 42);
    let _ = init(&mut b);
    assert_eq!(b.bindings.get(&b"\x1bq"[..]), Some(&42));
}

#[test]
fn negotiation_extends_xterm_family() {
    let mut b = xterm_like();
    let _ = init(&mut b);
    assert_eq!(b.bindings.get(&b"\x1b[1;5A"[..]), Some(&2340));
    assert_eq!(b.bindings.get(&b"\x1b[1;3F"[..]), Some(&2325));
    assert_eq!(b.bindings.get(&b"\x1b[1;2F"[..]), None);
    assert_eq!(b.bindings.get(&b"\x1b[1;8H"[..]), Some(&2374));
    assert_eq!(b.bindings.get(&b"\x1b[3;3~"[..]), Some(&2328));
    assert_eq!(b.bindings.get(&b"\x1b[6;8~"[..]), Some(&2377));
    // rxvt forms are left alone.
    assert_eq!(b.bindings.get(&b"\x1bOa"[..]), None);
}

#[test]
fn negotiation_extends_rxvt_family() {
    let mut b = Scripted { supports_binding: true, ..Default::default() };
    for (s, c) in [
        (&b"\x1b[A"[..], KEY_UP),
        (b"\x1b[B", KEY_DOWN),
        (b"\x1b[C", KEY_RIGHT),
        (b"\x1b[D", KEY_LEFT),
        (b"\x1b[c", KEY_SRIGHT),
        (b"\x1b[d", KEY_SLEFT),
        (b"\x1b[3~", KEY_DC),
    ] {
        b.bindings.insert(s.to_vec(), c);
    }
    let mut s = init(&mut b);
    assert_eq!(b.bindings.get(&b"\x1bOa"[..]), Some(&2340));
    assert_eq!(b.bindings.get(&b"\x1b\x1bOd"[..]), Some(&2363));
    assert_eq!(b.bindings.get(&b"\x1b\x1b[B"[..]), Some(&2321));
    assert_eq!(b.bindings.get(&b"\x1b\x1b[c"[..]), Some(&2332));
    assert_eq!(b.bindings.get(&b"\x1b[3^"[..]), Some(&2348));
    assert_eq!(b.bindings.get(&b"\x1b\x1b[3^"[..]), Some(&2368));
    assert_eq!(b.bindings.get(&b"\x1b[1;5A"[..]), None);
    // The codes decode to the modifiers they were built for.
    assert_eq!(
        s.feed(2340),
        Step::Emit(Event::KeyPress { modifiers: Modifiers(4), key: KeyInput::Special(KEY_UP), is_repeat: false })
    );
    assert_eq!(
        s.feed(2332),
        Step::Emit(Event::KeyPress { modifiers: Modifiers(3), key: KeyInput::Special(KEY_RIGHT), is_repeat: false })
    );
}

#[test]
fn negotiation_learns_terminfo_keys_in_catalog_order() {
    let mut b = Scripted { supports_binding: true, ..Default::default() };
    b.terminfo.insert(b"kUP3".to_vec(), b"\x1b[1;3A".to_vec());
    b.terminfo.insert(b"kDC8".to_vec(), b"\x1b[3;8~".to_vec());
    b.terminfo.insert(b"kNXT4".to_vec(), b"\x1b[6;4~".to_vec());
    b.bindings.insert(b"\x1b[1;3A".to_vec(), 600);
    b.bindings.insert(b"\x1b[3;8~".to_vec(), 601);
    let s = init(&mut b);
    let alt_up = Event::KeyPress { modifiers: Modifiers(2), key: KeyInput::Special(KEY_UP), is_repeat: false };
    let all_dc = Event::KeyPress { modifiers: Modifiers(7), key: KeyInput::Special(KEY_DC), is_repeat: false };
    assert_eq!(s.extra_bound_keys(), &vec![(601, all_dc), (600, alt_up)]);
}

#[test]
fn catalog_lists_every_modifier_of_every_key() {
    let names = catalog_names();
    assert_eq!(names.len(), 54);
    assert_eq!(names[0], b"kDC3".to_vec());
    assert_eq!(names[11], b"kLFT8".to_vec());
    assert_eq!(names[53], b"kNXT8".to_vec());
}

#[test]
fn binding_tables() {
    let grid = xterm_grid_bindings();
    assert_eq!(grid.len(), 36);
    assert_eq!(grid[0], (b"\x1b[1;3A".to_vec(), 2320));
    assert_eq!(grid[35], (b"\x1b[1;8F".to_vec(), 2375));
    let paging = xterm_paging_bindings();
    assert_eq!(paging.len(), 18);
    assert_eq!(paging[1], (b"\x1b[5;3~".to_vec(), 2326));
    let alt = alt_prefix_bindings();
    assert_eq!(alt.len(), 88);
    assert_eq!(alt[26], (b"\x1b0".to_vec(), 3048));
    assert_eq!(alt[87], (b"\x1bz".to_vec(), 3122));
}

#[test]
fn guard_sequences() {
    assert_eq!(BracketedPaste::enable_sequence(), b"\x1b[?2004h".to_vec());
    assert_eq!(XTermModifyOtherKeys::disable_sequence(), b"\x1b[>4n".to_vec());
    assert_eq!(KittyFullMode::enable_sequence(), b"\x1b[?2017h".to_vec());
}

#[test]
fn negotiation_treats_unsupported_lookups_as_free() {
    // Lookups are not supported but definitions are.
    #[derive(Default)]
    struct DefineOnly {
        defined: Vec<(Vec<u8>, i32)>,
    }
    impl TerminalBackend for DefineOnly {
        fn set_input_modes(&mut self) {}
        fn key_code_for(&mut self, _definition: &Vec<u8>) -> Result<i32, KeyError> {
            Err(KeyError::NotSupported)
        }
        fn define_key_code(&mut self, definition: &Vec<u8>, code: i32) -> Result<(), ()> {
            self.defined.push((definition.clone(), code));
            Ok(())
        }
        fn get_terminfo_string(&mut self, _name: &Vec<u8>) -> Option<Vec<u8>> {
            None
        }
        fn write_raw(&mut self, _data: &Vec<u8>) -> bool {
            false
        }
        fn escape_delay_overridden(&mut self) -> bool {
            false
        }
        fn set_escape_delay(&mut self, _ms: i32) {}
        fn push_resize(&mut self) {}
    }
    let mut rec = Recorder::new(DefineOnly::default());
    let s = InputStream::init(&mut rec);
    // The enable writes failed, so no guard is live.
    assert_eq!(s.active_guard_count(), 0);
    let b = rec.into_inner();
    assert!(b.defined.contains(&(b"\x1bz".to_vec(), 3122)));
}

#[test]
fn key_query_results() {
    assert_eq!(terminal_input::key_result(0), Err(KeyError::NotDefined));
    assert_eq!(terminal_input::key_result(-1), Err(KeyError::PrefixConflict));
    assert_eq!(terminal_input::key_result(259), Ok(259));
}
