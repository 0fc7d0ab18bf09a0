//! The input stream: the protocol guards, the learned bindings and the
//! decoder state of one terminal session, and the capability negotiation
//! that creates it.
use vstd::prelude::*;

use crate::backend::TerminalBackend;
use crate::decoder::{decode_spec, idle, Decoder};
use crate::negotiate::{
    catalog_calls, catalog_code, catalog_codes, catalog_entry_calls, define_all_calls,
    define_all_if_necessary, delay_calls, extend_family, family_calls, family_log,
    protocol_calls, reservation_calls, reservations_granted, reserve_all, write_answer,
    FamilyRecord, ESCAPE_DELAY_MS,
};
use crate::record::{added, concat_all, Call, Recorder};
use crate::event::{Event, Modifiers, Step, ALT_BIT, CTRL_BIT, SHIFT_BIT};
use crate::keys::{BUTTON_ALT, BUTTON_CTRL, BUTTON_SHIFT};
use crate::plan::{
    alt_prefix_bindings, alt_prefix_spec, catalog_name, catalog_names, delete_probes,
    delete_probes_spec, grid_spec, kitty_reservations, kitty_reservations_spec, learned,
    learned_bindings, paging_probes, paging_probes_spec, paging_spec, paste_reservations,
    paste_reservations_spec, rxvt_bindings, rxvt_bindings_spec, rxvt_delete_bindings,
    rxvt_delete_bindings_spec, rxvt_probes, rxvt_probes_spec, xterm_grid_bindings,
    xterm_paging_bindings, xterm_probes, xterm_probes_spec, xterm_reservations,
    xterm_reservations_spec, CATALOG_LEN,
};

verus! {

/// Bracketed paste is enabled on the terminal for as long as this guard lives.
#[derive(Debug)]
pub struct BracketedPaste {
    _priv: (),
}

/// XTerm modify-other-keys is enabled on the terminal for as long as this guard lives.
#[derive(Debug)]
pub struct XTermModifyOtherKeys {
    _priv: (),
}

/// Kitty full keyboard mode is enabled on the terminal for as long as this guard lives.
#[derive(Debug)]
pub struct KittyFullMode {
    _priv: (),
}

impl BracketedPaste {
    /// `ESC [ ? 2 0 0 4 h`
    pub open spec fn enable_spec() -> Seq<u8> {
        seq![27, 91, 63, 50, 48, 48, 52, 104]
    }

    /// `ESC [ ? 2 0 0 4 l`
    pub open spec fn disable_spec() -> Seq<u8> {
        seq![27, 91, 63, 50, 48, 48, 52, 108]
    }

    /// The sequence that turns bracketed paste on.
    pub fn enable_sequence() -> (r: Vec<u8>)
        ensures
            r@ == Self::enable_spec(),
    {
        let r = vec![27, 91, 63, 50, 48, 48, 52, 104];
        assert(r@ =~= Self::enable_spec());
        r
    }

    /// The sequence that turns bracketed paste off.
    pub fn disable_sequence() -> (r: Vec<u8>)
        ensures
            r@ == Self::disable_spec(),
    {
        let r = vec![27, 91, 63, 50, 48, 48, 52, 108];
        assert(r@ =~= Self::disable_spec());
        r
    }

    /// Sends the enable sequence, once; the guard exists exactly when it was written.
    pub fn start<B: TerminalBackend>(rec: &mut Recorder<B>) -> (r: Option<BracketedPaste>)
        ensures
            final(rec).log() == old(rec).log().push(Call::Write(Self::enable_spec(), r is Some)),
    {
        if rec.write_raw(&Self::enable_sequence()) {
            Some(BracketedPaste { _priv: () })
        } else {
            None
        }
    }

    /// Sends the disable sequence, once, as the guard ends.
    pub fn release<B: TerminalBackend>(self, rec: &mut Recorder<B>)
        ensures
            released(old(rec).log(), final(rec).log(), Self::disable_spec()),
    {
        let ghost l0 = rec.log();
        let _ = rec.write_raw(&Self::disable_sequence());
        assert(rec.log().drop_last() =~= l0);
    }
}

impl XTermModifyOtherKeys {
    /// `ESC [ > 4 ; 2 m`
    pub open spec fn enable_spec() -> Seq<u8> {
        seq![27, 91, 62, 52, 59, 50, 109]
    }

    /// `ESC [ > 4 n`
    pub open spec fn disable_spec() -> Seq<u8> {
        seq![27, 91, 62, 52, 110]
    }

    /// The sequence that turns modify-other-keys on.
    pub fn enable_sequence() -> (r: Vec<u8>)
        ensures
            r@ == Self::enable_spec(),
    {
        let r = vec![27, 91, 62, 52, 59, 50, 109];
        assert(r@ =~= Self::enable_spec());
        r
    }

    /// The sequence that turns modify-other-keys off.
    pub fn disable_sequence() -> (r: Vec<u8>)
        ensures
            r@ == Self::disable_spec(),
    {
        let r = vec![27, 91, 62, 52, 110];
        assert(r@ =~= Self::disable_spec());
        r
    }

    /// Sends the enable sequence, once; the guard exists exactly when it was written.
    pub fn start<B: TerminalBackend>(rec: &mut Recorder<B>) -> (r: Option<XTermModifyOtherKeys>)
        ensures
            final(rec).log() == old(rec).log().push(Call::Write(Self::enable_spec(), r is Some)),
    {
        if rec.write_raw(&Self::enable_sequence()) {
            Some(XTermModifyOtherKeys { _priv: () })
        } else {
            None
        }
    }

    /// Sends the disable sequence, once, as the guard ends.
    pub fn release<B: TerminalBackend>(self, rec: &mut Recorder<B>)
        ensures
            released(old(rec).log(), final(rec).log(), Self::disable_spec()),
    {
        let ghost l0 = rec.log();
        let _ = rec.write_raw(&Self::disable_sequence());
        assert(rec.log().drop_last() =~= l0);
    }
}

impl KittyFullMode {
    /// `ESC [ ? 2 0 1 7 h`
    pub open spec fn enable_spec() -> Seq<u8> {
        seq![27, 91, 63, 50, 48, 49, 55, 104]
    }

    /// `ESC [ ? 2 0 1 7 l`
    pub open spec fn disable_spec() -> Seq<u8> {
        seq![27, 91, 63, 50, 48, 49, 55, 108]
    }

    /// The sequence that turns Kitty full mode on.
    pub fn enable_sequence() -> (r: Vec<u8>)
        ensures
            r@ == Self::enable_spec(),
    {
        let r = vec![27, 91, 63, 50, 48, 49, 55, 104];
        assert(r@ =~= Self::enable_spec());
        r
    }

    /// The sequence that turns Kitty full mode off.
    pub fn disable_sequence() -> (r: Vec<u8>)
        ensures
            r@ == Self::disable_spec(),
    {
        let r = vec![27, 91, 63, 50, 48, 49, 55, 108];
        assert(r@ =~= Self::disable_spec());
        r
    }

    /// Sends the enable sequence, once; the guard exists exactly when it was written.
    pub fn start<B: TerminalBackend>(rec: &mut Recorder<B>) -> (r: Option<KittyFullMode>)
        ensures
            final(rec).log() == old(rec).log().push(Call::Write(Self::enable_spec(), r is Some)),
    {
        if rec.write_raw(&Self::enable_sequence()) {
            Some(KittyFullMode { _priv: () })
        } else {
            None
        }
    }

    /// Sends the disable sequence, once, as the guard ends.
    pub fn release<B: TerminalBackend>(self, rec: &mut Recorder<B>)
        ensures
            released(old(rec).log(), final(rec).log(), Self::disable_spec()),
    {
        let ghost l0 = rec.log();
        let _ = rec.write_raw(&Self::disable_sequence());
        assert(rec.log().drop_last() =~= l0);
    }
}

/// The event of a resize to the size the backend reported.
pub open spec fn resize_spec(width: i32, height: i32) -> Event {
    Event::Resize { width: width as u32, height: height as u32 }
}

/// The modifier bits that a mouse button state carries.
pub open spec fn mouse_modifiers(bstate: u32) -> u8 {
    (if bstate & BUTTON_CTRL != 0 { CTRL_BIT } else { 0u8 }) | (if bstate & BUTTON_ALT != 0 {
        ALT_BIT
    } else {
        0u8
    }) | (if bstate & BUTTON_SHIFT != 0 { SHIFT_BIT } else { 0u8 })
}

/// The event of a mouse report: the modifier flags are taken out of the
/// button state and reported as modifiers.
pub open spec fn mouse_spec(device_id: i16, x: i32, y: i32, bstate: u32) -> Event {
    Event::Mouse {
        device_id: device_id as u16,
        x: x as u32,
        y: y as u32,
        buttons: bstate & !(BUTTON_CTRL | BUTTON_ALT | BUTTON_SHIFT),
        modifiers: Modifiers(mouse_modifiers(bstate)),
    }
}

/// Builds the event of a resize, from the size that the backend reports
/// after `Step::NeedSize`.
pub fn resize_event(width: i32, height: i32) -> (r: Event)
    ensures
        r == resize_spec(width, height),
{
    Event::Resize { width: width as u32, height: height as u32 }
}

/// Builds the event of a mouse report, from the state that the backend
/// reports after `Step::NeedMouse`.
pub fn mouse_event(device_id: i16, x: i32, y: i32, bstate: u32) -> (r: Event)
    ensures
        r == mouse_spec(device_id, x, y, bstate),
{
    let ctrl: u8 = if bstate & BUTTON_CTRL != 0 { CTRL_BIT } else { 0u8 };
    let alt: u8 = if bstate & BUTTON_ALT != 0 { ALT_BIT } else { 0u8 };
    let shift: u8 = if bstate & BUTTON_SHIFT != 0 { SHIFT_BIT } else { 0u8 };
    Event::Mouse {
        device_id: device_id as u16,
        x: x as u32,
        y: y as u32,
        buttons: bstate & !(BUTTON_CTRL | BUTTON_ALT | BUTTON_SHIFT),
        modifiers: Modifiers(ctrl | alt | shift),
    }
}

/// `new` is `old` and one write of `disable`.
pub open spec fn released(old: Seq<Call>, new: Seq<Call>, disable: Seq<u8>) -> bool {
    new.len() == old.len() + 1 && new.drop_last() == old && new.last() == Call::Write(
        disable,
        write_answer(new.last()),
    )
}

/// The disable sequences of the live guards, in teardown order.
pub open spec fn teardown_writes(live: (bool, bool, bool)) -> Seq<Seq<u8>> {
    (if live.0 {
        seq![BracketedPaste::disable_spec()]
    } else {
        seq![]
    }) + (if live.1 {
        seq![XTermModifyOtherKeys::disable_spec()]
    } else {
        seq![]
    }) + (if live.2 {
        seq![KittyFullMode::disable_spec()]
    } else {
        seq![]
    })
}

/// The calls of a negotiation, step by step.
pub struct Negotiation {
    pub paste: Seq<Call>,
    pub xterm: Seq<Call>,
    pub kitty: Seq<Call>,
    pub delay: Seq<Call>,
    pub catalog: Seq<Seq<Call>>,
    pub rxvt_family: FamilyRecord,
    pub xterm_family: FamilyRecord,
    pub alt_prefix: Seq<Seq<Call>>,
}

/// All calls of a negotiation, in order: input modes first and the queued
/// resize last.
pub open spec fn negotiation_log(n: Negotiation) -> Seq<Call> {
    seq![Call::SetInputModes] + n.paste + n.xterm + n.kitty + n.delay + concat_all(n.catalog)
        + family_log(n.rxvt_family) + family_log(n.xterm_family) + concat_all(n.alt_prefix) + seq![
        Call::PushResize,
    ]
}

/// The state of one terminal session's input.
pub struct InputStream {
    bracketed_paste: Option<BracketedPaste>,
    xterm_modify_keys: Option<XTermModifyOtherKeys>,
    kitty_full_mode: Option<KittyFullMode>,
    extra_bound_keys: Vec<(i32, Event)>,
    decoder: Decoder,
    negotiation: Ghost<Negotiation>,
}

/// What the negotiation that made `r` did, step by step, over the answers the
/// terminal gave: each protocol's guard is live exactly when its
/// reservations and its enable write succeeded; the escape delay is set
/// exactly when not given from outside; the learned bindings are what the
/// catalog capabilities resolved to; each family's bindings are made, where
/// free, exactly when its probes matched; the Alt-prefix bindings are made
/// where free; nothing is in progress in the decoder.
pub open spec fn negotiated(r: InputStream) -> bool {
    let n = r.negotiation();
    &&& r.state() == idle()
    &&& protocol_calls(paste_reservations_spec(), BracketedPaste::enable_spec(), n.paste, r.live_guards().0)
    &&& protocol_calls(xterm_reservations_spec(), XTermModifyOtherKeys::enable_spec(), n.xterm, r.live_guards().1)
    &&& protocol_calls(kitty_reservations_spec(), KittyFullMode::enable_spec(), n.kitty, r.live_guards().2)
    &&& delay_calls(n.delay)
    &&& catalog_calls(n.catalog)
    &&& r.bindings() == learned(catalog_codes(n.catalog))
    &&& family_calls(rxvt_probes_spec(), rxvt_bindings_spec(), delete_probes_spec(), rxvt_delete_bindings_spec(), n.rxvt_family)
    &&& family_calls(xterm_probes_spec(), grid_spec(), paging_probes_spec(), paging_spec(), n.xterm_family)
    &&& define_all_calls(alt_prefix_spec(), n.alt_prefix)
}

proof fn lemma_protocol_granted(plan: Seq<(Seq<u8>, i32)>, enable: Seq<u8>, res: Seq<Call>, live: bool)
    requires
        reservation_calls(plan, res),
        reservations_granted(plan, res),
    ensures
        protocol_calls(plan, enable, res.push(Call::Write(enable, live)), live),
{
    assert(res.push(Call::Write(enable, live)).drop_last() =~= res);
}

proof fn lemma_protocol_refused(plan: Seq<(Seq<u8>, i32)>, enable: Seq<u8>, res: Seq<Call>)
    requires
        reservation_calls(plan, res),
        !reservations_granted(plan, res),
    ensures
        protocol_calls(plan, enable, res, false),
{
    if res.len() > 0 {
        assert(res[res.len() - 1] == Call::Define(
            plan[res.len() - 1].0,
            plan[res.len() - 1].1,
            crate::record::define_answer(res[res.len() - 1]),
        ));
    }
}

/// Reserves the sequences of one protocol and, if all were bound, starts it.
fn start_bracketed_paste<B: TerminalBackend>(rec: &mut Recorder<B>) -> (r: (Option<BracketedPaste>, Ghost<Seq<Call>>))
    ensures
        final(rec).log() == old(rec).log() + r.1@,
        protocol_calls(paste_reservations_spec(), BracketedPaste::enable_spec(), r.1@, r.0 is Some),
{
    let ghost l = rec.log();
    let granted = reserve_all(rec, &paste_reservations());
    let ghost res = added(l, rec.log());
    let guard = if granted {
        BracketedPaste::start(rec)
    } else {
        None
    };
    let ghost seg = added(l, rec.log());
    proof {
        if granted {
            assert(seg =~= res.push(Call::Write(BracketedPaste::enable_spec(), guard is Some)));
            lemma_protocol_granted(paste_reservations_spec(), BracketedPaste::enable_spec(), res, guard is Some);
        } else {
            assert(seg =~= res);
            lemma_protocol_refused(paste_reservations_spec(), BracketedPaste::enable_spec(), res);
        }
        assert(rec.log() =~= l + seg);
    }
    (guard, Ghost(seg))
}

/// Reserves the sequences of one protocol and, if all were bound, starts it.
fn start_xterm_modify_keys<B: TerminalBackend>(rec: &mut Recorder<B>) -> (r: (Option<XTermModifyOtherKeys>, Ghost<Seq<Call>>))
    ensures
        final(rec).log() == old(rec).log() + r.1@,
        protocol_calls(xterm_reservations_spec(), XTermModifyOtherKeys::enable_spec(), r.1@, r.0 is Some),
{
    let ghost l = rec.log();
    let granted = reserve_all(rec, &xterm_reservations());
    let ghost res = added(l, rec.log());
    let guard = if granted {
        XTermModifyOtherKeys::start(rec)
    } else {
        None
    };
    let ghost seg = added(l, rec.log());
    proof {
        if granted {
            assert(seg =~= res.push(Call::Write(XTermModifyOtherKeys::enable_spec(), guard is Some)));
            lemma_protocol_granted(xterm_reservations_spec(), XTermModifyOtherKeys::enable_spec(), res, guard is Some);
        } else {
            assert(seg =~= res);
            lemma_protocol_refused(xterm_reservations_spec(), XTermModifyOtherKeys::enable_spec(), res);
        }
        assert(rec.log() =~= l + seg);
    }
    (guard, Ghost(seg))
}

/// Reserves the sequences of one protocol and, if all were bound, starts it.
fn start_kitty_full_mode<B: TerminalBackend>(rec: &mut Recorder<B>) -> (r: (Option<KittyFullMode>, Ghost<Seq<Call>>))
    ensures
        final(rec).log() == old(rec).log() + r.1@,
        protocol_calls(kitty_reservations_spec(), KittyFullMode::enable_spec(), r.1@, r.0 is Some),
{
    let ghost l = rec.log();
    let granted = reserve_all(rec, &kitty_reservations());
    let ghost res = added(l, rec.log());
    let guard = if granted {
        KittyFullMode::start(rec)
    } else {
        None
    };
    let ghost seg = added(l, rec.log());
    proof {
        if granted {
            assert(seg =~= res.push(Call::Write(KittyFullMode::enable_spec(), guard is Some)));
            lemma_protocol_granted(kitty_reservations_spec(), KittyFullMode::enable_spec(), res, guard is Some);
        } else {
            assert(seg =~= res);
            lemma_protocol_refused(kitty_reservations_spec(), KittyFullMode::enable_spec(), res);
        }
        assert(rec.log() =~= l + seg);
    }
    (guard, Ghost(seg))
}

/// Lowers the escape delay unless it was set from outside.
fn lower_escape_delay<B: TerminalBackend>(rec: &mut Recorder<B>) -> (r: Ghost<Seq<Call>>)
    ensures
        final(rec).log() == old(rec).log() + r@,
        delay_calls(r@),
{
    let ghost l = rec.log();
    let overridden = rec.escape_delay_overridden();
    if !overridden {
        rec.set_escape_delay(ESCAPE_DELAY_MS);
    }
    let ghost seg = added(l, rec.log());
    assert(rec.log() =~= l + seg);
    Ghost(seg)
}

/// Asks for every catalog capability and the key code of its string.
fn learn_catalog<B: TerminalBackend>(rec: &mut Recorder<B>) -> (r: (Vec<Option<i32>>, Ghost<Seq<Seq<Call>>>))
    ensures
        final(rec).log() == old(rec).log() + concat_all(r.1@),
        catalog_calls(r.1@),
        r.0@ == catalog_codes(r.1@),
{
    let ghost l5 = rec.log();
    let names = catalog_names();
    let mut lookups: Vec<Option<i32>> = Vec::new();
    let ghost mut catalog: Seq<Seq<Call>> = seq![];
    assert(l5 + concat_all(catalog) =~= l5);
    let mut j: usize = 0;
    while j < names.len()
        invariant
            j <= names@.len(),
            names@.len() == CATALOG_LEN,
            forall|k: int| 0 <= k < CATALOG_LEN ==> #[trigger] names@[k]@ == catalog_name(k),
            lookups@.len() == j,
            catalog.len() == j,
            l5 == old(rec).log(),
            rec.log() == l5 + concat_all(catalog),
            forall|k: int| 0 <= k < j ==> catalog_entry_calls(catalog_name(k), #[trigger] catalog[k]),
            forall|k: int| 0 <= k < j ==> #[trigger] lookups@[k] == catalog_code(catalog[k]),
        decreases names@.len() - j,
    {
        let ghost before = rec.log();
        let code = match rec.get_terminfo_string(&names[j]) {
            Some(description) => match rec.key_code_for(&description) {
                Ok(code) => Some(code),
                Err(_) => None,
            },
            None => None,
        };
        lookups.push(code);
        proof {
            let part = added(before, rec.log());
            assert(rec.log() =~= before + part);
            assert(catalog.push(part).drop_last() =~= catalog);
            catalog = catalog.push(part);
            assert(rec.log() =~= l5 + concat_all(catalog));
        }
        j = j + 1;
    }
    assert(lookups@ =~= catalog_codes(catalog));
    (lookups, Ghost(catalog))
}

impl InputStream {
    /// The learned bindings, from backend code to event.
    pub closed spec fn bindings(&self) -> Seq<(i32, Event)> {
        self.extra_bound_keys@
    }

    /// The decoder's state between two units.
    pub closed spec fn state(&self) -> Decoder {
        self.decoder
    }

    /// Which protocol guards are live: bracketed paste, XTerm modify-keys, Kitty full mode.
    pub closed spec fn live_guards(&self) -> (bool, bool, bool) {
        (
            self.bracketed_paste is Some,
            self.xterm_modify_keys is Some,
            self.kitty_full_mode is Some,
        )
    }

    /// The calls of the negotiation that made this stream.
    pub closed spec fn negotiation(&self) -> Negotiation {
        self.negotiation@
    }

    /// The stream made of the guards that were started and the key codes
    /// that the catalog capabilities resolved to, with nothing in progress.
    pub fn assemble(
        bracketed_paste: Option<BracketedPaste>,
        xterm_modify_keys: Option<XTermModifyOtherKeys>,
        kitty_full_mode: Option<KittyFullMode>,
        lookups: &Vec<Option<i32>>,
        negotiation: Ghost<Negotiation>,
    ) -> (r: InputStream)
        ensures
            r.bindings() == learned(lookups@),
            r.state() == idle(),
            r.live_guards() == (
                bracketed_paste is Some,
                xterm_modify_keys is Some,
                kitty_full_mode is Some,
            ),
            r.negotiation() == negotiation@,
    {
        InputStream {
            bracketed_paste,
            xterm_modify_keys,
            kitty_full_mode,
            extra_bound_keys: learned_bindings(lookups),
            decoder: Decoder::new(),
            negotiation,
        }
    }

    /// Negotiates the terminal's capabilities and creates the stream.
    ///
    /// Each optional protocol is enabled only if all of its sequences could
    /// be bound; the escape delay is lowered unless it was set from outside;
    /// each catalog capability whose sequence resolves to a key code becomes
    /// a learned binding; the extra bindings of a recognised terminal family
    /// and the Alt-prefix bindings are added where free; a resize is queued
    /// last. `negotiated` states each step over the terminal's answers.
    pub fn init<B: TerminalBackend>(rec: &mut Recorder<B>) -> (r: InputStream)
        ensures
            final(rec).log() == old(rec).log() + negotiation_log(r.negotiation()),
            negotiated(r),
    {
        let ghost l0 = rec.log();
        rec.set_input_modes();
        let (bracketed_paste, paste) = start_bracketed_paste(rec);
        let (xterm_modify_keys, xterm) = start_xterm_modify_keys(rec);
        let (kitty_full_mode, kitty) = start_kitty_full_mode(rec);
        let delay = lower_escape_delay(rec);
        let (lookups, catalog) = learn_catalog(rec);
        let rxvt_family = extend_family(rec, &rxvt_probes(), &rxvt_bindings(), &delete_probes(), &rxvt_delete_bindings());
        let xterm_family = extend_family(rec, &xterm_probes(), &xterm_grid_bindings(), &paging_probes(), &xterm_paging_bindings());
        let alt_prefix = define_all_if_necessary(rec, &alt_prefix_bindings());

        rec.push_resize();

        let ghost n = Negotiation {
            paste: paste@,
            xterm: xterm@,
            kitty: kitty@,
            delay: delay@,
            catalog: catalog@,
            rxvt_family: rxvt_family@,
            xterm_family: xterm_family@,
            alt_prefix: alt_prefix@,
        };
        assert(rec.log() =~= l0 + negotiation_log(n));
        InputStream::assemble(bracketed_paste, xterm_modify_keys, kitty_full_mode, &lookups, Ghost(n))
    }

    /// Feeds one raw unit from the backend to the decoder.
    pub fn feed(&mut self, unit: i32) -> (r: Step)
        ensures
            (final(self).state(), r) == decode_spec(old(self).state(), old(self).bindings(), unit),
            final(self).bindings() == old(self).bindings(),
            final(self).live_guards() == old(self).live_guards(),
    {
        self.decoder.feed(&self.extra_bound_keys, unit)
    }

    /// The learned bindings, from backend code to event.
    pub fn extra_bound_keys(&self) -> (r: &Vec<(i32, Event)>)
        ensures
            r@ == self.bindings(),
    {
        &self.extra_bound_keys
    }

    /// The number of live protocol guards.
    pub fn active_guard_count(&self) -> (r: usize)
        ensures
            r == (if self.live_guards().0 { 1usize } else { 0usize }) + (if self.live_guards().1 {
                1usize
            } else {
                0usize
            }) + (if self.live_guards().2 { 1usize } else { 0usize }),
    {
        let mut n: usize = 0;
        if self.bracketed_paste.is_some() {
            n = n + 1;
        }
        if self.xterm_modify_keys.is_some() {
            n = n + 1;
        }
        if self.kitty_full_mode.is_some() {
            n = n + 1;
        }
        n
    }

    /// Ends the stream: every live guard sends its disable sequence, once.
    pub fn shutdown<B: TerminalBackend>(self, rec: &mut Recorder<B>)
        ensures
            extends_with_writes(old(rec).log(), final(rec).log(), teardown_writes(self.live_guards())),
    {
        let ghost l0 = rec.log();
        let ghost live = self.live_guards();
        let InputStream { bracketed_paste, xterm_modify_keys, kitty_full_mode, .. } = self;
        if let Some(g) = bracketed_paste {
            g.release(rec);
        }
        let ghost l1 = rec.log();
        if let Some(g) = xterm_modify_keys {
            g.release(rec);
        }
        let ghost l2 = rec.log();
        if let Some(g) = kitty_full_mode {
            g.release(rec);
        }
        proof {
            let w = teardown_writes(live);
            let seg = added(l0, rec.log());
            assert(rec.log() =~= l0 + seg);
            assert(rec.log().take(l0.len() as int) =~= l0);
            assert(seg.len() == w.len());
            assert forall|i: int| 0 <= i < seg.len() implies #[trigger] seg[i] == Call::Write(w[i], write_answer(seg[i])) by {
                let a = added(l0, l1);
                let b = added(l1, l2);
                let c = added(l2, rec.log());
                assert(seg =~= a + b + c);
                assert(w =~= (if live.0 { seq![BracketedPaste::disable_spec()] } else { seq![] }) + (if live.1 { seq![XTermModifyOtherKeys::disable_spec()] } else { seq![] }) + (if live.2 { seq![KittyFullMode::disable_spec()] } else { seq![] }));
            }
        }
    }
}

/// `new` is `old` followed by one write of each of `data`, in order.
pub open spec fn extends_with_writes(old: Seq<Call>, new: Seq<Call>, data: Seq<Seq<u8>>) -> bool {
    &&& crate::record::extends(old, new)
    &&& added(old, new).len() == data.len()
    &&& forall|i: int|
        0 <= i < data.len() ==> #[trigger] added(old, new)[i] == Call::Write(data[i], write_answer(added(old, new)[i]))
}

} // verus!
