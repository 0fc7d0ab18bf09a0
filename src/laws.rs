//! Properties of the decoder and of the negotiation that hold of all inputs.
use vstd::prelude::*;

use crate::decoder::{decode_spec, Decoder};
use crate::event::{press, Event, KeyInput, Step};
use crate::negotiate::{catalog_codes, protocol_calls, reservations_granted};
use crate::plan::{
    kitty_reservations_spec, learned, paste_reservations_spec, xterm_reservations_spec,
};
use crate::record::{concat_all, define_answer, terminfo_answer, Call};
use crate::stream::{negotiated, negotiation_log, InputStream};
use crate::protocol::{KittyState, XTermState};
use crate::translate::control_event;
use crate::utf8::{fold_continuation, is_scalar};

verus! {

/// The UTF-8 encoding of the scalar value `c`.
pub open spec fn utf8_encode(c: u32) -> Seq<u8> {
    if c < 0x80 {
        seq![c as u8]
    } else if c < 0x800 {
        seq![(0xC0 | (c >> 6u32)) as u8, (0x80 | (c & 0x3F)) as u8]
    } else if c < 0x10000 {
        seq![
            (0xE0 | (c >> 12u32)) as u8,
            (0x80 | ((c >> 6u32) & 0x3F)) as u8,
            (0x80 | (c & 0x3F)) as u8,
        ]
    } else {
        seq![
            (0xF0 | (c >> 18u32)) as u8,
            (0x80 | ((c >> 12u32) & 0x3F)) as u8,
            (0x80 | ((c >> 6u32) & 0x3F)) as u8,
            (0x80 | (c & 0x3F)) as u8,
        ]
    }
}

/// Bytes as raw input units.
pub open spec fn byte_units(bytes: Seq<u8>) -> Seq<i32> {
    bytes.map_values(|b: u8| b as i32)
}

/// Feeds `units` in order: the final decoder state and the step of each unit.
pub open spec fn decode_all(d: Decoder, t: Seq<(i32, Event)>, units: Seq<i32>) -> (Decoder, Seq<Step>)
    decreases units.len(),
{
    if units.len() == 0 {
        (d, seq![])
    } else {
        let (d1, s) = decode_spec(d, t, units[0]);
        let (d2, rest) = decode_all(d1, t, units.drop_first());
        (d2, seq![s] + rest)
    }
}

/// The decoder has no character and no protocol sequence in progress.
pub open spec fn at_rest(d: Decoder) -> bool {
    d.utf8.remaining == 0 && d.xterm == XTermState::Off && d.kitty == KittyState::Off
}

proof fn lemma_bits_1(c: u32)
    requires
        c < 0x80,
    ensures
        (c as u8) >> 7u8 == 0,
        ((c as u8) & 0x7f) as u32 == c,
{
    assert((c as u8) >> 7u8 == 0 && ((c as u8) & 0x7f) as u32 == c) by (bit_vector)
        requires
            c < 0x80,
    ;
}

proof fn lemma_bits_2(c: u32)
    requires
        0x80 <= c < 0x800,
    ensures
        ((0xC0 | (c >> 6u32)) as u8) >> 7u8 != 0,
        ((0xC0 | (c >> 6u32)) as u8) >> 5u8 == 6,
        (((0xC0 | (c >> 6u32)) as u8) & 0x1f) as u32 == c >> 6u32,
        ((0x80 | (c & 0x3F)) as u8) >> 6u8 == 2,
        fold_continuation(c >> 6u32, (0x80 | (c & 0x3F)) as u8) == c,
{
    assert(((0xC0 | (c >> 6u32)) as u8) >> 7u8 != 0 && ((0xC0 | (c >> 6u32)) as u8) >> 5u8 == 6
        && (((0xC0 | (c >> 6u32)) as u8) & 0x1f) as u32 == c >> 6u32 && ((0x80 | (c & 0x3F)) as u8)
        >> 6u8 == 2 && (((c >> 6u32) << 6u32) | ((((0x80 | (c & 0x3F)) as u8) & 0x3f) as u32)) == c)
        by (bit_vector)
        requires
            0x80 <= c < 0x800,
    ;
}

proof fn lemma_bits_3(c: u32)
    requires
        0x800 <= c < 0x10000,
    ensures
        ((0xE0 | (c >> 12u32)) as u8) >> 7u8 != 0,
        ((0xE0 | (c >> 12u32)) as u8) >> 5u8 != 6,
        ((0xE0 | (c >> 12u32)) as u8) >> 4u8 == 14,
        (((0xE0 | (c >> 12u32)) as u8) & 0x0f) as u32 == c >> 12u32,
        ((0x80 | ((c >> 6u32) & 0x3F)) as u8) >> 6u8 == 2,
        ((0x80 | (c & 0x3F)) as u8) >> 6u8 == 2,
        fold_continuation(c >> 12u32, (0x80 | ((c >> 6u32) & 0x3F)) as u8) == c >> 6u32,
        fold_continuation(c >> 6u32, (0x80 | (c & 0x3F)) as u8) == c,
{
    assert(((0xE0 | (c >> 12u32)) as u8) >> 7u8 != 0 && ((0xE0 | (c >> 12u32)) as u8) >> 5u8 != 6
        && ((0xE0 | (c >> 12u32)) as u8) >> 4u8 == 14 && (((0xE0 | (c >> 12u32)) as u8) & 0x0f) as u32
        == c >> 12u32) by (bit_vector)
        requires
            0x800 <= c < 0x10000,
    ;
    assert(((0x80 | ((c >> 6u32) & 0x3F)) as u8) >> 6u8 == 2 && ((0x80 | (c & 0x3F)) as u8) >> 6u8
        == 2) by (bit_vector);
    assert((((c >> 12u32) << 6u32) | ((((0x80 | ((c >> 6u32) & 0x3F)) as u8) & 0x3f) as u32)) == c
        >> 6u32 && (((c >> 6u32) << 6u32) | ((((0x80 | (c & 0x3F)) as u8) & 0x3f) as u32)) == c)
        by (bit_vector)
        requires
            c < 0x10000,
    ;
}

proof fn lemma_bits_4(c: u32)
    requires
        0x10000 <= c <= 0x10FFFF,
    ensures
        ((0xF0 | (c >> 18u32)) as u8) >> 7u8 != 0,
        ((0xF0 | (c >> 18u32)) as u8) >> 5u8 != 6,
        ((0xF0 | (c >> 18u32)) as u8) >> 4u8 != 14,
        ((0xF0 | (c >> 18u32)) as u8) >> 3u8 == 30,
        (((0xF0 | (c >> 18u32)) as u8) & 0x07) as u32 == c >> 18u32,
        ((0x80 | ((c >> 12u32) & 0x3F)) as u8) >> 6u8 == 2,
        ((0x80 | ((c >> 6u32) & 0x3F)) as u8) >> 6u8 == 2,
        ((0x80 | (c & 0x3F)) as u8) >> 6u8 == 2,
        fold_continuation(c >> 18u32, (0x80 | ((c >> 12u32) & 0x3F)) as u8) == c >> 12u32,
        fold_continuation(c >> 12u32, (0x80 | ((c >> 6u32) & 0x3F)) as u8) == c >> 6u32,
        fold_continuation(c >> 6u32, (0x80 | (c & 0x3F)) as u8) == c,
{
    assert(((0xF0 | (c >> 18u32)) as u8) >> 7u8 != 0 && ((0xF0 | (c >> 18u32)) as u8) >> 5u8 != 6
        && ((0xF0 | (c >> 18u32)) as u8) >> 4u8 != 14 && ((0xF0 | (c >> 18u32)) as u8) >> 3u8 == 30
        && (((0xF0 | (c >> 18u32)) as u8) & 0x07) as u32 == c >> 18u32) by (bit_vector)
        requires
            0x10000 <= c <= 0x10FFFF,
    ;
    assert(((0x80 | ((c >> 12u32) & 0x3F)) as u8) >> 6u8 == 2 && ((0x80 | ((c >> 6u32) & 0x3F)) as u8)
        >> 6u8 == 2 && ((0x80 | (c & 0x3F)) as u8) >> 6u8 == 2) by (bit_vector);
    assert((((c >> 18u32) << 6u32) | ((((0x80 | ((c >> 12u32) & 0x3F)) as u8) & 0x3f) as u32)) == c
        >> 12u32 && (((c >> 12u32) << 6u32) | ((((0x80 | ((c >> 6u32) & 0x3F)) as u8) & 0x3f) as u32))
        == c >> 6u32 && (((c >> 6u32) << 6u32) | ((((0x80 | (c & 0x3F)) as u8) & 0x3f) as u32)) == c)
        by (bit_vector)
        requires
            c <= 0x10FFFF,
    ;
}


/// The conclusion of the round trip for the character `c`.
pub open spec fn round_trips(d: Decoder, t: Seq<(i32, Event)>, c: u32) -> bool {
    let n = utf8_encode(c).len();
    let (d2, steps) = decode_all(d, t, byte_units(utf8_encode(c)));
    &&& 1 <= n <= 4
    &&& steps.len() == n
    &&& forall|i: int| 0 <= i < n - 1 ==> steps[i] == Step::Continue
    &&& steps[n - 1] == Step::Emit(press(0, KeyInput::Codepoint(c as char)))
    &&& at_rest(d2)
}

proof fn lemma_round_trip_1(d: Decoder, t: Seq<(i32, Event)>, c: u32)
    requires
        at_rest(d),
        c < 0x80,
        control_event(c) is None,
    ensures
        round_trips(d, t, c),
{
    reveal_with_fuel(decode_all, 2);
    assert((c as char) as u32 == c);
    lemma_bits_1(c);
}

#[verifier::rlimit(40)]
proof fn lemma_round_trip_2(d: Decoder, t: Seq<(i32, Event)>, c: u32)
    requires
        at_rest(d),
        0x80 <= c < 0x800,
        control_event(c) is None,
    ensures
        round_trips(d, t, c),
{
    reveal_with_fuel(decode_all, 3);
    let e = utf8_encode(c);
    let u = byte_units(e);
    assert((c as char) as u32 == c);
    lemma_bits_2(c);
    assert(u.drop_first() =~= seq![e[1] as i32]);
}

#[verifier::rlimit(80)]
proof fn lemma_round_trip_3(d: Decoder, t: Seq<(i32, Event)>, c: u32)
    requires
        at_rest(d),
        0x800 <= c < 0x10000,
        is_scalar(c as int),
    ensures
        round_trips(d, t, c),
{
    reveal_with_fuel(decode_all, 4);
    let e = utf8_encode(c);
    let u = byte_units(e);
    assert((c as char) as u32 == c);
    lemma_bits_3(c);
    assert(u.drop_first() =~= seq![e[1] as i32, e[2] as i32]);
    assert(u.drop_first().drop_first() =~= seq![e[2] as i32]);
}

#[verifier::rlimit(100)]
proof fn lemma_round_trip_4(d: Decoder, t: Seq<(i32, Event)>, c: u32)
    requires
        at_rest(d),
        0x10000 <= c <= 0x10FFFF,
    ensures
        round_trips(d, t, c),
{
    reveal_with_fuel(decode_all, 5);
    let e = utf8_encode(c);
    let u = byte_units(e);
    assert((c as char) as u32 == c);
    lemma_bits_4(c);
    assert(u.drop_first() =~= seq![e[1] as i32, e[2] as i32, e[3] as i32]);
    assert(u.drop_first().drop_first() =~= seq![e[2] as i32, e[3] as i32]);
    assert(u.drop_first().drop_first().drop_first() =~= seq![e[3] as i32]);
}

/// Feeding the UTF-8 encoding of a character, byte by byte, to a decoder at
/// rest yields no event until the last byte, and on the last byte one
/// unmodified first press of that character; the decoder is then at rest
/// again. Left out are the control characters that the decoder reads as
/// chords (`control_event`), such as byte 1, which is Ctrl+a.
pub proof fn lemma_utf8_round_trip(d: Decoder, t: Seq<(i32, Event)>, c: u32)
    requires
        at_rest(d),
        is_scalar(c as int),
        control_event(c) is None,
    ensures
        round_trips(d, t, c),
{
    if c < 0x80 {
        lemma_round_trip_1(d, t, c);
    } else if c < 0x800 {
        lemma_round_trip_2(d, t, c);
    } else if c < 0x10000 {
        lemma_round_trip_3(d, t, c);
    } else {
        lemma_round_trip_4(d, t, c);
    }
}

/// The table learned from catalog answers that are all absent is empty: a
/// terminal without extended capabilities gives the stream no learned binding.
pub proof fn lemma_nothing_learned(lookups: Seq<Option<i32>>)
    requires
        forall|j: int| 0 <= j < lookups.len() ==> lookups[j] is None,
    ensures
        learned(lookups) == Seq::<(i32, Event)>::empty(),
    decreases lookups.len(),
{
    if lookups.len() > 0 {
        lemma_nothing_learned(lookups.drop_last());
    }
}


/// The terminal refused every binding and had none of the capabilities asked for.
pub open spec fn unsupported(calls: Seq<Call>) -> bool {
    forall|i: int|
        0 <= i < calls.len() ==> (#[trigger] calls[i] is Define ==> define_answer(calls[i]) is Err) && (
        calls[i] is Terminfo ==> terminfo_answer(calls[i]) is None)
}

proof fn lemma_unsupported_split(a: Seq<Call>, b: Seq<Call>)
    requires
        unsupported(a + b),
    ensures
        unsupported(a),
        unsupported(b),
{
    assert forall|i: int| 0 <= i < a.len() implies (#[trigger] a[i] is Define ==> define_answer(a[i]) is Err) && (
    a[i] is Terminfo ==> terminfo_answer(a[i]) is None) by {
        assert((a + b)[i] == a[i]);
    }
    assert forall|i: int| 0 <= i < b.len() implies (#[trigger] b[i] is Define ==> define_answer(b[i]) is Err) && (
    b[i] is Terminfo ==> terminfo_answer(b[i]) is None) by {
        assert((a + b)[a.len() + i] == b[i]);
    }
}

proof fn lemma_unsupported_parts(parts: Seq<Seq<Call>>)
    requires
        unsupported(concat_all(parts)),
    ensures
        forall|j: int| 0 <= j < parts.len() ==> unsupported(#[trigger] parts[j]),
    decreases parts.len(),
{
    if parts.len() > 0 {
        lemma_unsupported_split(concat_all(parts.drop_last()), parts.last());
        lemma_unsupported_parts(parts.drop_last());
        assert forall|j: int| 0 <= j < parts.len() implies unsupported(#[trigger] parts[j]) by {
            if j < parts.len() - 1 {
                assert(parts[j] == parts.drop_last()[j]);
            }
        }
    }
}

proof fn lemma_protocol_refused(plan: Seq<(Seq<u8>, i32)>, enable: Seq<u8>, seg: Seq<Call>, live: bool)
    requires
        plan.len() > 0,
        protocol_calls(plan, enable, seg, live),
        unsupported(seg),
    ensures
        !live,
        forall|i: int| 0 <= i < seg.len() ==> #[trigger] seg[i] is Define,
{
    if seg.len() > 0 && seg.last() is Write {
        let res = seg.drop_last();
        assert(reservations_granted(plan, res));
        assert(res[0] == seg[0]);
        assert(define_answer(res[0]) is Ok);
        assert(false);
    }
}

/// A negotiation with a terminal that refuses every binding and has none of
/// the capabilities asked for leaves no live guard, writes no enable
/// sequence (its protocol steps hold reservations only) and learns no
/// binding: every run against such a terminal gives the same stream.
pub proof fn lemma_unsupported_terminal(r: InputStream)
    requires
        negotiated(r),
        unsupported(negotiation_log(r.negotiation())),
    ensures
        r.live_guards() == (false, false, false),
        forall|i: int| 0 <= i < r.negotiation().paste.len() ==> #[trigger] r.negotiation().paste[i] is Define,
        forall|i: int| 0 <= i < r.negotiation().xterm.len() ==> #[trigger] r.negotiation().xterm[i] is Define,
        forall|i: int| 0 <= i < r.negotiation().kitty.len() ==> #[trigger] r.negotiation().kitty[i] is Define,
        r.bindings() == Seq::<(i32, Event)>::empty(),
{
    let n = r.negotiation();
    let a1 = seq![Call::SetInputModes] + n.paste;
    let a2 = a1 + n.xterm;
    let a3 = a2 + n.kitty;
    let a4 = a3 + n.delay;
    let a5 = a4 + concat_all(n.catalog);
    let a6 = a5 + crate::negotiate::family_log(n.rxvt_family);
    let a7 = a6 + crate::negotiate::family_log(n.xterm_family);
    let a8 = a7 + concat_all(n.alt_prefix);
    assert(negotiation_log(n) == a8 + seq![Call::PushResize]);
    lemma_unsupported_split(a8, seq![Call::PushResize]);
    lemma_unsupported_split(a7, concat_all(n.alt_prefix));
    lemma_unsupported_split(a6, crate::negotiate::family_log(n.xterm_family));
    lemma_unsupported_split(a5, crate::negotiate::family_log(n.rxvt_family));
    lemma_unsupported_split(a4, concat_all(n.catalog));
    lemma_unsupported_split(a3, n.delay);
    lemma_unsupported_split(a2, n.kitty);
    lemma_unsupported_split(a1, n.xterm);
    lemma_unsupported_split(seq![Call::SetInputModes], n.paste);
    lemma_protocol_refused(paste_reservations_spec(), crate::stream::BracketedPaste::enable_spec(), n.paste, r.live_guards().0);
    lemma_protocol_refused(xterm_reservations_spec(), crate::stream::XTermModifyOtherKeys::enable_spec(), n.xterm, r.live_guards().1);
    lemma_protocol_refused(kitty_reservations_spec(), crate::stream::KittyFullMode::enable_spec(), n.kitty, r.live_guards().2);
    lemma_unsupported_parts(n.catalog);
    let codes = catalog_codes(n.catalog);
    assert forall|j: int| 0 <= j < codes.len() implies #[trigger] codes[j] is None by {
        assert(n.catalog[j][0] == n.catalog[j][0]);
        assert(crate::negotiate::catalog_entry_calls(crate::plan::catalog_name(j), n.catalog[j]));
    }
    lemma_nothing_learned(codes);
}

} // verus!
