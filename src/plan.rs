//! The fixed tables of the capability negotiation: the sequences it reserves,
//! the terminfo capabilities it asks for, the probes that identify a terminal
//! family and the extra bindings it adds.
use vstd::prelude::*;

use crate::event::{press, Event, KeyInput, Modifiers};
use crate::keys;

verus! {

/// A list of escape sequences with the key code for each, as plain values.
pub open spec fn plan_view(v: Seq<(Vec<u8>, i32)>) -> Seq<(Seq<u8>, i32)> {
    v.map_values(|p: (Vec<u8>, i32)| (p.0@, p.1))
}

/// Appends one entry to a list of sequences and codes.
fn push_entry(v: &mut Vec<(Vec<u8>, i32)>, s: Vec<u8>, code: i32)
    ensures
        plan_view(final(v)@) == plan_view(old(v)@).push((s@, code)),
        final(v)@.len() == old(v)@.len() + 1,
{
    let ghost s_view = s@;
    v.push((s, code));
    assert(plan_view(final(v)@) =~= plan_view(old(v)@).push((s_view, code)));
}

/// The number of terminfo capabilities that the negotiation asks for.
pub const CATALOG_LEN: usize = 54;

/// The name stem of each group of six capabilities: `kDC`, `kLFT`, `kRIT`,
/// `kUP`, `kDN`, `kHOM`, `kEND`, `kPRV`, `kNXT`, in that order.
pub open spec fn catalog_stem(i: int) -> Seq<u8> {
    if i == 0 {
        seq![107, 68, 67]
    } else if i == 1 {
        seq![107, 76, 70, 84]
    } else if i == 2 {
        seq![107, 82, 73, 84]
    } else if i == 3 {
        seq![107, 85, 80]
    } else if i == 4 {
        seq![107, 68, 78]
    } else if i == 5 {
        seq![107, 72, 79, 77]
    } else if i == 6 {
        seq![107, 69, 78, 68]
    } else if i == 7 {
        seq![107, 80, 82, 86]
    } else {
        seq![107, 78, 88, 84]
    }
}

/// The special key of each group of six capabilities: Delete, Left, Right,
/// Up, Down, Home, End, Page Up, Page Down.
pub open spec fn catalog_key(i: int) -> i32 {
    if i == 0 {
        keys::KEY_DC
    } else if i == 1 {
        keys::KEY_LEFT
    } else if i == 2 {
        keys::KEY_RIGHT
    } else if i == 3 {
        keys::KEY_UP
    } else if i == 4 {
        keys::KEY_DOWN
    } else if i == 5 {
        keys::KEY_HOME
    } else if i == 6 {
        keys::KEY_END
    } else if i == 7 {
        keys::KEY_PPAGE
    } else {
        keys::KEY_NPAGE
    }
}

/// The name of capability `j`: a stem followed by the XTerm modifier value 3 to 8.
pub open spec fn catalog_name(j: int) -> Seq<u8> {
    catalog_stem(j / 6).push((51 + j % 6) as u8)
}

/// The event of capability `j`: its key with the modifier bits of value `3 + j % 6`.
pub open spec fn catalog_event(j: int) -> Event {
    press((j % 6 + 2) as u8, KeyInput::Special(catalog_key(j / 6)))
}

fn catalog_stem_of(i: usize) -> (r: Vec<u8>)
    ensures
        r@ == catalog_stem(i as int),
{
    let r = if i == 0 {
        vec![107, 68, 67]
    } else if i == 1 {
        vec![107, 76, 70, 84]
    } else if i == 2 {
        vec![107, 82, 73, 84]
    } else if i == 3 {
        vec![107, 85, 80]
    } else if i == 4 {
        vec![107, 68, 78]
    } else if i == 5 {
        vec![107, 72, 79, 77]
    } else if i == 6 {
        vec![107, 69, 78, 68]
    } else if i == 7 {
        vec![107, 80, 82, 86]
    } else {
        vec![107, 78, 88, 84]
    };
    assert(r@ =~= catalog_stem(i as int));
    r
}

fn catalog_key_of(i: usize) -> (r: i32)
    ensures
        r == catalog_key(i as int),
{
    if i == 0 {
        keys::KEY_DC
    } else if i == 1 {
        keys::KEY_LEFT
    } else if i == 2 {
        keys::KEY_RIGHT
    } else if i == 3 {
        keys::KEY_UP
    } else if i == 4 {
        keys::KEY_DOWN
    } else if i == 5 {
        keys::KEY_HOME
    } else if i == 6 {
        keys::KEY_END
    } else if i == 7 {
        keys::KEY_PPAGE
    } else {
        keys::KEY_NPAGE
    }
}

/// The event of capability `j`.
pub fn catalog_event_of(j: usize) -> (r: Event)
    ensures
        r == catalog_event(j as int),
{
    Event::KeyPress {
        modifiers: Modifiers((j % 6 + 2) as u8),
        key: KeyInput::Special(catalog_key_of(j / 6)),
        is_repeat: false,
    }
}

/// The names of the terminfo capabilities for multi-modifier navigation keys.
pub fn catalog_names() -> (r: Vec<Vec<u8>>)
    ensures
        r@.len() == CATALOG_LEN,
        forall|j: int| 0 <= j < CATALOG_LEN ==> #[trigger] r@[j]@ == catalog_name(j),
{
    let mut r: Vec<Vec<u8>> = Vec::new();
    let mut j: usize = 0;
    while j < CATALOG_LEN
        invariant
            j <= CATALOG_LEN,
            r@.len() == j,
            forall|k: int| 0 <= k < j ==> #[trigger] r@[k]@ == catalog_name(k),
        decreases CATALOG_LEN - j,
    {
        let mut name = catalog_stem_of(j / 6);
        name.push(51 + (j % 6) as u8);
        r.push(name);
        j = j + 1;
    }
    r
}

/// The learned bindings from the answers to the catalog: for each capability
/// `j` whose sequence resolved to a key code, in catalog order, that code with
/// the capability's event.
pub open spec fn learned(lookups: Seq<Option<i32>>) -> Seq<(i32, Event)>
    decreases lookups.len(),
{
    if lookups.len() == 0 {
        seq![]
    } else {
        let rest = learned(lookups.drop_last());
        match lookups.last() {
            Some(code) => rest.push((code, catalog_event(lookups.len() - 1))),
            None => rest,
        }
    }
}

/// Builds the learned binding table from the key code, if any, that each
/// catalog capability resolved to.
pub fn learned_bindings(lookups: &Vec<Option<i32>>) -> (r: Vec<(i32, Event)>)
    ensures
        r@ == learned(lookups@),
{
    let mut r: Vec<(i32, Event)> = Vec::new();
    let mut j: usize = 0;
    while j < lookups.len()
        invariant
            j <= lookups@.len(),
            r@ == learned(lookups@.take(j as int)),
        decreases lookups@.len() - j,
    {
        assert(lookups@.take(j as int + 1).drop_last() =~= lookups@.take(j as int));
        if let Some(code) = lookups[j] {
            r.push((code, catalog_event_of(j)));
        }
        j = j + 1;
    }
    assert(lookups@.take(j as int) =~= lookups@);
    r
}

/// The sequences that bracketed paste needs bound: its start and end markers.
/// In order: `ESC [200~` (2000), `ESC [201~` (2001).
pub open spec fn paste_reservations_spec() -> Seq<(Seq<u8>, i32)> {
    seq![
        (seq![27, 91, 50, 48, 48, 126], 2000),
        (seq![27, 91, 50, 48, 49, 126], 2001),
    ]
}

/// Builds `paste_reservations_spec`.
pub fn paste_reservations() -> (r: Vec<(Vec<u8>, i32)>)
    ensures
        plan_view(r@) == paste_reservations_spec(),
{
    let mut r: Vec<(Vec<u8>, i32)> = Vec::new();
    assert(plan_view(r@) =~= seq![]);
    push_entry(&mut r, vec![27, 91, 50, 48, 48, 126], 2000);
    push_entry(&mut r, vec![27, 91, 50, 48, 49, 126], 2001);
    assert(plan_view(r@) =~= paste_reservations_spec());
    r
}

/// The sequence that XTerm modify-keys needs bound: its introducer.
/// In order: `ESC [27;` (2100).
pub open spec fn xterm_reservations_spec() -> Seq<(Seq<u8>, i32)> {
    seq![
        (seq![27, 91, 50, 55, 59], 2100),
    ]
}

/// Builds `xterm_reservations_spec`.
pub fn xterm_reservations() -> (r: Vec<(Vec<u8>, i32)>)
    ensures
        plan_view(r@) == xterm_reservations_spec(),
{
    let mut r: Vec<(Vec<u8>, i32)> = Vec::new();
    assert(plan_view(r@) =~= seq![]);
    push_entry(&mut r, vec![27, 91, 50, 55, 59], 2100);
    assert(plan_view(r@) =~= xterm_reservations_spec());
    r
}

/// The sequences that Kitty full mode needs bound: its introducer and terminator.
/// In order: `ESC _K` (2200), `ESC \\` (2201).
pub open spec fn kitty_reservations_spec() -> Seq<(Seq<u8>, i32)> {
    seq![
        (seq![27, 95, 75], 2200),
        (seq![27, 92], 2201),
    ]
}

/// Builds `kitty_reservations_spec`.
pub fn kitty_reservations() -> (r: Vec<(Vec<u8>, i32)>)
    ensures
        plan_view(r@) == kitty_reservations_spec(),
{
    let mut r: Vec<(Vec<u8>, i32)> = Vec::new();
    assert(plan_view(r@) =~= seq![]);
    push_entry(&mut r, vec![27, 95, 75], 2200);
    push_entry(&mut r, vec![27, 92], 2201);
    assert(plan_view(r@) =~= kitty_reservations_spec());
    r
}

/// The unmodified and shifted arrow keys as rxvt-style terminals send them.
/// In order: `ESC [A` (KEY_UP), `ESC [B` (KEY_DOWN), `ESC [C` (KEY_RIGHT), `ESC [D` (KEY_LEFT), `ESC [c` (KEY_SRIGHT), `ESC [d` (KEY_SLEFT).
pub open spec fn rxvt_probes_spec() -> Seq<(Seq<u8>, i32)> {
    seq![
        (seq![27, 91, 65], keys::KEY_UP),
        (seq![27, 91, 66], keys::KEY_DOWN),
        (seq![27, 91, 67], keys::KEY_RIGHT),
        (seq![27, 91, 68], keys::KEY_LEFT),
        (seq![27, 91, 99], keys::KEY_SRIGHT),
        (seq![27, 91, 100], keys::KEY_SLEFT),
    ]
}

/// Builds `rxvt_probes_spec`.
pub fn rxvt_probes() -> (r: Vec<(Vec<u8>, i32)>)
    ensures
        plan_view(r@) == rxvt_probes_spec(),
{
    let mut r: Vec<(Vec<u8>, i32)> = Vec::new();
    assert(plan_view(r@) =~= seq![]);
    push_entry(&mut r, vec![27, 91, 65], keys::KEY_UP);
    push_entry(&mut r, vec![27, 91, 66], keys::KEY_DOWN);
    push_entry(&mut r, vec![27, 91, 67], keys::KEY_RIGHT);
    push_entry(&mut r, vec![27, 91, 68], keys::KEY_LEFT);
    push_entry(&mut r, vec![27, 91, 99], keys::KEY_SRIGHT);
    push_entry(&mut r, vec![27, 91, 100], keys::KEY_SLEFT);
    assert(plan_view(r@) =~= rxvt_probes_spec());
    r
}

/// The Ctrl, Alt and Alt+Shift arrow keys of rxvt-style terminals, with their grid codes.
/// In order: `ESC Oa` (2340), `ESC Ob` (2341), `ESC Oc` (2342), `ESC Od` (2343), `ESC ESC Oa` (2360), `ESC ESC Ob` (2361), `ESC ESC Oc` (2362), `ESC ESC Od` (2363), `ESC ESC [A` (2320), `ESC ESC [B` (2321), `ESC ESC [C` (2322), `ESC ESC [D` (2323), `ESC ESC [a` (2330), `ESC ESC [b` (2331), `ESC ESC [c` (2332), `ESC ESC [d` (2333).
pub open spec fn rxvt_bindings_spec() -> Seq<(Seq<u8>, i32)> {
    seq![
        (seq![27, 79, 97], 2340),
        (seq![27, 79, 98], 2341),
        (seq![27, 79, 99], 2342),
        (seq![27, 79, 100], 2343),
        (seq![27, 27, 79, 97], 2360),
        (seq![27, 27, 79, 98], 2361),
        (seq![27, 27, 79, 99], 2362),
        (seq![27, 27, 79, 100], 2363),
        (seq![27, 27, 91, 65], 2320),
        (seq![27, 27, 91, 66], 2321),
        (seq![27, 27, 91, 67], 2322),
        (seq![27, 27, 91, 68], 2323),
        (seq![27, 27, 91, 97], 2330),
        (seq![27, 27, 91, 98], 2331),
        (seq![27, 27, 91, 99], 2332),
        (seq![27, 27, 91, 100], 2333),
    ]
}

/// Builds `rxvt_bindings_spec`.
pub fn rxvt_bindings() -> (r: Vec<(Vec<u8>, i32)>)
    ensures
        plan_view(r@) == rxvt_bindings_spec(),
{
    let mut r: Vec<(Vec<u8>, i32)> = Vec::new();
    assert(plan_view(r@) =~= seq![]);
    push_entry(&mut r, vec![27, 79, 97], 2340);
    push_entry(&mut r, vec![27, 79, 98], 2341);
    push_entry(&mut r, vec![27, 79, 99], 2342);
    push_entry(&mut r, vec![27, 79, 100], 2343);
    push_entry(&mut r, vec![27, 27, 79, 97], 2360);
    push_entry(&mut r, vec![27, 27, 79, 98], 2361);
    push_entry(&mut r, vec![27, 27, 79, 99], 2362);
    push_entry(&mut r, vec![27, 27, 79, 100], 2363);
    push_entry(&mut r, vec![27, 27, 91, 65], 2320);
    push_entry(&mut r, vec![27, 27, 91, 66], 2321);
    push_entry(&mut r, vec![27, 27, 91, 67], 2322);
    push_entry(&mut r, vec![27, 27, 91, 68], 2323);
    push_entry(&mut r, vec![27, 27, 91, 97], 2330);
    push_entry(&mut r, vec![27, 27, 91, 98], 2331);
    push_entry(&mut r, vec![27, 27, 91, 99], 2332);
    push_entry(&mut r, vec![27, 27, 91, 100], 2333);
    assert(plan_view(r@) =~= rxvt_bindings_spec());
    r
}

/// The Delete key as both terminal families send it.
/// In order: `ESC [3~` (KEY_DC).
pub open spec fn delete_probes_spec() -> Seq<(Seq<u8>, i32)> {
    seq![
        (seq![27, 91, 51, 126], keys::KEY_DC),
    ]
}

/// Builds `delete_probes_spec`.
pub fn delete_probes() -> (r: Vec<(Vec<u8>, i32)>)
    ensures
        plan_view(r@) == delete_probes_spec(),
{
    let mut r: Vec<(Vec<u8>, i32)> = Vec::new();
    assert(plan_view(r@) =~= seq![]);
    push_entry(&mut r, vec![27, 91, 51, 126], keys::KEY_DC);
    assert(plan_view(r@) =~= delete_probes_spec());
    r
}

/// The Ctrl and Alt+Ctrl Delete keys of rxvt-style terminals, with their grid codes.
/// In order: `ESC [3^` (2348), `ESC ESC [3^` (2368).
pub open spec fn rxvt_delete_bindings_spec() -> Seq<(Seq<u8>, i32)> {
    seq![
        (seq![27, 91, 51, 94], 2348),
        (seq![27, 27, 91, 51, 94], 2368),
    ]
}

/// Builds `rxvt_delete_bindings_spec`.
pub fn rxvt_delete_bindings() -> (r: Vec<(Vec<u8>, i32)>)
    ensures
        plan_view(r@) == rxvt_delete_bindings_spec(),
{
    let mut r: Vec<(Vec<u8>, i32)> = Vec::new();
    assert(plan_view(r@) =~= seq![]);
    push_entry(&mut r, vec![27, 91, 51, 94], 2348);
    push_entry(&mut r, vec![27, 27, 91, 51, 94], 2368);
    assert(plan_view(r@) =~= rxvt_delete_bindings_spec());
    r
}

/// The unmodified and shifted arrow keys as XTerm-style terminals send them.
/// In order: `ESC OA` (KEY_UP), `ESC OB` (KEY_DOWN), `ESC OC` (KEY_RIGHT), `ESC OD` (KEY_LEFT), `ESC [1;2C` (KEY_SRIGHT), `ESC [1;2D` (KEY_SLEFT).
pub open spec fn xterm_probes_spec() -> Seq<(Seq<u8>, i32)> {
    seq![
        (seq![27, 79, 65], keys::KEY_UP),
        (seq![27, 79, 66], keys::KEY_DOWN),
        (seq![27, 79, 67], keys::KEY_RIGHT),
        (seq![27, 79, 68], keys::KEY_LEFT),
        (seq![27, 91, 49, 59, 50, 67], keys::KEY_SRIGHT),
        (seq![27, 91, 49, 59, 50, 68], keys::KEY_SLEFT),
    ]
}

/// Builds `xterm_probes_spec`.
pub fn xterm_probes() -> (r: Vec<(Vec<u8>, i32)>)
    ensures
        plan_view(r@) == xterm_probes_spec(),
{
    let mut r: Vec<(Vec<u8>, i32)> = Vec::new();
    assert(plan_view(r@) =~= seq![]);
    push_entry(&mut r, vec![27, 79, 65], keys::KEY_UP);
    push_entry(&mut r, vec![27, 79, 66], keys::KEY_DOWN);
    push_entry(&mut r, vec![27, 79, 67], keys::KEY_RIGHT);
    push_entry(&mut r, vec![27, 79, 68], keys::KEY_LEFT);
    push_entry(&mut r, vec![27, 91, 49, 59, 50, 67], keys::KEY_SRIGHT);
    push_entry(&mut r, vec![27, 91, 49, 59, 50, 68], keys::KEY_SLEFT);
    assert(plan_view(r@) =~= xterm_probes_spec());
    r
}

/// The Delete, Page Up and Page Down keys as XTerm-style terminals send them.
/// In order: `ESC [3~` (KEY_DC), `ESC [5~` (KEY_PPAGE), `ESC [6~` (KEY_NPAGE).
pub open spec fn paging_probes_spec() -> Seq<(Seq<u8>, i32)> {
    seq![
        (seq![27, 91, 51, 126], keys::KEY_DC),
        (seq![27, 91, 53, 126], keys::KEY_PPAGE),
        (seq![27, 91, 54, 126], keys::KEY_NPAGE),
    ]
}

/// Builds `paging_probes_spec`.
pub fn paging_probes() -> (r: Vec<(Vec<u8>, i32)>)
    ensures
        plan_view(r@) == paging_probes_spec(),
{
    let mut r: Vec<(Vec<u8>, i32)> = Vec::new();
    assert(plan_view(r@) =~= seq![]);
    push_entry(&mut r, vec![27, 91, 51, 126], keys::KEY_DC);
    push_entry(&mut r, vec![27, 91, 53, 126], keys::KEY_PPAGE);
    push_entry(&mut r, vec![27, 91, 54, 126], keys::KEY_NPAGE);
    assert(plan_view(r@) =~= paging_probes_spec());
    r
}


/// The final byte of grid slot `k` in XTerm's `ESC [ 1 ; <mode> <final>`
/// form: `A`, `B`, `C`, `D`, `H`, `F` (Up, Down, Right, Left, Home, End).
pub open spec fn grid_final(k: int) -> u8 {
    if k == 0 {
        65
    } else if k == 1 {
        66
    } else if k == 2 {
        67
    } else if k == 3 {
        68
    } else if k == 4 {
        72
    } else {
        70
    }
}

/// Entry `j` of the XTerm arrow and Home/End grid: modifier value
/// `2 + j / 6`, slot `j % 6`, bound to `2300 + modifier * 10 + slot`.
pub open spec fn grid_entry(j: int) -> (Seq<u8>, i32) {
    let mode = 2 + j / 6;
    let k = j % 6;
    (seq![27, 91, 49, 59, (49 + mode) as u8, grid_final(k)], (2300 + mode * 10 + k) as i32)
}

/// The introducing digit of paging slot `k` in XTerm's `ESC [ <digit> ; <mode> ~`
/// form (`3`, `5`, `6`: Delete, Page Up, Page Down) and the grid slot it takes.
pub open spec fn paging_key(k: int) -> (u8, int) {
    if k == 0 {
        (51, 8)
    } else if k == 1 {
        (53, 6)
    } else {
        (54, 7)
    }
}

/// Entry `j` of the XTerm Delete/Page Up/Page Down grid: modifier value
/// `2 + j / 3`, key `j % 3`.
pub open spec fn paging_entry(j: int) -> (Seq<u8>, i32) {
    let mode = 2 + j / 3;
    let (digit, slot) = paging_key(j % 3);
    (seq![27, 91, digit, 59, (49 + mode) as u8, 126], (2300 + mode * 10 + slot) as i32)
}

/// Byte `j` of the Alt-prefix catalog: 1 to 26, then `0` to `9`, `A` to `Z`, `a` to `z`.
pub open spec fn alt_prefix_byte(j: int) -> u8 {
    if j < 26 {
        (j + 1) as u8
    } else if j < 36 {
        (48 + j - 26) as u8
    } else if j < 62 {
        (65 + j - 36) as u8
    } else {
        (97 + j - 62) as u8
    }
}

/// Entry `j` of the Alt-prefix bindings: `ESC <byte>` bound to 3000 plus the byte.
pub open spec fn alt_prefix_entry(j: int) -> (Seq<u8>, i32) {
    let b = alt_prefix_byte(j);
    (seq![27, b], (3000 + b) as i32)
}

/// The number of Alt-prefix bindings.
pub const ALT_PREFIX_LEN: usize = 88;

/// The XTerm-style arrow and Home/End keys with modifier values 2 to 7.
pub fn xterm_grid_bindings() -> (r: Vec<(Vec<u8>, i32)>)
    ensures
        plan_view(r@) == grid_spec(),
        r@.len() == 36,
        forall|j: int| 0 <= j < 36 ==> #[trigger] plan_view(r@)[j] == grid_entry(j),
{
    let mut r: Vec<(Vec<u8>, i32)> = Vec::new();
    let mut j: usize = 0;
    while j < 36
        invariant
            j <= 36,
            r@.len() == j,
            forall|k: int| 0 <= k < j ==> #[trigger] plan_view(r@)[k] == grid_entry(k),
        decreases 36 - j,
    {
        let mode = 2 + j / 6;
        let k = j % 6;
        let fin: u8 = if k == 0 {
            65
        } else if k == 1 {
            66
        } else if k == 2 {
            67
        } else if k == 3 {
            68
        } else if k == 4 {
            72
        } else {
            70
        };
        let s = vec![27, 91, 49, 59, (49 + mode) as u8, fin];
        assert(s@ =~= grid_entry(j as int).0);
        push_entry(&mut r, s, (2300 + mode * 10 + k) as i32);
        j = j + 1;
    }
    assert(plan_view(r@) =~= grid_spec());
    r
}

/// The XTerm-style Delete, Page Up and Page Down keys with modifier values 2 to 7.
pub fn xterm_paging_bindings() -> (r: Vec<(Vec<u8>, i32)>)
    ensures
        plan_view(r@) == paging_spec(),
        r@.len() == 18,
        forall|j: int| 0 <= j < 18 ==> #[trigger] plan_view(r@)[j] == paging_entry(j),
{
    let mut r: Vec<(Vec<u8>, i32)> = Vec::new();
    let mut j: usize = 0;
    while j < 18
        invariant
            j <= 18,
            r@.len() == j,
            forall|k: int| 0 <= k < j ==> #[trigger] plan_view(r@)[k] == paging_entry(k),
        decreases 18 - j,
    {
        let mode = 2 + j / 3;
        let (digit, slot): (u8, usize) = if j % 3 == 0 {
            (51, 8)
        } else if j % 3 == 1 {
            (53, 6)
        } else {
            (54, 7)
        };
        let s = vec![27, 91, digit, 59, (49 + mode) as u8, 126];
        assert(s@ =~= paging_entry(j as int).0);
        push_entry(&mut r, s, (2300 + mode * 10 + slot) as i32);
        j = j + 1;
    }
    assert(plan_view(r@) =~= paging_spec());
    r
}

/// The Alt-prefix bindings: `ESC <byte>` for each byte of the catalog.
pub fn alt_prefix_bindings() -> (r: Vec<(Vec<u8>, i32)>)
    ensures
        plan_view(r@) == alt_prefix_spec(),
        r@.len() == ALT_PREFIX_LEN,
        forall|j: int| 0 <= j < ALT_PREFIX_LEN ==> #[trigger] plan_view(r@)[j] == alt_prefix_entry(j),
{
    let mut r: Vec<(Vec<u8>, i32)> = Vec::new();
    let mut j: usize = 0;
    while j < ALT_PREFIX_LEN
        invariant
            j <= ALT_PREFIX_LEN,
            r@.len() == j,
            forall|k: int| 0 <= k < j ==> #[trigger] plan_view(r@)[k] == alt_prefix_entry(k),
        decreases ALT_PREFIX_LEN - j,
    {
        let b: u8 = if j < 26 {
            (j + 1) as u8
        } else if j < 36 {
            (48 + j - 26) as u8
        } else if j < 62 {
            (65 + j - 36) as u8
        } else {
            (97 + j - 62) as u8
        };
        let s = vec![27, b];
        assert(s@ =~= alt_prefix_entry(j as int).0);
        push_entry(&mut r, s, 3000 + b as i32);
        j = j + 1;
    }
    assert(plan_view(r@) =~= alt_prefix_spec());
    r
}

/// All entries, in order.
pub open spec fn grid_spec() -> Seq<(Seq<u8>, i32)> {
    Seq::new(36, |j: int| grid_entry(j))
}

/// All entries, in order.
pub open spec fn paging_spec() -> Seq<(Seq<u8>, i32)> {
    Seq::new(18, |j: int| paging_entry(j))
}

/// All entries, in order.
pub open spec fn alt_prefix_spec() -> Seq<(Seq<u8>, i32)> {
    Seq::new(88, |j: int| alt_prefix_entry(j))
}

} // verus!
