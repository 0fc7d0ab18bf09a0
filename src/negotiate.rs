//! The steps of the capability negotiation, stated over the record of the
//! backend calls they make and the answers they got.
use vstd::prelude::*;

use crate::backend::{KeyError, TerminalBackend};
use crate::plan::{catalog_name, plan_view, CATALOG_LEN};
use crate::record::{
    added, concat_all, define_answer, extends, lookup_answer, overridden_answer, terminfo_answer,
    Call, Recorder,
};

verus! {

/// The calls of reserving `plan`: each sequence is bound to its code in
/// order, and the first refusal ends the step.
pub open spec fn reservation_calls(plan: Seq<(Seq<u8>, i32)>, seg: Seq<Call>) -> bool {
    &&& reservation_prefix(plan, seg)
    &&& seg.len() < plan.len() ==> seg.len() > 0 && define_answer(seg.last()) is Err
}

/// The calls of reserving the first entries of `plan`, all but the last granted.
pub open spec fn reservation_prefix(plan: Seq<(Seq<u8>, i32)>, seg: Seq<Call>) -> bool {
    &&& seg.len() <= plan.len()
    &&& forall|i: int|
        0 <= i < seg.len() ==> #[trigger] seg[i] == Call::Define(plan[i].0, plan[i].1, define_answer(seg[i]))
    &&& forall|i: int| 0 <= i < seg.len() - 1 ==> define_answer(#[trigger] seg[i]) is Ok
}

/// Every sequence of the plan was bound.
pub open spec fn reservations_granted(plan: Seq<(Seq<u8>, i32)>, seg: Seq<Call>) -> bool {
    seg.len() == plan.len() && forall|i: int| 0 <= i < seg.len() ==> define_answer(#[trigger] seg[i]) is Ok
}

/// The calls of probing: each sequence is looked up in order, and the first
/// that is not bound to its code ends the step.
pub open spec fn probe_calls(probes: Seq<(Seq<u8>, i32)>, seg: Seq<Call>) -> bool {
    &&& probe_prefix(probes, seg)
    &&& seg.len() < probes.len() ==> seg.len() > 0 && lookup_answer(seg.last()) != Ok::<i32, KeyError>(
        probes[seg.len() - 1].1,
    )
}

/// The calls of probing the first entries of `probes`, all but the last matched.
pub open spec fn probe_prefix(probes: Seq<(Seq<u8>, i32)>, seg: Seq<Call>) -> bool {
    &&& seg.len() <= probes.len()
    &&& forall|i: int|
        0 <= i < seg.len() ==> #[trigger] seg[i] == Call::KeyCodeFor(probes[i].0, lookup_answer(seg[i]))
    &&& forall|i: int| 0 <= i < seg.len() - 1 ==> lookup_answer(#[trigger] seg[i]) == Ok::<i32, KeyError>(probes[i].1)
}

/// Every probed sequence was bound to its code.
pub open spec fn probes_matched(probes: Seq<(Seq<u8>, i32)>, seg: Seq<Call>) -> bool {
    seg.len() == probes.len() && forall|i: int|
        0 <= i < seg.len() ==> lookup_answer(#[trigger] seg[i]) == Ok::<i32, KeyError>(probes[i].1)
}

/// A lookup answer that leaves the sequence free to bind: not defined, or
/// a backend that cannot tell.
pub open spec fn needs_definition(a: Result<i32, KeyError>) -> bool {
    a == Err::<i32, KeyError>(KeyError::NotDefined) || a == Err::<i32, KeyError>(KeyError::NotSupported)
}

/// The calls of binding `definition` to `code` where free: one lookup, then
/// one definition exactly when the lookup left the sequence free.
pub open spec fn definition_calls(definition: Seq<u8>, code: i32, seg: Seq<Call>) -> bool {
    &&& seg.len() >= 1
    &&& seg[0] == Call::KeyCodeFor(definition, lookup_answer(seg[0]))
    &&& if needs_definition(lookup_answer(seg[0])) {
        seg.len() == 2 && seg[1] == Call::Define(definition, code, define_answer(seg[1]))
    } else {
        seg.len() == 1
    }
}

/// The outcome of binding where free: the definition's answer, or success
/// where nothing had to be defined.
pub open spec fn definition_result(seg: Seq<Call>) -> Result<(), ()> {
    if seg.len() == 2 {
        define_answer(seg[1])
    } else {
        Ok(())
    }
}

/// The calls of binding every entry of `plan` where free, one part per entry.
pub open spec fn define_all_calls(plan: Seq<(Seq<u8>, i32)>, parts: Seq<Seq<Call>>) -> bool {
    parts.len() == plan.len() && forall|i: int|
        0 <= i < parts.len() ==> definition_calls(plan[i].0, plan[i].1, #[trigger] parts[i])
}

/// Binds every sequence of `plan` in order, stopping at the first refusal;
/// `true` when all were bound.
pub fn reserve_all<B: TerminalBackend>(rec: &mut Recorder<B>, plan: &Vec<(Vec<u8>, i32)>) -> (r: bool)
    ensures
        extends(old(rec).log(), final(rec).log()),
        reservation_calls(plan_view(plan@), added(old(rec).log(), final(rec).log())),
        r == reservations_granted(plan_view(plan@), added(old(rec).log(), final(rec).log())),
{
    let ghost l0 = rec.log();
    let ghost p = plan_view(plan@);
    let mut i: usize = 0;
    assert(rec.log().take(l0.len() as int) =~= l0);
    assert(added(l0, rec.log()) =~= Seq::<Call>::empty());
    while i < plan.len()
        invariant
            i <= plan@.len(),
            p == plan_view(plan@),
            l0 == old(rec).log(),
            extends(l0, rec.log()),
            added(l0, rec.log()).len() == i,
            reservation_prefix(p, added(l0, rec.log())),
            forall|k: int| 0 <= k < i ==> define_answer(#[trigger] added(l0, rec.log())[k]) is Ok,
        decreases plan@.len() - i,
    {
        let ghost before = rec.log();
        let answer = rec.define_key_code(&plan[i].0, plan[i].1);
        proof {
            let old_seg = added(l0, before);
            let seg = added(l0, rec.log());
            assert(seg =~= old_seg.push(Call::Define(p[i as int].0, p[i as int].1, answer)));
            assert(rec.log().take(l0.len() as int) =~= l0);
            assert forall|k: int| 0 <= k < seg.len() implies #[trigger] seg[k] == Call::Define(
                p[k].0,
                p[k].1,
                define_answer(seg[k]),
            ) by {
                if k < i {
                    assert(seg[k] == old_seg[k]);
                }
            }
            assert forall|k: int| 0 <= k < i implies define_answer(#[trigger] seg[k]) is Ok by {
                assert(seg[k] == old_seg[k]);
            }
        }
        if answer.is_err() {
            return false;
        }
        i = i + 1;
    }
    true
}

/// Whether every sequence of `probes` is bound to its code, looking them up
/// in order and stopping at the first that is not.
pub fn all_bound<B: TerminalBackend>(rec: &mut Recorder<B>, probes: &Vec<(Vec<u8>, i32)>) -> (r: bool)
    ensures
        extends(old(rec).log(), final(rec).log()),
        probe_calls(plan_view(probes@), added(old(rec).log(), final(rec).log())),
        r == probes_matched(plan_view(probes@), added(old(rec).log(), final(rec).log())),
{
    let ghost l0 = rec.log();
    let ghost p = plan_view(probes@);
    let mut i: usize = 0;
    assert(rec.log().take(l0.len() as int) =~= l0);
    assert(added(l0, rec.log()) =~= Seq::<Call>::empty());
    while i < probes.len()
        invariant
            i <= probes@.len(),
            p == plan_view(probes@),
            l0 == old(rec).log(),
            extends(l0, rec.log()),
            added(l0, rec.log()).len() == i,
            probe_prefix(p, added(l0, rec.log())),
            forall|k: int| 0 <= k < i ==> lookup_answer(#[trigger] added(l0, rec.log())[k]) == Ok::<i32, KeyError>(p[k].1),
        decreases probes@.len() - i,
    {
        let ghost before = rec.log();
        let answer = rec.key_code_for(&probes[i].0);
        proof {
            let old_seg = added(l0, before);
            let seg = added(l0, rec.log());
            assert(seg =~= old_seg.push(Call::KeyCodeFor(p[i as int].0, answer)));
            assert(rec.log().take(l0.len() as int) =~= l0);
            assert forall|k: int| 0 <= k < seg.len() implies #[trigger] seg[k] == Call::KeyCodeFor(
                p[k].0,
                lookup_answer(seg[k]),
            ) by {
                if k < i {
                    assert(seg[k] == old_seg[k]);
                }
            }
            assert forall|k: int| 0 <= k < i implies lookup_answer(#[trigger] seg[k]) == Ok::<i32, KeyError>(p[k].1) by {
                assert(seg[k] == old_seg[k]);
            }
        }
        let matched = match answer {
            Ok(code) => code == probes[i].1,
            Err(_) => false,
        };
        if !matched {
            return false;
        }
        i = i + 1;
    }
    true
}

/// Binds `definition` to `code` unless the sequence is bound already or
/// conflicts with a binding; a backend that cannot tell is asked to bind.
pub fn define_if_necessary<B: TerminalBackend>(rec: &mut Recorder<B>, definition: &Vec<u8>, code: i32) -> (r: Result<(), ()>)
    ensures
        extends(old(rec).log(), final(rec).log()),
        definition_calls(definition@, code, added(old(rec).log(), final(rec).log())),
        r == definition_result(added(old(rec).log(), final(rec).log())),
{
    let ghost l0 = rec.log();
    let answer = rec.key_code_for(definition);
    let needed = match answer {
        Err(KeyError::NotDefined) => true,
        Err(KeyError::NotSupported) => true,
        _ => false,
    };
    if needed {
        let r = rec.define_key_code(definition, code);
        assert(added(l0, rec.log()) =~= seq![Call::KeyCodeFor(definition@, answer), Call::Define(definition@, code, r)]);
        assert(rec.log().take(l0.len() as int) =~= l0);
        r
    } else {
        assert(added(l0, rec.log()) =~= seq![Call::KeyCodeFor(definition@, answer)]);
        assert(rec.log().take(l0.len() as int) =~= l0);
        Ok(())
    }
}

/// `define_if_necessary` on every entry of `plan`, in order, whatever the
/// outcome of each; `parts` holds the calls of each entry.
pub fn define_all_if_necessary<B: TerminalBackend>(rec: &mut Recorder<B>, plan: &Vec<(Vec<u8>, i32)>) -> (parts: Ghost<Seq<Seq<Call>>>)
    ensures
        final(rec).log() == old(rec).log() + concat_all(parts@),
        define_all_calls(plan_view(plan@), parts@),
{
    let ghost l0 = rec.log();
    let ghost p = plan_view(plan@);
    let ghost mut parts: Seq<Seq<Call>> = seq![];
    assert(l0 + concat_all(parts) =~= l0);
    let mut i: usize = 0;
    while i < plan.len()
        invariant
            i <= plan@.len(),
            p == plan_view(plan@),
            l0 == old(rec).log(),
            parts.len() == i,
            rec.log() == l0 + concat_all(parts),
            forall|k: int| 0 <= k < i ==> definition_calls(p[k].0, p[k].1, #[trigger] parts[k]),
        decreases plan@.len() - i,
    {
        let ghost before = rec.log();
        let _ = define_if_necessary(rec, &plan[i].0, plan[i].1);
        proof {
            let part = added(before, rec.log());
            assert(rec.log() =~= before + part);
            assert(parts.push(part).drop_last() =~= parts);
            assert(concat_all(parts.push(part)) == concat_all(parts) + part);
            parts = parts.push(part);
            assert(rec.log() =~= l0 + concat_all(parts));
        }
        i = i + 1;
    }
    assert(define_all_calls(p, parts));
    Ghost(parts)
}


/// The escape-disambiguation delay set when none was given from outside, in milliseconds.
pub const ESCAPE_DELAY_MS: i32 = 25;

/// The answer of a `write_raw` call.
pub open spec fn write_answer(c: Call) -> bool {
    match c {
        Call::Write(_, a) => a,
        _ => false,
    }
}

/// The calls of starting an optional protocol: its reservations, and the
/// write of its `enable` sequence only if all were granted. `live` tells
/// whether its guard exists: exactly when that write succeeded.
pub open spec fn protocol_calls(plan: Seq<(Seq<u8>, i32)>, enable: Seq<u8>, seg: Seq<Call>, live: bool) -> bool {
    if seg.len() > 0 && seg.last() is Write {
        &&& reservation_calls(plan, seg.drop_last())
        &&& reservations_granted(plan, seg.drop_last())
        &&& seg.last() == Call::Write(enable, live)
    } else {
        &&& reservation_calls(plan, seg)
        &&& !reservations_granted(plan, seg)
        &&& !live
    }
}

/// The calls about the escape delay: one question, and the delay set to
/// `ESCAPE_DELAY_MS` exactly when it was not given from outside.
pub open spec fn delay_calls(seg: Seq<Call>) -> bool {
    &&& seg.len() >= 1
    &&& seg[0] == Call::EscapeDelayOverridden(overridden_answer(seg[0]))
    &&& if overridden_answer(seg[0]) {
        seg.len() == 1
    } else {
        seg.len() == 2 && seg[1] == Call::SetEscapeDelay(ESCAPE_DELAY_MS)
    }
}

/// The calls about one catalog capability: its terminfo string, then the key
/// code bound to that string if there is one.
pub open spec fn catalog_entry_calls(name: Seq<u8>, seg: Seq<Call>) -> bool {
    &&& seg.len() >= 1
    &&& seg[0] == Call::Terminfo(name, terminfo_answer(seg[0]))
    &&& match terminfo_answer(seg[0]) {
        None => seg.len() == 1,
        Some(d) => seg.len() == 2 && seg[1] == Call::KeyCodeFor(d, lookup_answer(seg[1])),
    }
}

/// The key code that one catalog capability resolved to, if any.
pub open spec fn catalog_code(seg: Seq<Call>) -> Option<i32> {
    if seg.len() == 2 {
        match lookup_answer(seg[1]) {
            Ok(c) => Some(c),
            Err(_) => None,
        }
    } else {
        None
    }
}

/// The calls about the whole catalog, one part per capability.
pub open spec fn catalog_calls(parts: Seq<Seq<Call>>) -> bool {
    parts.len() == CATALOG_LEN && forall|j: int|
        0 <= j < parts.len() ==> catalog_entry_calls(catalog_name(j), #[trigger] parts[j])
}

/// The key code of each catalog capability, in catalog order.
pub open spec fn catalog_codes(parts: Seq<Seq<Call>>) -> Seq<Option<i32>> {
    parts.map_values(|seg: Seq<Call>| catalog_code(seg))
}

/// The calls of extending one terminal family's bindings.
pub struct FamilyRecord {
    /// Looking up the family's reference sequences.
    pub probes: Seq<Call>,
    /// Binding the family's sequences, if the probes matched.
    pub bindings: Seq<Seq<Call>>,
    /// Looking up the second set of reference sequences, if the probes matched.
    pub extra_probes: Seq<Call>,
    /// Binding the second set of sequences, if those matched too.
    pub extra_bindings: Seq<Seq<Call>>,
}

/// All calls of a family step, in order.
pub open spec fn family_log(f: FamilyRecord) -> Seq<Call> {
    f.probes + concat_all(f.bindings) + f.extra_probes + concat_all(f.extra_bindings)
}

/// A family step: the probes; only if all matched, the family's bindings
/// where free and the second probes; only if those matched too, the second
/// bindings where free.
pub open spec fn family_calls(
    probes: Seq<(Seq<u8>, i32)>,
    plan: Seq<(Seq<u8>, i32)>,
    extra_probes: Seq<(Seq<u8>, i32)>,
    extra_plan: Seq<(Seq<u8>, i32)>,
    f: FamilyRecord,
) -> bool {
    &&& probe_calls(probes, f.probes)
    &&& if probes_matched(probes, f.probes) {
        &&& define_all_calls(plan, f.bindings)
        &&& probe_calls(extra_probes, f.extra_probes)
        &&& if probes_matched(extra_probes, f.extra_probes) {
            define_all_calls(extra_plan, f.extra_bindings)
        } else {
            f.extra_bindings.len() == 0
        }
    } else {
        f.bindings.len() == 0 && f.extra_probes.len() == 0 && f.extra_bindings.len() == 0
    }
}

/// Runs a family step (see `family_calls`).
pub fn extend_family<B: TerminalBackend>(
    rec: &mut Recorder<B>,
    probes: &Vec<(Vec<u8>, i32)>,
    plan: &Vec<(Vec<u8>, i32)>,
    extra_probes: &Vec<(Vec<u8>, i32)>,
    extra_plan: &Vec<(Vec<u8>, i32)>,
) -> (f: Ghost<FamilyRecord>)
    ensures
        final(rec).log() == old(rec).log() + family_log(f@),
        family_calls(
            plan_view(probes@),
            plan_view(plan@),
            plan_view(extra_probes@),
            plan_view(extra_plan@),
            f@,
        ),
{
    let ghost l0 = rec.log();
    let matched = all_bound(rec, probes);
    let ghost probe_seg = added(l0, rec.log());
    assert(rec.log() =~= l0 + probe_seg);
    let ghost mut f = FamilyRecord {
        probes: probe_seg,
        bindings: seq![],
        extra_probes: seq![],
        extra_bindings: seq![],
    };
    if matched {
        let parts = define_all_if_necessary(rec, plan);
        let ghost l1 = rec.log();
        let matched2 = all_bound(rec, extra_probes);
        let ghost extra_seg = added(l1, rec.log());
        assert(rec.log() =~= l1 + extra_seg);
        proof {
            f.bindings = parts@;
            f.extra_probes = extra_seg;
        }
        if matched2 {
            let parts2 = define_all_if_necessary(rec, extra_plan);
            proof {
                f.extra_bindings = parts2@;
            }
        }
    }
    assert(rec.log() =~= l0 + family_log(f));
    Ghost(f)
}

} // verus!
