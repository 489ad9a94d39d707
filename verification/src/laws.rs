//! Pass-level guarantees of the reconcile-and-upsert protocol.
//!
//! The lemmas here hold of every run of the pass state machine, observed
//! from the outside as a trace: the starting state and first action that
//! [`PassState::start`] hands back, then one `(event, state, action)` triple
//! per call of [`PassState::step`]. They pin down the protocol's network
//! discipline: lookups are issued only for wanted families, at most once per
//! family and pass, and an update call is issued exactly as the one fallback
//! of a create call answered with the conflict status.

use vstd::prelude::*;

use crate::cfg::Target;
use crate::ipify::IpFamily;
use crate::ipify::Ips;
use crate::livedns::{create_disposition_of, update_disposition_of, CreateDisposition,
    DnsRecordType, UpdateDisposition, UpsertOutcome};
use crate::reconcile::{action_matches_plan, advance_plan, advances_from, empty_ips, expects,
    family_of, part_rank, pass_started, phase_for, report_appended, start_plan, step_rel,
    update_action_is, wants, wf, Action, Advance, Event, Part, PassState, Phase, StepKind};

verus! {

/// Whether `a` is the lookup action of `family`.
pub open spec fn is_lookup(a: Action, family: IpFamily) -> bool {
    a matches Action::Lookup { family: f } && f == family
}

/// What the walk of [`advance_plan`] guarantees about where it lands: the
/// landing index never goes backwards, the walk finishes exactly at the end
/// of the target list, a lookup is only emitted for a wanted, uncached
/// family, a create only for a wanted, cached one, and every target the walk
/// passed over has all its wanted families cached.
pub proof fn lemma_advance_plan(targets: Seq<Target>, ips: Ips, idx: int, part: Part)
    requires
        0 <= idx <= targets.len(),
        part != Part::Lookups ==> idx < targets.len() && (targets[idx].ipv4
            ==> ips.v4 is Some) && (targets[idx].ipv6 ==> ips.v6 is Some),
        forall|j: int|
            0 <= j < idx ==> ((#[trigger] targets[j]).ipv4 ==> ips.v4 is Some) && (
            targets[j].ipv6 ==> ips.v6 is Some),
    ensures
        ({
            let adv = advance_plan(targets, ips, idx, part);
            &&& idx <= adv.idx <= targets.len()
            &&& (adv.kind == StepKind::Finish <==> adv.idx == targets.len())
            &&& adv.kind == StepKind::LookupV4 ==> adv.idx < targets.len()
                && targets[adv.idx].ipv4 && ips.v4 is None
            &&& adv.kind == StepKind::LookupV6 ==> adv.idx < targets.len()
                && targets[adv.idx].ipv6 && ips.v6 is None && (targets[adv.idx].ipv4
                ==> ips.v4 is Some)
            &&& adv.kind == StepKind::CreateA ==> adv.idx < targets.len()
                && targets[adv.idx].ipv4 && ips.v4 is Some && (targets[adv.idx].ipv6
                ==> ips.v6 is Some)
            &&& adv.kind == StepKind::CreateAAAA ==> adv.idx < targets.len()
                && targets[adv.idx].ipv6 && ips.v6 is Some && (targets[adv.idx].ipv4
                ==> ips.v4 is Some)
            &&& forall|j: int|
                0 <= j < adv.idx ==> ((#[trigger] targets[j]).ipv4 ==> ips.v4 is Some)
                    && (targets[j].ipv6 ==> ips.v6 is Some)
        }),
    decreases 3 * (targets.len() - idx) + part_rank(part),
{
    if idx < targets.len() {
        let t = targets[idx];
        match part {
            Part::Lookups => {
                if t.ipv4 && ips.v4 is None {
                } else if t.ipv6 && ips.v6 is None {
                } else {
                    lemma_advance_plan(targets, ips, idx, Part::SyncA);
                }
            },
            Part::SyncA => {
                if t.ipv4 && ips.v4 is Some {
                } else {
                    lemma_advance_plan(targets, ips, idx, Part::SyncAAAA);
                }
            },
            Part::SyncAAAA => {
                if t.ipv6 && ips.v6 is Some {
                } else {
                    lemma_advance_plan(targets, ips, idx + 1, Part::Lookups);
                }
            },
        }
    }
}

/// What a single step guarantees, for a fixed `family`: well-formedness and
/// the target list are preserved; a lookup of `family` is issued only when
/// the then-current target wants it and its address is not yet cached; the
/// pass waits for a lookup of `family` exactly after issuing one; the cached
/// address of `family` changes only while such a lookup is in flight, and
/// consuming its answer either caches an address or aborts the pass; and the
/// Done action is handed out exactly when the pass reaches its Done phase.
pub proof fn lemma_step_props(pre: PassState, e: Event, post: PassState, act: Action,
    family: IpFamily)
    requires
        wf(pre),
        expects(pre, e),
        step_rel(pre, e, post, act),
    ensures
        wf(post),
        post.targets == pre.targets,
        is_lookup(act, family) ==> post.idx < post.targets@.len() && wants(
            post.targets@[post.idx as int],
            family,
        ) && post.ips.of_family(family) is None && post.phase == (Phase::AwaitLookup { family }),
        !is_lookup(act, family) ==> post.phase != (Phase::AwaitLookup { family }),
        pre.phase != (Phase::AwaitLookup { family }) ==> post.ips.of_family(family)
            == pre.ips.of_family(family),
        pre.phase == (Phase::AwaitLookup { family }) ==> (post.ips.of_family(family) is Some
            || post.phase is Failed),
        act is Done <==> post.phase is Done,
{
    match pre.phase {
        Phase::AwaitLookup { family: f } => {
            match e {
                Event::LookupOk { addr } => {
                    lemma_advance_plan(pre.targets@, post.ips, pre.idx as int, Part::Lookups);
                },
                Event::LookupErr { msg } => {
                },
                Event::HttpResponse { .. } => {
                    assert(false);
                },
            }
        },
        Phase::AwaitCreate { kind } => {
            match e {
                Event::HttpResponse { status, body } => {
                    match create_disposition_of(status) {
                        CreateDisposition::Unchanged | CreateDisposition::Created => {
                            match kind {
                                DnsRecordType::A => lemma_advance_plan(
                                    pre.targets@,
                                    pre.ips,
                                    pre.idx as int,
                                    Part::SyncAAAA,
                                ),
                                DnsRecordType::AAAA => lemma_advance_plan(
                                    pre.targets@,
                                    pre.ips,
                                    pre.idx as int + 1,
                                    Part::Lookups,
                                ),
                            }
                        },
                        CreateDisposition::Conflict => {
                        },
                        CreateDisposition::Error => {
                        },
                    }
                },
                _ => {
                    assert(false);
                },
            }
        },
        Phase::AwaitUpdate { kind } => {
            match e {
                Event::HttpResponse { status, body } => {
                    match update_disposition_of(status) {
                        UpdateDisposition::Updated => {
                            match kind {
                                DnsRecordType::A => lemma_advance_plan(
                                    pre.targets@,
                                    pre.ips,
                                    pre.idx as int,
                                    Part::SyncAAAA,
                                ),
                                DnsRecordType::AAAA => lemma_advance_plan(
                                    pre.targets@,
                                    pre.ips,
                                    pre.idx as int + 1,
                                    Part::Lookups,
                                ),
                            }
                        },
                        UpdateDisposition::Error => {
                        },
                    }
                },
                _ => {
                    assert(false);
                },
            }
        },
        Phase::Done => {
            assert(false);
        },
        Phase::Failed => {
            assert(false);
        },
    }
}

/// What the pass's first action guarantees, for a fixed `family`: the fresh
/// state is well formed, nothing is cached yet, a lookup is only issued for
/// a family the first unsatisfied target wants, and the pass waits for a
/// lookup of `family` exactly after issuing one.
pub proof fn lemma_start_props(targets: Vec<Target>, s0: PassState, a0: Action, family: IpFamily)
    requires
        pass_started(targets, s0, a0),
    ensures
        wf(s0),
        s0.targets == targets,
        s0.ips.of_family(family) is None,
        is_lookup(a0, family) ==> s0.idx < s0.targets@.len() && wants(
            s0.targets@[s0.idx as int],
            family,
        ) && s0.phase == (Phase::AwaitLookup { family }),
        !is_lookup(a0, family) ==> s0.phase != (Phase::AwaitLookup { family }),
        a0 is Done <==> s0.phase is Done,
{
    lemma_advance_plan(targets@, empty_ips(), 0, Part::Lookups);
}

/// The pass state a trace stands in just before consuming its `i`-th event:
/// the starting state for `i == 0`, else the state the previous step left.
pub open spec fn state_at(s0: PassState, states: Seq<PassState>, i: int) -> PassState {
    if i == 0 {
        s0
    } else {
        states[i - 1]
    }
}

/// Whether `(events, states, acts)` is a run of the pass from `s0`: for each
/// step the event answers the action in flight and the step relation links
/// the states and the action handed out.
pub open spec fn trace_ok(s0: PassState, events: Seq<Event>, states: Seq<PassState>,
    acts: Seq<Action>) -> bool {
    &&& states.len() == events.len()
    &&& acts.len() == events.len()
    &&& forall|i: int|
        0 <= i < events.len() ==> expects(state_at(s0, states, i), #[trigger] events[i])
            && step_rel(state_at(s0, states, i), events[i], states[i], acts[i])
}

/// Along any run the states stay well formed and the target list never
/// changes.
pub proof fn lemma_trace_wf(s0: PassState, events: Seq<Event>, states: Seq<PassState>,
    acts: Seq<Action>, i: int)
    requires
        wf(s0),
        trace_ok(s0, events, states, acts),
        0 <= i <= events.len(),
    ensures
        wf(state_at(s0, states, i)),
        state_at(s0, states, i).targets == s0.targets,
    decreases i,
{
    if i > 0 {
        lemma_trace_wf(s0, events, states, acts, i - 1);
        lemma_step_props(
            state_at(s0, states, i - 1),
            events[i - 1],
            states[i - 1],
            acts[i - 1],
            IpFamily::V4,
        );
    }
}

/// A pass issues no lookup for an address family that none of its targets
/// asks for: targets wanting only IPv4 cause no IPv6 lookup, and targets
/// wanting only IPv6 cause no IPv4 lookup.
pub proof fn lemma_no_unwanted_lookup(targets: Vec<Target>, s0: PassState, a0: Action,
    events: Seq<Event>, states: Seq<PassState>, acts: Seq<Action>, family: IpFamily)
    requires
        pass_started(targets, s0, a0),
        trace_ok(s0, events, states, acts),
        forall|j: int| 0 <= j < targets@.len() ==> !wants(#[trigger] targets@[j], family),
    ensures
        !is_lookup(a0, family),
        forall|i: int| 0 <= i < acts.len() ==> !is_lookup(#[trigger] acts[i], family),
{
    lemma_start_props(targets, s0, a0, family);
    assert forall|i: int| 0 <= i < acts.len() implies !is_lookup(#[trigger] acts[i], family) by {
        lemma_trace_wf(s0, events, states, acts, i);
        lemma_step_props(state_at(s0, states, i), events[i], states[i], acts[i], family);
    }
}

/// How many of the actions are the lookup of `family`.
pub open spec fn count_lookups(acts: Seq<Action>, family: IpFamily) -> int
    decreases acts.len(),
{
    if acts.len() == 0 {
        0
    } else {
        count_lookups(acts.drop_last(), family) + (if is_lookup(acts.last(), family) {
            1int
        } else {
            0int
        })
    }
}

/// Whether the pass's first action was already the lookup of `family`.
pub open spec fn init_lookup_count(a0: Action, family: IpFamily) -> int {
    if is_lookup(a0, family) {
        1
    } else {
        0
    }
}

/// The bookkeeping behind the at-most-one-lookup guarantee: `c` counts the
/// lookups of `family` issued so far. No lookup was issued while nothing of
/// `family` is cached and none is in flight; after one was issued, either
/// its answer is cached, or it is still in flight, or the pass aborted; and
/// a lookup in flight is one whose answer is not yet cached.
pub open spec fn lookup_inv(s: PassState, c: int, family: IpFamily) -> bool {
    &&& 0 <= c <= 1
    &&& c == 0 ==> s.ips.of_family(family) is None && s.phase != (Phase::AwaitLookup { family })
    &&& c == 1 ==> (s.ips.of_family(family) is Some || s.phase == (Phase::AwaitLookup { family })
        || s.phase is Failed)
    &&& s.phase == (Phase::AwaitLookup { family }) ==> s.ips.of_family(family) is None
}

/// One step keeps the lookup bookkeeping, counting the action it hands out.
proof fn lemma_lookup_inv_step(pre: PassState, e: Event, post: PassState, act: Action, c: int,
    family: IpFamily)
    requires
        wf(pre),
        expects(pre, e),
        step_rel(pre, e, post, act),
        lookup_inv(pre, c, family),
    ensures
        lookup_inv(
            post,
            c + (if is_lookup(act, family) {
                1int
            } else {
                0int
            }),
            family,
        ),
{
    lemma_step_props(pre, e, post, act, family);
}

/// The lookup bookkeeping holds at every point of a run, with the count of
/// the lookups of `family` issued up to that point.
proof fn lemma_lookup_inv_at(targets: Vec<Target>, s0: PassState, a0: Action, events: Seq<Event>,
    states: Seq<PassState>, acts: Seq<Action>, family: IpFamily, i: int)
    requires
        pass_started(targets, s0, a0),
        trace_ok(s0, events, states, acts),
        0 <= i <= events.len(),
    ensures
        lookup_inv(
            state_at(s0, states, i),
            init_lookup_count(a0, family) + count_lookups(acts.take(i), family),
            family,
        ),
    decreases i,
{
    if i == 0 {
        assert(acts.take(0) =~= Seq::<Action>::empty());
        lemma_start_props(targets, s0, a0, family);
    } else {
        lemma_lookup_inv_at(targets, s0, a0, events, states, acts, family, i - 1);
        lemma_start_props(targets, s0, a0, family);
        lemma_trace_wf(s0, events, states, acts, i - 1);
        assert(acts.take(i).drop_last() =~= acts.take(i - 1));
        assert(acts.take(i).last() == acts[i - 1]);
        lemma_lookup_inv_step(
            state_at(s0, states, i - 1),
            events[i - 1],
            states[i - 1],
            acts[i - 1],
            init_lookup_count(a0, family) + count_lookups(acts.take(i - 1), family),
            family,
        );
    }
}

/// Within one pass each address family is looked up at most once, however
/// many targets share it. A pass that ran to completion looked a family up
/// exactly once when at least one of its targets wants that family — later
/// targets reuse the address the first lookup cached.
pub proof fn lemma_single_lookup_per_family(targets: Vec<Target>, s0: PassState, a0: Action,
    events: Seq<Event>, states: Seq<PassState>, acts: Seq<Action>, family: IpFamily)
    requires
        pass_started(targets, s0, a0),
        trace_ok(s0, events, states, acts),
    ensures
        init_lookup_count(a0, family) + count_lookups(acts, family) <= 1,
        state_at(s0, states, events.len() as int).phase is Done && (exists|j: int|
            0 <= j < targets@.len() && wants(#[trigger] targets@[j], family))
            ==> init_lookup_count(a0, family) + count_lookups(acts, family) == 1,
{
    let n = events.len() as int;
    lemma_lookup_inv_at(targets, s0, a0, events, states, acts, family, n);
    assert(acts.take(n) =~= acts);
    let s_end = state_at(s0, states, n);
    lemma_start_props(targets, s0, a0, family);
    lemma_trace_wf(s0, events, states, acts, n);
    if s_end.phase is Done && (exists|j: int|
        0 <= j < targets@.len() && wants(#[trigger] targets@[j], family)) {
        let j = choose|j: int| 0 <= j < targets@.len() && wants(#[trigger] targets@[j], family);
        assert(s_end.targets@[j].ipv4 ==> s_end.ips.v4 is Some);
        assert(s_end.targets@[j].ipv6 ==> s_end.ips.v6 is Some);
        assert(s_end.ips.of_family(family) is Some);
    }
}

/// A create call answered with the conflict status triggers exactly one
/// fallback update call, on the same record with the same value, before any
/// outcome is recorded: the step hands out the update action, records
/// nothing yet, and leaves the pass waiting for the update's answer.
pub proof fn lemma_conflict_falls_back_to_update(pre: PassState, e: Event, post: PassState,
    act: Action)
    requires
        wf(pre),
        expects(pre, e),
        step_rel(pre, e, post, act),
        pre.phase is AwaitCreate,
        e matches Event::HttpResponse { status, .. } && create_disposition_of(status)
            == CreateDisposition::Conflict,
    ensures
        update_action_is(
            act,
            pre.targets@[pre.idx as int],
            pre.phase->AwaitCreate_kind,
            pre.ips,
        ),
        post.phase == (Phase::AwaitUpdate { kind: pre.phase->AwaitCreate_kind }),
        post.reports == pre.reports,
        post.idx == pre.idx,
        post.ips == pre.ips,
{
}

/// An update call is issued only as the immediate fallback of a create call
/// answered with the conflict status — never on its own, and never twice for
/// one record.
pub proof fn lemma_update_only_after_conflict(pre: PassState, e: Event, post: PassState,
    act: Action)
    requires
        wf(pre),
        expects(pre, e),
        step_rel(pre, e, post, act),
        act is HttpUpdate,
    ensures
        pre.phase is AwaitCreate,
        e matches Event::HttpResponse { status, .. } && create_disposition_of(status)
            == CreateDisposition::Conflict,
{
    lemma_step_props(pre, e, post, act, IpFamily::V4);
}

/// A create call answered with the created or unchanged status records that
/// outcome at once, and no update call is issued for the record: the step's
/// action is never an update, and the pass does not wait for one.
pub proof fn lemma_create_success_skips_update(pre: PassState, e: Event, post: PassState,
    act: Action)
    requires
        wf(pre),
        expects(pre, e),
        step_rel(pre, e, post, act),
        pre.phase is AwaitCreate,
        e matches Event::HttpResponse { status, .. } && (create_disposition_of(status)
            == CreateDisposition::Created || create_disposition_of(status)
            == CreateDisposition::Unchanged),
    ensures
        !(act is HttpUpdate),
        !(post.phase is AwaitUpdate),
        report_appended(
            pre,
            post,
            pre.phase->AwaitCreate_kind,
            if create_disposition_of(e->HttpResponse_status) == CreateDisposition::Created {
                UpsertOutcome::Created
            } else {
                UpsertOutcome::Unchanged
            },
        ),
{
    lemma_step_props(pre, e, post, act, IpFamily::V4);
}

/// The answer to the fallback update call settles the record's outcome: the
/// outcome — Updated, or Failed with the status and body — is recorded, and
/// no further update call is issued for the record.
pub proof fn lemma_update_resolves(pre: PassState, e: Event, post: PassState, act: Action)
    requires
        wf(pre),
        expects(pre, e),
        step_rel(pre, e, post, act),
        pre.phase is AwaitUpdate,
    ensures
        !(act is HttpUpdate),
        e matches Event::HttpResponse { status, body } ==> report_appended(
            pre,
            post,
            pre.phase->AwaitUpdate_kind,
            if update_disposition_of(status) == UpdateDisposition::Updated {
                UpsertOutcome::Updated
            } else {
                (UpsertOutcome::Failed { status, body })
            },
        ),
{
    lemma_step_props(pre, e, post, act, IpFamily::V4);
}

} // verus!
