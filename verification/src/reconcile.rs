//! One reconciliation pass over the configured targets, as a state machine.
//!
//! The pass owns every decision of the reconcile-and-upsert protocol but
//! performs no network call itself. It hands the caller one [`Action`] at a
//! time — look an address family up, create a record, update a record — and
//! consumes the caller's observation of the outside world as an [`Event`].
//! The caller loops: perform the action, feed the event back through
//! [`PassState::step`], stop at [`Action::Done`] or [`Action::Failed`].
//!
//! Per pass, each address family is looked up at most once: the first target
//! that needs a family fills the cache, every later target reuses it. Each
//! record is synchronised by a create call, with exactly one fallback update
//! call when the create is answered with the conflict status. The first
//! failure — lookup or upsert — aborts the remainder of the pass.

use vstd::prelude::*;
use vstd::pervasive::unreached;

use crate::cfg::Target;
use crate::ipify::{IpFamily, Ips};
use crate::livedns::{
    create_disposition, create_disposition_of, update_disposition, update_disposition_of,
    CreateDisposition, DnsRecordType, UpdateDisposition, UpsertOutcome,
};

verus! {

/// What the caller observed in answer to the previous action.
pub enum Event {
    /// The lookup of the requested family returned this address.
    LookupOk { addr: String },
    /// The lookup failed: network error or unparsable answer.
    LookupErr { msg: String },
    /// The create or update call was answered with this status and body.
    HttpResponse { status: u16, body: String },
}

/// What the pass asks the caller to do next.
pub enum Action {
    /// Query the lookup endpoint of this address family.
    Lookup { family: IpFamily },
    /// POST the value to the record endpoint of (domain, name, kind).
    HttpCreate { domain: String, name: String, kind: DnsRecordType, value: String },
    /// PUT the value to the record endpoint of (domain, name, kind).
    HttpUpdate { domain: String, name: String, kind: DnsRecordType, value: String },
    /// Every target is synchronised; the pass is over.
    Done,
    /// The pass aborted on its first failure.
    Failed { error: PassError },
}

/// Why a pass aborted.
pub enum PassError {
    /// An address lookup failed.
    Lookup { family: IpFamily, msg: String },
    /// A create or update call was answered with an unhandled status.
    Upsert {
        domain: String,
        name: String,
        kind: DnsRecordType,
        value: String,
        status: u16,
        body: String,
    },
}

/// The recorded outcome of synchronising one record, for observability.
pub struct Report {
    pub domain: String,
    pub name: String,
    pub kind: DnsRecordType,
    pub value: String,
    pub outcome: UpsertOutcome,
}

/// What the pass is waiting for.
#[derive(Clone, Copy, Debug, PartialEq, Eq, Structural)]
pub enum Phase {
    /// A lookup of this family is in flight.
    AwaitLookup { family: IpFamily },
    /// A create call for this record kind of the current target is in flight.
    AwaitCreate { kind: DnsRecordType },
    /// The fallback update call for this record kind is in flight.
    AwaitUpdate { kind: DnsRecordType },
    /// The pass ran to completion.
    Done,
    /// The pass aborted on a failure.
    Failed,
}

/// Where the walk over the current target stands between two actions.
#[derive(Clone, Copy, Debug, PartialEq, Eq, Structural)]
pub enum Part {
    /// The lookups the current target still needs come first.
    Lookups,
    /// Then the A record, if the target wants IPv4.
    SyncA,
    /// Then the AAAA record, if the target wants IPv6.
    SyncAAAA,
}

/// The kind of the next action the walk arrives at.
#[derive(Clone, Copy, Debug, PartialEq, Eq, Structural)]
pub enum StepKind {
    LookupV4,
    LookupV6,
    CreateA,
    CreateAAAA,
    Finish,
}

/// Where the walk lands: the target index it stops at and the action kind
/// it emits there.
pub ghost struct Advance {
    pub idx: int,
    pub kind: StepKind,
}

/// One reconciliation pass in flight.
pub struct PassState {
    /// The configured targets, in order; never changed by the pass.
    pub targets: Vec<Target>,
    /// The target currently being synchronised.
    pub idx: usize,
    /// The pass-scoped address cache.
    pub ips: Ips,
    /// What the pass is waiting for.
    pub phase: Phase,
    /// One entry per record whose synchronisation came to an outcome.
    pub reports: Vec<Report>,
}

/// Whether `t` asks for `family` to be managed.
pub open spec fn wants(t: Target, family: IpFamily) -> bool {
    match family {
        IpFamily::V4 => t.ipv4,
        IpFamily::V6 => t.ipv6,
    }
}

/// The address family a record kind is fed from.
pub open spec fn family_of(kind: DnsRecordType) -> IpFamily {
    match kind {
        DnsRecordType::A => IpFamily::V4,
        DnsRecordType::AAAA => IpFamily::V6,
    }
}

/// The cache with nothing observed yet.
pub open spec fn empty_ips() -> Ips {
    (Ips { v4: None, v6: None })
}

/// Ranks the parts of one target's walk, for termination.
pub open spec fn part_rank(part: Part) -> int {
    match part {
        Part::Lookups => 2,
        Part::SyncA => 1,
        Part::SyncAAAA => 0,
    }
}

/// Walks from (`idx`, `part`) to the next action the pass must emit: the
/// first missing lookup of the current target, else its A record, else its
/// AAAA record, else on to the next target; past the last target the pass is
/// finished. A record is only emitted for a wanted family whose address is
/// cached; a wanted family with no cached address yields its lookup first.
pub open spec fn advance_plan(targets: Seq<Target>, ips: Ips, idx: int, part: Part) -> Advance
    decreases 3 * (targets.len() - idx) + part_rank(part),
    when 0 <= idx <= targets.len()
{
    if idx >= targets.len() {
        Advance { idx, kind: StepKind::Finish }
    } else {
        let t = targets[idx];
        match part {
            Part::Lookups => {
                if t.ipv4 && ips.v4 is None {
                    Advance { idx, kind: StepKind::LookupV4 }
                } else if t.ipv6 && ips.v6 is None {
                    Advance { idx, kind: StepKind::LookupV6 }
                } else {
                    advance_plan(targets, ips, idx, Part::SyncA)
                }
            },
            Part::SyncA => {
                if t.ipv4 && ips.v4 is Some {
                    Advance { idx, kind: StepKind::CreateA }
                } else {
                    advance_plan(targets, ips, idx, Part::SyncAAAA)
                }
            },
            Part::SyncAAAA => {
                if t.ipv6 && ips.v6 is Some {
                    Advance { idx, kind: StepKind::CreateAAAA }
                } else {
                    advance_plan(targets, ips, idx + 1, Part::Lookups)
                }
            },
        }
    }
}

/// The phase the pass waits in after emitting an action of this kind.
pub open spec fn phase_for(kind: StepKind) -> Phase {
    match kind {
        StepKind::LookupV4 => (Phase::AwaitLookup { family: IpFamily::V4 }),
        StepKind::LookupV6 => (Phase::AwaitLookup { family: IpFamily::V6 }),
        StepKind::CreateA => (Phase::AwaitCreate { kind: DnsRecordType::A }),
        StepKind::CreateAAAA => (Phase::AwaitCreate { kind: DnsRecordType::AAAA }),
        StepKind::Finish => Phase::Done,
    }
}

/// Whether `act` is the create call for `kind` of target `t`, carrying the
/// cached address of the kind's family.
pub open spec fn create_action_is(act: Action, t: Target, kind: DnsRecordType, ips: Ips) -> bool {
    &&& act matches Action::HttpCreate { domain, name, kind: k, value }
    &&& domain@ == t.domain@
    &&& name@ == t.name@
    &&& k == kind
    &&& ips.of_family(family_of(kind)) matches Some(v) && value@ == v@
}

/// Whether `act` is the fallback update call for `kind` of target `t`,
/// carrying the cached address of the kind's family.
pub open spec fn update_action_is(act: Action, t: Target, kind: DnsRecordType, ips: Ips) -> bool {
    &&& act matches Action::HttpUpdate { domain, name, kind: k, value }
    &&& domain@ == t.domain@
    &&& name@ == t.name@
    &&& k == kind
    &&& ips.of_family(family_of(kind)) matches Some(v) && value@ == v@
}

/// Whether `act` is the action the walk plan `adv` calls for.
pub open spec fn action_matches_plan(act: Action, targets: Seq<Target>, ips: Ips, adv: Advance)
    -> bool {
    match adv.kind {
        StepKind::LookupV4 => act matches Action::Lookup { family: IpFamily::V4 },
        StepKind::LookupV6 => act matches Action::Lookup { family: IpFamily::V6 },
        StepKind::CreateA => create_action_is(act, targets[adv.idx], DnsRecordType::A, ips),
        StepKind::CreateAAAA => create_action_is(act, targets[adv.idx], DnsRecordType::AAAA, ips),
        StepKind::Finish => act is Done,
    }
}

/// Whether `post` and `act` are what walking on from (`idx`, `part`) with
/// cache `ips` yields: the walk's landing index and phase, the cache as
/// given, and the action the plan calls for.
pub open spec fn advances_from(
    targets: Seq<Target>,
    post: PassState,
    act: Action,
    ips: Ips,
    idx: int,
    part: Part,
) -> bool {
    let adv = advance_plan(targets, ips, idx, part);
    &&& post.idx as int == adv.idx
    &&& post.phase == phase_for(adv.kind)
    &&& post.ips == ips
    &&& action_matches_plan(act, targets, ips, adv)
}

/// Whether `r` records outcome `oc` for record `kind` of target `t`, with
/// the cached address of the kind's family as the value.
pub open spec fn report_entry(r: Report, t: Target, kind: DnsRecordType, ips: Ips, oc: UpsertOutcome)
    -> bool {
    &&& r.domain@ == t.domain@
    &&& r.name@ == t.name@
    &&& r.kind == kind
    &&& ips.of_family(family_of(kind)) matches Some(v) && r.value@ == v@
    &&& outcome_matches(r.outcome, oc)
}

/// Whether two outcomes are the same, comparing failure bodies by their
/// characters.
pub open spec fn outcome_matches(a: UpsertOutcome, b: UpsertOutcome) -> bool {
    match (a, b) {
        (
            UpsertOutcome::Failed { status: s1, body: b1 },
            UpsertOutcome::Failed { status: s2, body: b2 },
        ) => s1 == s2 && b1@ == b2@,
        _ => a == b,
    }
}

/// Whether `post` extends `pre`'s reports by exactly one entry: outcome `oc`
/// for record `kind` of the then-current target.
pub open spec fn report_appended(pre: PassState, post: PassState, kind: DnsRecordType,
    oc: UpsertOutcome) -> bool {
    &&& post.reports@.len() == pre.reports@.len() + 1
    &&& post.reports@.subrange(0, pre.reports@.len() as int) == pre.reports@
    &&& report_entry(
        post.reports@.last(),
        pre.targets@[pre.idx as int],
        kind,
        pre.ips,
        oc,
    )
}

/// Whether the record `kind` of the current target came to a successful
/// outcome `oc`: the outcome is recorded and the pass walks on — past the
/// AAAA part for an A record, to the next target for an AAAA record.
pub open spec fn record_resolved(pre: PassState, post: PassState, act: Action,
    kind: DnsRecordType, oc: UpsertOutcome) -> bool {
    &&& report_appended(pre, post, kind, oc)
    &&& match kind {
        DnsRecordType::A => advances_from(
            pre.targets@,
            post,
            act,
            pre.ips,
            pre.idx as int,
            Part::SyncAAAA,
        ),
        DnsRecordType::AAAA => advances_from(
            pre.targets@,
            post,
            act,
            pre.ips,
            pre.idx as int + 1,
            Part::Lookups,
        ),
    }
}

/// Whether `err` is the upsert failure of record `kind` of target `t` with
/// this status and body.
pub open spec fn upsert_error_is(err: PassError, t: Target, kind: DnsRecordType, ips: Ips,
    status: u16, body: String) -> bool {
    &&& err matches PassError::Upsert {
        domain,
        name,
        kind: k,
        value,
        status: st,
        body: bd,
    }
    &&& domain@ == t.domain@
    &&& name@ == t.name@
    &&& k == kind
    &&& ips.of_family(family_of(kind)) matches Some(v) && value@ == v@
    &&& st == status
    &&& bd@ == body@
}

/// Whether the create or update call of record `kind` was answered with an
/// unhandled status: the Failed outcome is recorded, the pass aborts, and
/// the error surfaces the status and response body.
pub open spec fn record_failed(pre: PassState, post: PassState, act: Action,
    kind: DnsRecordType, status: u16, body: String) -> bool {
    &&& post.ips == pre.ips
    &&& post.idx == pre.idx
    &&& post.phase is Failed
    &&& report_appended(pre, post, kind, (UpsertOutcome::Failed { status, body }))
    &&& act matches Action::Failed { error }
    &&& upsert_error_is(error, pre.targets@[pre.idx as int], kind, pre.ips, status, body)
}

/// The transition relation of one step: how consuming `e` in `pre` yields
/// `post` and the action `act`. The targets never change; every other field
/// moves as the protocol says.
pub open spec fn step_rel(pre: PassState, e: Event, post: PassState, act: Action) -> bool {
    &&& post.targets == pre.targets
    &&& match pre.phase {
        Phase::AwaitLookup { family } => match e {
            Event::LookupOk { addr } => {
                &&& post.ips.of_family(family) matches Some(a) && a@ == addr@
                &&& post.ips.of_family(crate::ipify::other_family(family))
                    == pre.ips.of_family(crate::ipify::other_family(family))
                &&& post.reports == pre.reports
                &&& advances_from(
                    pre.targets@,
                    post,
                    act,
                    post.ips,
                    pre.idx as int,
                    Part::Lookups,
                )
            },
            Event::LookupErr { msg } => {
                &&& post.ips == pre.ips
                &&& post.reports == pre.reports
                &&& post.idx == pre.idx
                &&& post.phase is Failed
                &&& act matches Action::Failed { error }
                &&& error matches PassError::Lookup { family: f, msg: m }
                &&& f == family
                &&& m@ == msg@
            },
            Event::HttpResponse { .. } => false,
        },
        Phase::AwaitCreate { kind } => match e {
            Event::HttpResponse { status, body } => match create_disposition_of(status) {
                CreateDisposition::Unchanged => record_resolved(
                    pre,
                    post,
                    act,
                    kind,
                    UpsertOutcome::Unchanged,
                ),
                CreateDisposition::Created => record_resolved(
                    pre,
                    post,
                    act,
                    kind,
                    UpsertOutcome::Created,
                ),
                CreateDisposition::Conflict => {
                    &&& post.ips == pre.ips
                    &&& post.reports == pre.reports
                    &&& post.idx == pre.idx
                    &&& post.phase == (Phase::AwaitUpdate { kind })
                    &&& update_action_is(act, pre.targets@[pre.idx as int], kind, pre.ips)
                },
                CreateDisposition::Error => record_failed(pre, post, act, kind, status, body),
            },
            _ => false,
        },
        Phase::AwaitUpdate { kind } => match e {
            Event::HttpResponse { status, body } => match update_disposition_of(status) {
                UpdateDisposition::Updated => record_resolved(
                    pre,
                    post,
                    act,
                    kind,
                    UpsertOutcome::Updated,
                ),
                UpdateDisposition::Error => record_failed(pre, post, act, kind, status, body),
            },
            _ => false,
        },
        Phase::Done => false,
        Phase::Failed => false,
    }
}

/// Which events a state can consume: the answer to the action in flight.
pub open spec fn expects(s: PassState, e: Event) -> bool {
    match s.phase {
        Phase::AwaitLookup { .. } => e is LookupOk || e is LookupErr,
        Phase::AwaitCreate { .. } => e is HttpResponse,
        Phase::AwaitUpdate { .. } => e is HttpResponse,
        Phase::Done => false,
        Phase::Failed => false,
    }
}

/// The well-formedness every reachable pass state keeps: the index is in
/// range; an in-flight action belongs to the current target and is backed by
/// the cache; every family a finished target wanted is cached.
pub open spec fn wf(s: PassState) -> bool {
    &&& s.idx <= s.targets@.len()
    &&& match s.phase {
        Phase::AwaitLookup { family } => {
            &&& s.idx < s.targets@.len()
            &&& wants(s.targets@[s.idx as int], family)
            &&& s.ips.of_family(family) is None
            &&& family is V6 ==> (s.targets@[s.idx as int].ipv4 ==> s.ips.v4 is Some)
        },
        Phase::AwaitCreate { kind } => {
            &&& s.idx < s.targets@.len()
            &&& wants(s.targets@[s.idx as int], family_of(kind))
            &&& (s.targets@[s.idx as int].ipv4 ==> s.ips.v4 is Some)
            &&& (s.targets@[s.idx as int].ipv6 ==> s.ips.v6 is Some)
        },
        Phase::AwaitUpdate { kind } => {
            &&& s.idx < s.targets@.len()
            &&& wants(s.targets@[s.idx as int], family_of(kind))
            &&& (s.targets@[s.idx as int].ipv4 ==> s.ips.v4 is Some)
            &&& (s.targets@[s.idx as int].ipv6 ==> s.ips.v6 is Some)
        },
        Phase::Done => s.idx == s.targets@.len(),
        Phase::Failed => true,
    }
    &&& forall|j: int|
        0 <= j < s.idx ==> ((#[trigger] s.targets@[j]).ipv4 ==> s.ips.v4 is Some) && (
        s.targets@[j].ipv6 ==> s.ips.v6 is Some)
}

/// The walk plan a fresh pass over `targets` starts with.
pub open spec fn start_plan(targets: Seq<Target>) -> Advance {
    advance_plan(targets, empty_ips(), 0, Part::Lookups)
}

/// What `PassState::start` hands back: a fresh, well-formed state at the
/// pass's first action.
pub open spec fn pass_started(targets: Vec<Target>, s0: PassState, a0: Action) -> bool {
    &&& s0.targets == targets
    &&& s0.ips == empty_ips()
    &&& s0.reports@.len() == 0
    &&& s0.idx as int == start_plan(targets@).idx
    &&& s0.phase == phase_for(start_plan(targets@).kind)
    &&& action_matches_plan(a0, targets@, empty_ips(), start_plan(targets@))
}

impl PassState {
    /// Begins a pass over `targets` with an empty cache and hands back the
    /// first action.
    pub fn start(targets: Vec<Target>) -> (r: (PassState, Action))
        ensures
            pass_started(targets, r.0, r.1),
            wf(r.0),
    {
        let mut s = PassState {
            targets,
            idx: 0,
            ips: Ips::new(),
            phase: Phase::Done,
            reports: Vec::new(),
        };
        proof {
            assert(s.ips == empty_ips());
        }
        let act = s.advance(Part::Lookups);
        (s, act)
    }

    /// Consumes the answer to the action in flight and hands back the next
    /// action.
    pub fn step(&mut self, e: Event) -> (act: Action)
        requires
            wf(*old(self)),
            expects(*old(self), e),
        ensures
            wf(*final(self)),
            step_rel(*old(self), e, *final(self), act),
    {
        let phase = self.phase;
        match phase {
            Phase::AwaitLookup { family } => match e {
                Event::LookupOk { addr } => {
                    self.ips.store(family, addr);
                    self.advance(Part::Lookups)
                },
                Event::LookupErr { msg } => {
                    self.phase = Phase::Failed;
                    Action::Failed { error: PassError::Lookup { family, msg } }
                },
                Event::HttpResponse { .. } => unreached(),
            },
            Phase::AwaitCreate { kind } => match e {
                Event::HttpResponse { status, body } => match create_disposition(status) {
                    CreateDisposition::Unchanged => self.finish_record(
                        kind,
                        UpsertOutcome::Unchanged,
                    ),
                    CreateDisposition::Created => self.finish_record(kind, UpsertOutcome::Created),
                    CreateDisposition::Conflict => {
                        let domain = self.targets[self.idx].domain.clone();
                        let name = self.targets[self.idx].name.clone();
                        let value = cached_value(&self.ips, kind);
                        self.phase = Phase::AwaitUpdate { kind };
                        Action::HttpUpdate { domain, name, kind, value }
                    },
                    CreateDisposition::Error => self.fail_record(kind, status, body),
                },
                _ => unreached(),
            },
            Phase::AwaitUpdate { kind } => match e {
                Event::HttpResponse { status, body } => match update_disposition(status) {
                    UpdateDisposition::Updated => self.finish_record(kind, UpsertOutcome::Updated),
                    UpdateDisposition::Error => self.fail_record(kind, status, body),
                },
                _ => unreached(),
            },
            Phase::Done => unreached(),
            Phase::Failed => unreached(),
        }
    }

    /// Records a successful outcome for record `kind` of the current target
    /// and walks on to the next action.
    fn finish_record(&mut self, kind: DnsRecordType, outcome: UpsertOutcome) -> (act: Action)
        requires
            old(self).idx < old(self).targets@.len(),
            old(self).ips.of_family(family_of(kind)) is Some,
            old(self).targets@[old(self).idx as int].ipv4 ==> old(self).ips.v4 is Some,
            old(self).targets@[old(self).idx as int].ipv6 ==> old(self).ips.v6 is Some,
            forall|j: int|
                0 <= j < old(self).idx ==> ((#[trigger] old(self).targets@[j]).ipv4 ==> old(
                    self,
                ).ips.v4 is Some) && (old(self).targets@[j].ipv6 ==> old(self).ips.v6 is Some),
            !(outcome is Failed),
        ensures
            wf(*final(self)),
            final(self).targets == old(self).targets,
            record_resolved(*old(self), *final(self), act, kind, outcome),
    {
        let domain = self.targets[self.idx].domain.clone();
        let name = self.targets[self.idx].name.clone();
        let value = cached_value(&self.ips, kind);
        let ghost pre_reports = self.reports@;
        self.reports.push(Report { domain, name, kind, value, outcome });
        proof {
            assert(self.reports@.subrange(0, pre_reports.len() as int) =~= pre_reports);
        }
        match kind {
            DnsRecordType::A => self.advance(Part::SyncAAAA),
            DnsRecordType::AAAA => {
                let n: usize = self.targets.len();
                assert(self.idx < n);
                self.idx = self.idx + 1;
                self.advance(Part::Lookups)
            },
        }
    }

    /// Records the Failed outcome for record `kind` of the current target
    /// and aborts the pass, surfacing the status and response body.
    fn fail_record(&mut self, kind: DnsRecordType, status: u16, body: String) -> (act: Action)
        requires
            old(self).idx < old(self).targets@.len(),
            old(self).ips.of_family(family_of(kind)) is Some,
            forall|j: int|
                0 <= j < old(self).idx ==> ((#[trigger] old(self).targets@[j]).ipv4 ==> old(
                    self,
                ).ips.v4 is Some) && (old(self).targets@[j].ipv6 ==> old(self).ips.v6 is Some),
        ensures
            wf(*final(self)),
            final(self).targets == old(self).targets,
            record_failed(*old(self), *final(self), act, kind, status, body),
    {
        let domain = self.targets[self.idx].domain.clone();
        let name = self.targets[self.idx].name.clone();
        let value = cached_value(&self.ips, kind);
        let ghost pre_reports = self.reports@;
        self.reports.push(
            Report {
                domain: domain.clone(),
                name: name.clone(),
                kind,
                value: value.clone(),
                outcome: UpsertOutcome::Failed { status, body: body.clone() },
            },
        );
        proof {
            assert(self.reports@.subrange(0, pre_reports.len() as int) =~= pre_reports);
        }
        self.phase = Phase::Failed;
        Action::Failed {
            error: PassError::Upsert { domain, name, kind, value, status, body },
        }
    }

    /// Walks from (`self.idx`, `part`) to the next action, skipping targets
    /// that need nothing, and leaves the pass waiting for its answer.
    fn advance(&mut self, part: Part) -> (act: Action)
        requires
            old(self).idx <= old(self).targets@.len(),
            part != Part::Lookups ==> old(self).idx < old(self).targets@.len() && (old(
                self,
            ).targets@[old(self).idx as int].ipv4 ==> old(self).ips.v4 is Some) && (old(
                self,
            ).targets@[old(self).idx as int].ipv6 ==> old(self).ips.v6 is Some),
            forall|j: int|
                0 <= j < old(self).idx ==> ((#[trigger] old(self).targets@[j]).ipv4 ==> old(
                    self,
                ).ips.v4 is Some) && (old(self).targets@[j].ipv6 ==> old(self).ips.v6 is Some),
        ensures
            wf(*final(self)),
            final(self).targets == old(self).targets,
            final(self).reports == old(self).reports,
            advances_from(
                old(self).targets@,
                *final(self),
                act,
                old(self).ips,
                old(self).idx as int,
                part,
            ),
    {
        let mut cur = part;
        loop
            invariant
                self.targets == old(self).targets,
                self.ips == old(self).ips,
                self.reports == old(self).reports,
                self.idx <= self.targets@.len(),
                cur != Part::Lookups ==> self.idx < self.targets@.len() && (
                self.targets@[self.idx as int].ipv4 ==> self.ips.v4 is Some) && (
                self.targets@[self.idx as int].ipv6 ==> self.ips.v6 is Some),
                forall|j: int|
                    0 <= j < self.idx ==> ((#[trigger] self.targets@[j]).ipv4
                        ==> self.ips.v4 is Some) && (self.targets@[j].ipv6
                        ==> self.ips.v6 is Some),
                advance_plan(self.targets@, self.ips, self.idx as int, cur) == advance_plan(
                    old(self).targets@,
                    old(self).ips,
                    old(self).idx as int,
                    part,
                ),
            decreases 3 * (self.targets@.len() - self.idx) + part_rank(cur),
        {
            if self.idx >= self.targets.len() {
                self.phase = Phase::Done;
                return Action::Done;
            }
            match cur {
                Part::Lookups => {
                    let want4 = self.targets[self.idx].ipv4;
                    let want6 = self.targets[self.idx].ipv6;
                    if want4 && self.ips.v4.is_none() {
                        self.phase = Phase::AwaitLookup { family: IpFamily::V4 };
                        return Action::Lookup { family: IpFamily::V4 };
                    }
                    if want6 && self.ips.v6.is_none() {
                        self.phase = Phase::AwaitLookup { family: IpFamily::V6 };
                        return Action::Lookup { family: IpFamily::V6 };
                    }
                    cur = Part::SyncA;
                },
                Part::SyncA => {
                    if self.targets[self.idx].ipv4 && self.ips.v4.is_some() {
                        let domain = self.targets[self.idx].domain.clone();
                        let name = self.targets[self.idx].name.clone();
                        let value = cached_value(&self.ips, DnsRecordType::A);
                        self.phase = Phase::AwaitCreate { kind: DnsRecordType::A };
                        return Action::HttpCreate {
                            domain,
                            name,
                            kind: DnsRecordType::A,
                            value,
                        };
                    }
                    cur = Part::SyncAAAA;
                },
                Part::SyncAAAA => {
                    if self.targets[self.idx].ipv6 && self.ips.v6.is_some() {
                        let domain = self.targets[self.idx].domain.clone();
                        let name = self.targets[self.idx].name.clone();
                        let value = cached_value(&self.ips, DnsRecordType::AAAA);
                        self.phase = Phase::AwaitCreate { kind: DnsRecordType::AAAA };
                        return Action::HttpCreate {
                            domain,
                            name,
                            kind: DnsRecordType::AAAA,
                            value,
                        };
                    }
                    self.idx = self.idx + 1;
                    cur = Part::Lookups;
                },
            }
        }
    }
}

/// The cached address a record of `kind` is fed from.
fn cached_value(ips: &Ips, kind: DnsRecordType) -> (r: String)
    requires
        ips.of_family(family_of(kind)) is Some,
    ensures
        ips.of_family(family_of(kind)) matches Some(v) && r@ == v@,
{
    match kind {
        DnsRecordType::A => match &ips.v4 {
            Some(v) => v.clone(),
            None => unreached(),
        },
        DnsRecordType::AAAA => match &ips.v6 {
            Some(v) => v.clone(),
            None => unreached(),
        },
    }
}

} // verus!
