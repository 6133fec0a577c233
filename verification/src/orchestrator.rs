use vstd::prelude::*;
use crate::address::IpAddress;
use crate::config::{NameConf, NameProvidersConf, NameState};
use crate::errors::RenewError;

verus! {

/// The shared-fallback rule of one address family: the family's own
/// block where present, else — only when `shared` is set — the other
/// family's block; in either case the chosen block counts only while it
/// is enabled.
pub open spec fn resolved_family(
    own: Option<NameProvidersConf>,
    other: Option<NameProvidersConf>,
    shared: bool,
) -> Option<NameProvidersConf> {
    let base = if own is Some {
        own
    } else if shared {
        other
    } else {
        None
    };
    match base {
        Some(c) => if c.enabled {
            Some(c)
        } else {
            None
        },
        None => None,
    }
}

/// Applies the shared-fallback rule to one family's blocks.
pub fn resolve_family_conf<'a>(
    own: &'a Option<NameProvidersConf>,
    other: &'a Option<NameProvidersConf>,
    shared: bool,
) -> (r: Option<&'a NameProvidersConf>)
    ensures
        match resolved_family(*own, *other, shared) {
            Some(c) => r matches Some(x) && *x == c,
            None => r is None,
        },
{
    let base = match own {
        Some(c) => Some(c),
        None => if shared {
            match other {
                Some(c) => Some(c),
                None => None,
            }
        } else {
            None
        },
    };
    match base {
        Some(c) => if c.enabled {
            Some(c)
        } else {
            None
        },
        None => None,
    }
}

/// How one name's cycle ended.
#[derive(Clone, Copy, Debug, PartialEq, Eq, Structural)]
pub enum CycleOutcome {
    /// An update was pushed and the new schedule persisted.
    Renewed,
    /// Nothing had to change; the new schedule was still persisted.
    Skipped,
    /// Some step failed; the prior schedule stays untouched.
    Failed,
}

/// What the driver must do next. The driver performs the outside work the
/// action names and feeds the result back as the matching event.
#[derive(Clone, Copy, Debug, PartialEq, Eq, Structural)]
pub enum CycleAction {
    /// Ask the family's query provider for the published addresses.
    RunQuery { is_v6: bool },
    /// Ask the family's address provider for the current true address.
    RunAddress { is_v6: bool },
    /// Push `ip` through the family's update provider.
    RunUpdate { is_v6: bool, ip: IpAddress },
    /// Write the machine's fresh `NameState` to disk.
    PersistState,
    /// The cycle is over.
    Finish { outcome: CycleOutcome },
}

/// The result of the outside work of the previous action.
pub enum CycleEvent {
    Queried(Result<Vec<IpAddress>, RenewError>),
    Addressed(Result<IpAddress, RenewError>),
    Updated(Result<bool, RenewError>),
    Persisted(Result<(), RenewError>),
}

/// Which result the machine is waiting for.
pub enum CyclePhase {
    AwaitingQuery { is_v6: bool },
    AwaitingAddress { is_v6: bool, published: Vec<IpAddress> },
    AwaitingUpdate { is_v6: bool },
    AwaitingPersist,
    Done { outcome: CycleOutcome },
}

/// The renewal cycle of one name that is due, as a state machine: the
/// driver performs each returned action's outside work and reports the
/// result through `step`. The fresh schedule in `state` is persisted
/// only when every provider call of the cycle succeeded.
pub struct RenewCycle {
    /// The freshly computed schedule, written only on full success.
    pub state: NameState,
    pub v4: Option<NameProvidersConf>,
    pub v6: Option<NameProvidersConf>,
    pub shared: bool,
    /// Whether any update provider reported a change so far.
    pub updated: bool,
    pub phase: CyclePhase,
}

/// The family block the cycle uses for the given family, after fallback.
pub open spec fn resolved_of(m: RenewCycle, is_v6: bool) -> Option<NameProvidersConf> {
    if is_v6 {
        resolved_family(m.v6, m.v4, m.shared)
    } else {
        resolved_family(m.v4, m.v6, m.shared)
    }
}

/// Where a fresh cycle begins: with the first enabled family, or — when
/// no family is enabled — straight at persisting the fresh schedule.
pub open spec fn spec_begin(m: RenewCycle) -> (CyclePhase, CycleAction) {
    if resolved_of(m, false) is Some {
        (CyclePhase::AwaitingQuery { is_v6: false }, CycleAction::RunQuery { is_v6: false })
    } else if resolved_of(m, true) is Some {
        (CyclePhase::AwaitingQuery { is_v6: true }, CycleAction::RunQuery { is_v6: true })
    } else {
        (CyclePhase::AwaitingPersist, CycleAction::PersistState)
    }
}

/// Where the cycle goes once a family is finished: to the v6 family if
/// one is still to come, else to persisting.
pub open spec fn spec_advance(m: RenewCycle, is_v6: bool) -> (CyclePhase, CycleAction) {
    if !is_v6 && resolved_of(m, true) is Some {
        (CyclePhase::AwaitingQuery { is_v6: true }, CycleAction::RunQuery { is_v6: true })
    } else {
        (CyclePhase::AwaitingPersist, CycleAction::PersistState)
    }
}

/// A failed step: the cycle ends as `Failed` and nothing more happens —
/// in particular the fresh schedule is never persisted.
pub open spec fn spec_fail(m: RenewCycle) -> (RenewCycle, CycleAction) {
    (
        RenewCycle { phase: CyclePhase::Done { outcome: CycleOutcome::Failed }, ..m },
        CycleAction::Finish { outcome: CycleOutcome::Failed },
    )
}

/// Whether an event reports a failure.
pub open spec fn event_error(ev: CycleEvent) -> bool {
    match ev {
        CycleEvent::Queried(r) => r is Err,
        CycleEvent::Addressed(r) => r is Err,
        CycleEvent::Updated(r) => r is Err,
        CycleEvent::Persisted(r) => r is Err,
    }
}

/// The whole transition relation of the cycle. An event that does not
/// answer the awaited action counts as a failure; a finished cycle
/// absorbs every further event.
pub open spec fn spec_step(m: RenewCycle, ev: CycleEvent) -> (RenewCycle, CycleAction) {
    match m.phase {
        CyclePhase::AwaitingQuery { is_v6 } => match ev {
            CycleEvent::Queried(Ok(ips)) => (
                RenewCycle {
                    phase: CyclePhase::AwaitingAddress { is_v6, published: ips },
                    ..m
                },
                CycleAction::RunAddress { is_v6 },
            ),
            _ => spec_fail(m),
        },
        CyclePhase::AwaitingAddress { is_v6, published } => match ev {
            CycleEvent::Addressed(Ok(ip)) => if published@.contains(ip) {
                let (phase, act) = spec_advance(m, is_v6);
                (RenewCycle { phase, ..m }, act)
            } else {
                (
                    RenewCycle { phase: CyclePhase::AwaitingUpdate { is_v6 }, ..m },
                    CycleAction::RunUpdate { is_v6, ip },
                )
            },
            _ => spec_fail(m),
        },
        CyclePhase::AwaitingUpdate { is_v6 } => match ev {
            CycleEvent::Updated(Ok(changed)) => {
                let (phase, act) = spec_advance(m, is_v6);
                (RenewCycle { phase, updated: m.updated || changed, ..m }, act)
            },
            _ => spec_fail(m),
        },
        CyclePhase::AwaitingPersist => match ev {
            CycleEvent::Persisted(Ok(())) => {
                let outcome = if m.updated {
                    CycleOutcome::Renewed
                } else {
                    CycleOutcome::Skipped
                };
                (
                    RenewCycle { phase: CyclePhase::Done { outcome }, ..m },
                    CycleAction::Finish { outcome },
                )
            },
            _ => spec_fail(m),
        },
        CyclePhase::Done { outcome } => (m, CycleAction::Finish { outcome }),
    }
}

/// Whether the machine awaits an answer of this event's kind.
pub open spec fn accepts(m: RenewCycle, ev: CycleEvent) -> bool {
    match (m.phase, ev) {
        (CyclePhase::AwaitingQuery { .. }, CycleEvent::Queried(_)) => true,
        (CyclePhase::AwaitingAddress { .. }, CycleEvent::Addressed(_)) => true,
        (CyclePhase::AwaitingUpdate { .. }, CycleEvent::Updated(_)) => true,
        (CyclePhase::AwaitingPersist, CycleEvent::Persisted(_)) => true,
        _ => false,
    }
}

impl RenewCycle {
    /// Starts the cycle of a due name. `state` is the fresh schedule that
    /// `decide_due` computed; the name it carries is the name renewed.
    pub fn start(conf: NameConf, state: NameState) -> (r: (RenewCycle, CycleAction))
        ensures
            r.0.state == state,
            r.0.v4 == conf.v4,
            r.0.v6 == conf.v6,
            r.0.shared == conf.shared,
            r.0.updated == false,
            (r.0.phase, r.1) == spec_begin(r.0),
    {
        let NameConf { name: _, renew_interval_secs: _, shared, v4, v6 } = conf;
        let has4 = resolve_family_conf(&v4, &v6, shared).is_some();
        let has6 = resolve_family_conf(&v6, &v4, shared).is_some();
        let (phase, act) = if has4 {
            (CyclePhase::AwaitingQuery { is_v6: false }, CycleAction::RunQuery { is_v6: false })
        } else if has6 {
            (CyclePhase::AwaitingQuery { is_v6: true }, CycleAction::RunQuery { is_v6: true })
        } else {
            (CyclePhase::AwaitingPersist, CycleAction::PersistState)
        };
        (RenewCycle { state, v4, v6, shared, updated: false, phase }, act)
    }

    /// The family block to use for the given family, after fallback.
    pub fn family_conf(&self, is_v6: bool) -> (r: Option<&NameProvidersConf>)
        ensures
            match resolved_of(*self, is_v6) {
                Some(c) => r matches Some(x) && *x == c,
                None => r is None,
            },
    {
        if is_v6 {
            resolve_family_conf(&self.v6, &self.v4, self.shared)
        } else {
            resolve_family_conf(&self.v4, &self.v6, self.shared)
        }
    }

    fn fail(&mut self) -> (act: CycleAction)
        ensures
            (*final(self), act) == spec_fail(*old(self)),
    {
        self.phase = CyclePhase::Done { outcome: CycleOutcome::Failed };
        CycleAction::Finish { outcome: CycleOutcome::Failed }
    }

    fn advance(&mut self, is_v6: bool) -> (act: CycleAction)
        ensures
            final(self).phase == spec_advance(*old(self), is_v6).0,
            act == spec_advance(*old(self), is_v6).1,
            final(self).state == old(self).state,
            final(self).v4 == old(self).v4,
            final(self).v6 == old(self).v6,
            final(self).shared == old(self).shared,
            final(self).updated == old(self).updated,
    {
        let has6 = resolve_family_conf(&self.v6, &self.v4, self.shared).is_some();
        if !is_v6 && has6 {
            self.phase = CyclePhase::AwaitingQuery { is_v6: true };
            CycleAction::RunQuery { is_v6: true }
        } else {
            self.phase = CyclePhase::AwaitingPersist;
            CycleAction::PersistState
        }
    }

    /// Feeds the result of the previous action's outside work into the
    /// machine and yields the next action.
    pub fn step(&mut self, ev: CycleEvent) -> (act: CycleAction)
        requires
            accepts(*old(self), ev),
        ensures
            (*final(self), act) == spec_step(*old(self), ev),
    {
        match ev {
            CycleEvent::Queried(res) => {
                let is_v6 = match &self.phase {
                    CyclePhase::AwaitingQuery { is_v6 } => *is_v6,
                    _ => vstd::pervasive::unreached(),
                };
                match res {
                    Ok(ips) => {
                        self.phase = CyclePhase::AwaitingAddress { is_v6, published: ips };
                        CycleAction::RunAddress { is_v6 }
                    },
                    Err(_) => self.fail(),
                }
            },
            CycleEvent::Addressed(res) => {
                match res {
                    Ok(ip) => {
                        let (is_v6, already_published) = match &self.phase {
                            CyclePhase::AwaitingAddress { is_v6, published } => (
                                *is_v6,
                                crate::address::address_list_contains(published, &ip),
                            ),
                            _ => vstd::pervasive::unreached(),
                        };
                        if already_published {
                            self.advance(is_v6)
                        } else {
                            self.phase = CyclePhase::AwaitingUpdate { is_v6 };
                            CycleAction::RunUpdate { is_v6, ip }
                        }
                    },
                    Err(_) => self.fail(),
                }
            },
            CycleEvent::Updated(res) => {
                let is_v6 = match &self.phase {
                    CyclePhase::AwaitingUpdate { is_v6 } => *is_v6,
                    _ => vstd::pervasive::unreached(),
                };
                match res {
                    Ok(changed) => {
                        self.updated = self.updated || changed;
                        self.advance(is_v6)
                    },
                    Err(_) => self.fail(),
                }
            },
            CycleEvent::Persisted(res) => {
                match res {
                    Ok(()) => {
                        let outcome = if self.updated {
                            CycleOutcome::Renewed
                        } else {
                            CycleOutcome::Skipped
                        };
                        self.phase = CyclePhase::Done { outcome };
                        CycleAction::Finish { outcome }
                    },
                    Err(_) => self.fail(),
                }
            },
        }
    }
}

/// When the current true address is already among the published ones, no
/// update is ever asked for: the next action is not `RunUpdate`, and the
/// `updated` flag keeps its value.
pub proof fn law_published_address_never_updates(m: RenewCycle, ip: IpAddress)
    requires
        m.phase matches CyclePhase::AwaitingAddress { is_v6: _, published } && published@.contains(
            ip,
        ),
    ensures
        !(spec_step(m, CycleEvent::Addressed(Ok(ip))).1 is RunUpdate),
        spec_step(m, CycleEvent::Addressed(Ok(ip))).0.updated == m.updated,
{
}

/// A failed provider call ends the cycle at once as `Failed`; in
/// particular the fresh schedule is never persisted after an error.
pub proof fn law_error_fails_cycle(m: RenewCycle, ev: CycleEvent)
    requires
        !(m.phase is Done),
        event_error(ev),
    ensures
        spec_step(m, ev).0.phase == (CyclePhase::Done { outcome: CycleOutcome::Failed }),
        spec_step(m, ev).1 == (CycleAction::Finish { outcome: CycleOutcome::Failed }),
{
}

/// Persisting is only ever asked for in answer to a successful event.
pub proof fn law_persist_needs_success(m: RenewCycle, ev: CycleEvent)
    ensures
        spec_step(m, ev).1 == CycleAction::PersistState ==> !event_error(ev),
{
}

} // verus!

verus! {

/// The machine only ever waits on a family whose provider block resolved.
pub open spec fn family_phase_resolved(m: RenewCycle) -> bool {
    match m.phase {
        CyclePhase::AwaitingQuery { is_v6 } => resolved_of(m, is_v6) is Some,
        CyclePhase::AwaitingAddress { is_v6, published: _ } => resolved_of(m, is_v6) is Some,
        CyclePhase::AwaitingUpdate { is_v6 } => resolved_of(m, is_v6) is Some,
        _ => true,
    }
}

/// A fresh cycle starts on a resolved family or goes straight to
/// persisting: the driver is never directed at a family without a
/// provider block.
pub proof fn law_begin_family_resolved(m: RenewCycle)
    ensures
        spec_begin(m).0 matches CyclePhase::AwaitingQuery { is_v6 } ==> resolved_of(
            m,
            is_v6,
        ) is Some,
{
}

/// Every step keeps the machine on resolved families only.
pub proof fn law_step_keeps_family_resolved(m: RenewCycle, ev: CycleEvent)
    requires
        family_phase_resolved(m),
    ensures
        family_phase_resolved(spec_step(m, ev).0),
{
}

} // verus!
