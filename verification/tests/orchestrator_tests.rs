use dns_renew::address::IpAddress;
use dns_renew::config::{
    DnsQueryParams, IpProviderType, NameConf, NameProvidersConf, NameState, QueryProviderType,
    UpdateProviderType,
};
use dns_renew::errors::RenewError;
use dns_renew::orchestrator::{
    resolve_family_conf, CycleAction, CycleEvent, CycleOutcome, RenewCycle,
};
use dns_renew::schedule::{decide_due, next, DueDecision};

fn providers(enabled: bool) -> NameProvidersConf {
    NameProvidersConf {
        update_provider_type: UpdateProviderType::HttpGet {
            credential: None,
            url_template: "https://u/{name}/{ip}".to_string(),
        },
        query_provider_type: QueryProviderType::Dns(DnsQueryParams {
            name_server_host: "ns.example".to_string(),
            name_server_port: None,
            timeout_ms: None,
            use_tcp: None,
        }),
        ip_provider_type: IpProviderType::Static { ip: IpAddress::V4(0x01020304) },
        enabled,
    }
}

fn conf(shared: bool, v4: Option<NameProvidersConf>, v6: Option<NameProvidersConf>) -> NameConf {
    NameConf {
        name: "a.example".to_string(),
        renew_interval_secs: 3600,
        shared,
        v4,
        v6,
    }
}

#[test]
fn next_deadline_is_now_plus_interval() {
    assert!(matches!(next(1000, 3600), Ok(4600)));
}

#[test]
fn next_deadline_overflow_is_an_error() {
    assert!(matches!(next(u64::MAX, 1), Err(RenewError::ClockOverflow)));
}

#[test]
fn first_run_is_due_with_fresh_deadline() {
    // no prior state, interval one hour: due now, next = now + 3600
    let c = conf(false, Some(providers(true)), None);
    let now = 1_700_000_000u64;
    match decide_due(&None, &c, now) {
        Ok(DueDecision::Due { state }) => {
            assert_eq!(state.name, "a.example");
            assert_eq!(state.next, now + 3600);
        }
        other => panic!("expected Due, got {:?}", matches!(other, Ok(DueDecision::NotDue))),
    }
}

#[test]
fn rename_forces_immediate_due() {
    // the persisted deadline lies far in the future, but under another name
    let c = conf(false, Some(providers(true)), None);
    let persisted = Some(NameState { name: "old.example".to_string(), next: u64::MAX });
    let now = 1000u64;
    match decide_due(&persisted, &c, now) {
        Ok(DueDecision::Due { state }) => {
            assert_eq!(state.name, "a.example");
            assert_eq!(state.next, now + 3600);
        }
        _ => panic!("expected Due"),
    }
}

#[test]
fn future_deadline_is_not_due() {
    let c = conf(false, Some(providers(true)), None);
    let persisted = Some(NameState { name: "a.example".to_string(), next: 2000 });
    assert!(matches!(decide_due(&persisted, &c, 1999), Ok(DueDecision::NotDue)));
}

#[test]
fn passed_deadline_is_due_again() {
    let c = conf(false, Some(providers(true)), None);
    let persisted = Some(NameState { name: "a.example".to_string(), next: 2000 });
    match decide_due(&persisted, &c, 2000) {
        Ok(DueDecision::Due { state }) => assert_eq!(state.next, 5600),
        _ => panic!("expected Due"),
    }
}

#[test]
fn own_family_block_wins() {
    let own = Some(providers(true));
    let other = Some(providers(true));
    assert!(resolve_family_conf(&own, &other, false).is_some());
}

#[test]
fn shared_falls_back_to_other_family() {
    let other = Some(providers(true));
    assert!(resolve_family_conf(&None, &other, true).is_some());
    assert!(resolve_family_conf(&None, &other, false).is_none());
    assert!(resolve_family_conf(&None, &None, true).is_none());
}

#[test]
fn disabled_block_is_never_used() {
    let own = Some(providers(false));
    let other = Some(providers(true));
    // a disabled own block does not fall through to the other family
    assert!(resolve_family_conf(&own, &other, true).is_none());
    // a fallback block that is itself disabled is not used either
    let disabled_other = Some(providers(false));
    assert!(resolve_family_conf(&None, &disabled_other, true).is_none());
}

#[test]
fn published_address_means_no_update_and_state_rewritten() {
    // published = {1.2.3.4}, current true address = 1.2.3.4: the update
    // provider is never invoked, the cycle is not a renewal, and the
    // fresh state is still persisted
    let c = conf(false, Some(providers(true)), None);
    let state = NameState { name: "a.example".to_string(), next: 4600 };
    let (mut m, act) = RenewCycle::start(c, state);
    assert_eq!(act, CycleAction::RunQuery { is_v6: false });
    let act = m.step(CycleEvent::Queried(Ok(vec![IpAddress::V4(0x01020304)])));
    assert_eq!(act, CycleAction::RunAddress { is_v6: false });
    let act = m.step(CycleEvent::Addressed(Ok(IpAddress::V4(0x01020304))));
    assert_eq!(act, CycleAction::PersistState);
    assert_eq!(m.state.next, 4600);
    let act = m.step(CycleEvent::Persisted(Ok(())));
    assert_eq!(act, CycleAction::Finish { outcome: CycleOutcome::Skipped });
    assert!(!m.updated);
}

#[test]
fn mismatch_runs_update_and_reports_renewed() {
    let c = conf(false, Some(providers(true)), None);
    let state = NameState { name: "a.example".to_string(), next: 4600 };
    let (mut m, _) = RenewCycle::start(c, state);
    let _ = m.step(CycleEvent::Queried(Ok(vec![IpAddress::V4(9)])));
    let act = m.step(CycleEvent::Addressed(Ok(IpAddress::V4(0x01020304))));
    assert_eq!(
        act,
        CycleAction::RunUpdate { is_v6: false, ip: IpAddress::V4(0x01020304) }
    );
    let act = m.step(CycleEvent::Updated(Ok(true)));
    assert_eq!(act, CycleAction::PersistState);
    let act = m.step(CycleEvent::Persisted(Ok(())));
    assert_eq!(act, CycleAction::Finish { outcome: CycleOutcome::Renewed });
    assert!(m.updated);
}

#[test]
fn empty_published_set_still_triggers_update() {
    let c = conf(false, Some(providers(true)), None);
    let state = NameState { name: "a.example".to_string(), next: 4600 };
    let (mut m, _) = RenewCycle::start(c, state);
    let _ = m.step(CycleEvent::Queried(Ok(vec![])));
    let act = m.step(CycleEvent::Addressed(Ok(IpAddress::V4(1))));
    assert_eq!(act, CycleAction::RunUpdate { is_v6: false, ip: IpAddress::V4(1) });
}

#[test]
fn query_error_fails_cycle_without_persisting() {
    let c = conf(false, Some(providers(true)), None);
    let state = NameState { name: "a.example".to_string(), next: 4600 };
    let (mut m, _) = RenewCycle::start(c, state);
    let act = m.step(CycleEvent::Queried(Err(RenewError::ResolutionExhausted)));
    // the machine halts as Failed; no PersistState action was ever issued
    assert_eq!(act, CycleAction::Finish { outcome: CycleOutcome::Failed });
}

#[test]
fn update_error_fails_cycle_without_persisting() {
    let c = conf(false, Some(providers(true)), None);
    let state = NameState { name: "a.example".to_string(), next: 4600 };
    let (mut m, _) = RenewCycle::start(c, state);
    let _ = m.step(CycleEvent::Queried(Ok(vec![])));
    let _ = m.step(CycleEvent::Addressed(Ok(IpAddress::V4(1))));
    let act = m.step(CycleEvent::Updated(Err(RenewError::HttpStatus { status: 500 })));
    assert_eq!(act, CycleAction::Finish { outcome: CycleOutcome::Failed });
}

#[test]
fn both_families_run_in_order() {
    let c = conf(false, Some(providers(true)), Some(providers(true)));
    let state = NameState { name: "a.example".to_string(), next: 4600 };
    let (mut m, act) = RenewCycle::start(c, state);
    assert_eq!(act, CycleAction::RunQuery { is_v6: false });
    let _ = m.step(CycleEvent::Queried(Ok(vec![IpAddress::V4(1)])));
    let act = m.step(CycleEvent::Addressed(Ok(IpAddress::V4(1))));
    assert_eq!(act, CycleAction::RunQuery { is_v6: true });
    let _ = m.step(CycleEvent::Queried(Ok(vec![IpAddress::V6(1)])));
    let act = m.step(CycleEvent::Addressed(Ok(IpAddress::V6(1))));
    assert_eq!(act, CycleAction::PersistState);
}

#[test]
fn no_enabled_family_goes_straight_to_persist() {
    let c = conf(false, None, None);
    let state = NameState { name: "a.example".to_string(), next: 4600 };
    let (mut m, act) = RenewCycle::start(c, state);
    assert_eq!(act, CycleAction::PersistState);
    let act = m.step(CycleEvent::Persisted(Ok(())));
    assert_eq!(act, CycleAction::Finish { outcome: CycleOutcome::Skipped });
}

#[test]
fn shared_v4_block_serves_v6_family() {
    let c = conf(true, Some(providers(true)), None);
    let state = NameState { name: "a.example".to_string(), next: 4600 };
    let (mut m, act) = RenewCycle::start(c, state);
    assert_eq!(act, CycleAction::RunQuery { is_v6: false });
    assert!(m.family_conf(true).is_some());
    let _ = m.step(CycleEvent::Queried(Ok(vec![IpAddress::V4(1)])));
    let act = m.step(CycleEvent::Addressed(Ok(IpAddress::V4(1))));
    // with `shared`, the v6 family runs on the v4 block
    assert_eq!(act, CycleAction::RunQuery { is_v6: true });
}

#[test]
fn persist_failure_fails_cycle() {
    let c = conf(false, None, None);
    let state = NameState { name: "a.example".to_string(), next: 4600 };
    let (mut m, _) = RenewCycle::start(c, state);
    let act = m.step(CycleEvent::Persisted(Err(RenewError::Transport {
        message: "disk full".to_string(),
    })));
    assert_eq!(act, CycleAction::Finish { outcome: CycleOutcome::Failed });
}

#[test]
fn deadline_overflow_surfaces_from_decide_due() {
    let c = conf(false, Some(providers(true)), None);
    assert!(matches!(
        decide_due(&None, &c, u64::MAX - 100),
        Err(RenewError::ClockOverflow)
    ));
}
