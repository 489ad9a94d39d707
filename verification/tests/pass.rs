//! Scenario tests driving whole reconciliation passes through the state
//! machine, playing the part of the network.

use gandi_dyn_dns::cfg::{Cfg, DomainCfg, PrefixCfg, Target};
use gandi_dyn_dns::ipify::IpFamily;
use gandi_dyn_dns::livedns::{DnsRecordType, UpsertOutcome};
use gandi_dyn_dns::reconcile::{Action, Event, PassError, PassState, Phase};

fn one_prefix_cfg(ipv4: bool, ipv6: bool) -> Cfg {
    Cfg {
        api_key: "token".to_string(),
        domains: vec![DomainCfg {
            name: "example.com".to_string(),
            prefixes: vec![PrefixCfg { name: "home".to_string(), ipv4, ipv6 }],
        }],
        refresh_interval: 5,
    }
}

fn lookup_ok(addr: &str) -> Event {
    Event::LookupOk { addr: addr.to_string() }
}

fn response(status: u16, body: &str) -> Event {
    Event::HttpResponse { status, body: body.to_string() }
}

#[test]
fn created_pass_reports_created() {
    let cfg = one_prefix_cfg(true, false);
    let (mut s, act) = PassState::start(cfg.targets());
    match act {
        Action::Lookup { family } => assert_eq!(family, IpFamily::V4),
        _ => panic!("expected an IPv4 lookup first"),
    }
    let act = s.step(lookup_ok("203.0.113.5"));
    match act {
        Action::HttpCreate { domain, name, kind, value } => {
            assert_eq!(domain, "example.com");
            assert_eq!(name, "home");
            assert_eq!(kind, DnsRecordType::A);
            assert_eq!(value, "203.0.113.5");
        }
        _ => panic!("expected a create call"),
    }
    let act = s.step(response(201, ""));
    assert!(matches!(act, Action::Done));
    assert_eq!(s.reports.len(), 1);
    let r = &s.reports[0];
    assert_eq!(r.domain, "example.com");
    assert_eq!(r.name, "home");
    assert_eq!(r.kind, DnsRecordType::A);
    assert_eq!(r.value, "203.0.113.5");
    assert!(matches!(r.outcome, UpsertOutcome::Created));
}

#[test]
fn conflict_falls_back_to_update() {
    let cfg = one_prefix_cfg(true, false);
    let (mut s, _act) = PassState::start(cfg.targets());
    let _act = s.step(lookup_ok("203.0.113.5"));
    let act = s.step(response(409, "record exists"));
    match act {
        Action::HttpUpdate { domain, name, kind, value } => {
            assert_eq!(domain, "example.com");
            assert_eq!(name, "home");
            assert_eq!(kind, DnsRecordType::A);
            assert_eq!(value, "203.0.113.5");
        }
        _ => panic!("a conflict must trigger the fallback update"),
    }
    assert_eq!(s.reports.len(), 0);
    let act = s.step(response(201, ""));
    assert!(matches!(act, Action::Done));
    assert_eq!(s.reports.len(), 1);
    assert!(matches!(s.reports[0].outcome, UpsertOutcome::Updated));
}

#[test]
fn unchanged_status_reports_unchanged() {
    let cfg = one_prefix_cfg(true, false);
    let (mut s, _act) = PassState::start(cfg.targets());
    let _act = s.step(lookup_ok("203.0.113.5"));
    let act = s.step(response(200, ""));
    assert!(matches!(act, Action::Done));
    assert_eq!(s.reports.len(), 1);
    assert!(matches!(s.reports[0].outcome, UpsertOutcome::Unchanged));
}

#[test]
fn create_error_aborts_pass() {
    let cfg = Cfg {
        api_key: "token".to_string(),
        domains: vec![DomainCfg {
            name: "example.com".to_string(),
            prefixes: vec![
                PrefixCfg { name: "home".to_string(), ipv4: true, ipv6: false },
                PrefixCfg { name: "office".to_string(), ipv4: true, ipv6: false },
            ],
        }],
        refresh_interval: 5,
    };
    let (mut s, _act) = PassState::start(cfg.targets());
    let _act = s.step(lookup_ok("203.0.113.5"));
    let act = s.step(response(500, "internal error"));
    match act {
        Action::Failed { error } => match error {
            PassError::Upsert { domain, name, kind, value, status, body } => {
                assert_eq!(domain, "example.com");
                assert_eq!(name, "home");
                assert_eq!(kind, DnsRecordType::A);
                assert_eq!(value, "203.0.113.5");
                assert_eq!(status, 500);
                assert_eq!(body, "internal error");
            }
            _ => panic!("expected an upsert error"),
        },
        _ => panic!("an unhandled status must abort the pass"),
    }
    assert!(matches!(s.phase, Phase::Failed));
    assert_eq!(s.reports.len(), 1);
    match &s.reports[0].outcome {
        UpsertOutcome::Failed { status, body } => {
            assert_eq!(*status, 500);
            assert_eq!(body, "internal error");
        }
        _ => panic!("the failed outcome must be recorded"),
    }
}

#[test]
fn update_error_aborts_pass() {
    let cfg = one_prefix_cfg(true, false);
    let (mut s, _act) = PassState::start(cfg.targets());
    let _act = s.step(lookup_ok("203.0.113.5"));
    let _act = s.step(response(409, ""));
    let act = s.step(response(503, "try later"));
    match act {
        Action::Failed { error: PassError::Upsert { status, body, .. } } => {
            assert_eq!(status, 503);
            assert_eq!(body, "try later");
        }
        _ => panic!("an unhandled update status must abort the pass"),
    }
    assert!(matches!(s.phase, Phase::Failed));
}

#[test]
fn dual_family_target_upserts_both_kinds() {
    let cfg = one_prefix_cfg(true, true);
    let (mut s, act) = PassState::start(cfg.targets());
    assert!(matches!(act, Action::Lookup { family: IpFamily::V4 }));
    let act = s.step(lookup_ok("198.51.100.7"));
    assert!(matches!(act, Action::Lookup { family: IpFamily::V6 }));
    let act = s.step(lookup_ok("2001:db8::1"));
    match act {
        Action::HttpCreate { kind, value, .. } => {
            assert_eq!(kind, DnsRecordType::A);
            assert_eq!(value, "198.51.100.7");
        }
        _ => panic!("expected the A record create"),
    }
    let act = s.step(response(201, ""));
    match act {
        Action::HttpCreate { kind, value, .. } => {
            assert_eq!(kind, DnsRecordType::AAAA);
            assert_eq!(value, "2001:db8::1");
        }
        _ => panic!("expected the AAAA record create"),
    }
    let act = s.step(response(201, ""));
    assert!(matches!(act, Action::Done));
    assert_eq!(s.reports.len(), 2);
    assert_eq!(s.reports[0].kind, DnsRecordType::A);
    assert_eq!(s.reports[1].kind, DnsRecordType::AAAA);
}

#[test]
fn shared_family_is_looked_up_once() {
    let cfg = Cfg {
        api_key: "token".to_string(),
        domains: vec![DomainCfg {
            name: "example.com".to_string(),
            prefixes: vec![
                PrefixCfg { name: "home".to_string(), ipv4: true, ipv6: false },
                PrefixCfg { name: "office".to_string(), ipv4: true, ipv6: false },
            ],
        }],
        refresh_interval: 5,
    };
    let (mut s, act) = PassState::start(cfg.targets());
    assert!(matches!(act, Action::Lookup { family: IpFamily::V4 }));
    let _act = s.step(lookup_ok("203.0.113.5"));
    let act = s.step(response(201, ""));
    match act {
        Action::HttpCreate { name, value, .. } => {
            assert_eq!(name, "office");
            assert_eq!(value, "203.0.113.5");
        }
        _ => panic!("the second target must reuse the cached address, not look up again"),
    }
    let act = s.step(response(200, ""));
    assert!(matches!(act, Action::Done));
    assert_eq!(s.reports.len(), 2);
}

#[test]
fn ipv6_only_target_skips_ipv4_lookup() {
    let cfg = one_prefix_cfg(false, true);
    let (mut s, act) = PassState::start(cfg.targets());
    assert!(matches!(act, Action::Lookup { family: IpFamily::V6 }));
    let act = s.step(lookup_ok("2001:db8::1"));
    match act {
        Action::HttpCreate { kind, value, .. } => {
            assert_eq!(kind, DnsRecordType::AAAA);
            assert_eq!(value, "2001:db8::1");
        }
        _ => panic!("expected the AAAA record create"),
    }
    let act = s.step(response(201, ""));
    assert!(matches!(act, Action::Done));
}

#[test]
fn lookup_error_aborts_pass() {
    let cfg = one_prefix_cfg(true, false);
    let (mut s, _act) = PassState::start(cfg.targets());
    let act = s.step(Event::LookupErr { msg: "connection refused".to_string() });
    match act {
        Action::Failed { error: PassError::Lookup { family, msg } } => {
            assert_eq!(family, IpFamily::V4);
            assert_eq!(msg, "connection refused");
        }
        _ => panic!("a failed lookup must abort the pass"),
    }
    assert!(matches!(s.phase, Phase::Failed));
    assert_eq!(s.reports.len(), 0);
}

#[test]
fn target_wanting_nothing_finishes_at_once() {
    let cfg = one_prefix_cfg(false, false);
    let (s, act) = PassState::start(cfg.targets());
    assert!(matches!(act, Action::Done));
    assert!(matches!(s.phase, Phase::Done));
    assert_eq!(s.reports.len(), 0);
}

#[test]
fn empty_target_list_finishes_at_once() {
    let targets: Vec<Target> = Vec::new();
    let (s, act) = PassState::start(targets);
    assert!(matches!(act, Action::Done));
    assert!(matches!(s.phase, Phase::Done));
}

#[test]
fn upsert_twice_with_same_value_ends_unchanged() {
    // First pass: the record does not exist yet, the create is answered
    // with the created status.
    let cfg = one_prefix_cfg(true, false);
    let (mut s, _act) = PassState::start(cfg.targets());
    let _act = s.step(lookup_ok("203.0.113.5"));
    let act = s.step(response(201, ""));
    assert!(matches!(act, Action::Done));
    assert!(matches!(s.reports[0].outcome, UpsertOutcome::Created));

    // Second pass with the same value: the record now holds it, the create
    // is answered with the unchanged status, and no update call follows.
    let (mut s2, _act) = PassState::start(cfg.targets());
    let _act = s2.step(lookup_ok("203.0.113.5"));
    let act = s2.step(response(200, ""));
    assert!(matches!(act, Action::Done));
    assert_eq!(s2.reports.len(), 1);
    assert!(matches!(s2.reports[0].outcome, UpsertOutcome::Unchanged));
}
