//! Unit tests of the configuration flattening, the address cache, and the
//! provider status dispatch.

use gandi_dyn_dns::cfg::{Cfg, DomainCfg, PrefixCfg};
use gandi_dyn_dns::ipify::Ips;
use gandi_dyn_dns::livedns::{
    create_disposition, update_disposition, CreateDisposition, UpdateDisposition,
};

#[test]
fn new_cache_is_empty() {
    let ips = Ips::new();
    assert!(ips.v4.is_none());
    assert!(ips.v6.is_none());
}

#[test]
fn targets_flatten_in_configured_order() {
    let cfg = Cfg {
        api_key: "token".to_string(),
        domains: vec![
            DomainCfg {
                name: "example.com".to_string(),
                prefixes: vec![
                    PrefixCfg { name: "home".to_string(), ipv4: true, ipv6: false },
                    PrefixCfg { name: "office".to_string(), ipv4: false, ipv6: true },
                ],
            },
            DomainCfg {
                name: "example.org".to_string(),
                prefixes: vec![PrefixCfg { name: "lab".to_string(), ipv4: true, ipv6: true }],
            },
        ],
        refresh_interval: 30,
    };
    let targets = cfg.targets();
    assert_eq!(targets.len(), 3);
    assert_eq!(targets[0].domain, "example.com");
    assert_eq!(targets[0].name, "home");
    assert!(targets[0].ipv4);
    assert!(!targets[0].ipv6);
    assert_eq!(targets[1].domain, "example.com");
    assert_eq!(targets[1].name, "office");
    assert!(!targets[1].ipv4);
    assert!(targets[1].ipv6);
    assert_eq!(targets[2].domain, "example.org");
    assert_eq!(targets[2].name, "lab");
    assert!(targets[2].ipv4);
    assert!(targets[2].ipv6);
}

#[test]
fn targets_of_empty_cfg_are_empty() {
    let cfg = Cfg { api_key: "token".to_string(), domains: vec![], refresh_interval: 1 };
    assert_eq!(cfg.targets().len(), 0);
}

#[test]
fn create_statuses_dispatch() {
    assert_eq!(create_disposition(200), CreateDisposition::Unchanged);
    assert_eq!(create_disposition(201), CreateDisposition::Created);
    assert_eq!(create_disposition(409), CreateDisposition::Conflict);
    assert_eq!(create_disposition(404), CreateDisposition::Error);
    assert_eq!(create_disposition(500), CreateDisposition::Error);
}

#[test]
fn update_statuses_dispatch() {
    assert_eq!(update_disposition(201), UpdateDisposition::Updated);
    assert_eq!(update_disposition(200), UpdateDisposition::Error);
    assert_eq!(update_disposition(500), UpdateDisposition::Error);
}
