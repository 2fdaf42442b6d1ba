use kraken::export::{
    aggregate_workspace, check_access, export_port_number, export_workspace,
    export_workspace_now, AggregatedRelation, ExportError, WorkspaceSnapshot,
};
use kraken::models::{
    Domain, DomainCertainty, DomainDomainRelation, DomainHostRelation, Host, HostCertainty, IpNet,
    OsType, Port, PortCertainty, PortProtocol, Service, ServiceCertainty, TagAttachment,
    WorkspaceAccessToken,
};

fn empty_snapshot() -> WorkspaceSnapshot {
    WorkspaceSnapshot {
        access_tokens: vec![],
        hosts: vec![],
        ports: vec![],
        services: vec![],
        domains: vec![],
        domain_domain_relations: vec![],
        domain_host_relations: vec![],
        host_global_tags: vec![],
        host_workspace_tags: vec![],
        port_global_tags: vec![],
        port_workspace_tags: vec![],
        service_global_tags: vec![],
        service_workspace_tags: vec![],
        domain_global_tags: vec![],
        domain_workspace_tags: vec![],
    }
}

fn host(uuid: u128, workspace: u128) -> Host {
    Host {
        uuid,
        ip_addr: IpNet::V4 { addr: 0x0A00_0001, prefix: 32 },
        os_type: OsType::Linux,
        response_time: Some(12),
        comment: String::from("a host"),
        certainty: HostCertainty::Verified,
        workspace,
        created_at: 1_700_000_000_000,
    }
}

fn port(uuid: u128, stored: i16, host: u128, workspace: u128) -> Port {
    Port {
        uuid,
        port: stored,
        protocol: PortProtocol::Tcp,
        certainty: PortCertainty::Verified,
        host,
        comment: String::new(),
        workspace,
        created_at: 1_700_000_000_000,
    }
}

fn service(uuid: u128, host: u128, port: Option<u128>, workspace: u128) -> Service {
    Service {
        uuid,
        name: String::from("http"),
        version: None,
        certainty: ServiceCertainty::DefinitelyVerified,
        host,
        port,
        comment: String::new(),
        workspace,
        created_at: 1_700_000_000_000,
    }
}

fn domain(uuid: u128, name: &str, workspace: u128) -> Domain {
    Domain {
        uuid,
        domain: String::from(name),
        certainty: DomainCertainty::Verified,
        comment: String::new(),
        workspace,
        created_at: 1_700_000_000_000,
    }
}

fn token(token: &str, workspace: u128, expires_at: i64) -> WorkspaceAccessToken {
    WorkspaceAccessToken { token: String::from(token), workspace, expires_at }
}

const W: u128 = 1;
const H1: u128 = 0xA1;
const P1: u128 = 0xB1;
const S1: u128 = 0xC1;
const D1: u128 = 0xD1;
const R1: u128 = 0xE1;

/// One host, one domain linked by a direct relation, one port, one service
/// bound to the port: every back-reference list is filled as expected.
fn linked_snapshot() -> WorkspaceSnapshot {
    let mut s = empty_snapshot();
    s.access_tokens.push(token("secret", W, 2_000_000_000_000));
    s.hosts.push(host(H1, W));
    s.domains.push(domain(D1, "example.com", W));
    s.domain_host_relations.push(DomainHostRelation {
        uuid: R1,
        domain: D1,
        host: H1,
        is_direct: true,
        workspace: W,
    });
    s.ports.push(port(P1, 80, H1, W));
    s.services.push(service(S1, H1, Some(P1), W));
    s
}

#[test]
fn end_to_end_linked_graph() {
    let s = linked_snapshot();
    let out = export_workspace(&s, &String::from("secret"), W, 1_700_000_000_000).unwrap();

    assert_eq!(out.hosts.len(), 1);
    let h = out.get_host(H1).unwrap();
    assert_eq!(h.uuid, H1);
    assert_eq!(h.ip_addr, IpNet::V4 { addr: 0x0A00_0001, prefix: 32 });
    assert_eq!(h.ports, vec![P1]);
    assert_eq!(h.services, vec![S1]);
    assert_eq!(h.domains, vec![R1]);

    let d = out.get_domain(D1).unwrap();
    assert_eq!(d.domain, "example.com");
    assert_eq!(d.hosts, vec![R1]);
    assert_eq!(d.sources, Vec::<u128>::new());
    assert_eq!(d.destinations, Vec::<u128>::new());

    let p = out.get_port(P1).unwrap();
    assert_eq!(p.port, 80u16);
    assert_eq!(p.host, H1);
    assert_eq!(p.services, vec![S1]);

    let x = out.get_service(S1).unwrap();
    assert_eq!(x.host, H1);
    assert_eq!(x.port, Some(P1));

    assert_eq!(out.relations.len(), 1);
    let r = out.get_relation(R1).unwrap();
    assert_eq!(
        r.relation,
        AggregatedRelation::DomainHost { domain: D1, host: H1, is_direct: true }
    );
}

#[test]
fn port_bit_reinterpretation() {
    assert_eq!(export_port_number(0), 0u16);
    assert_eq!(export_port_number(32767), 32767u16);
    assert_eq!(export_port_number(-32768), 32768u16);
    assert_eq!(export_port_number(-1), 65535u16);
}

#[test]
fn port_bit_reinterpretation_through_export() {
    let mut s = empty_snapshot();
    s.hosts.push(host(H1, W));
    s.ports.push(port(10, 0, H1, W));
    s.ports.push(port(11, 32767, H1, W));
    s.ports.push(port(12, -32768, H1, W));
    s.ports.push(port(13, -1, H1, W));
    let out = aggregate_workspace(&s, W);
    assert_eq!(out.get_port(10).unwrap().port, 0u16);
    assert_eq!(out.get_port(11).unwrap().port, 32767u16);
    assert_eq!(out.get_port(12).unwrap().port, 32768u16);
    assert_eq!(out.get_port(13).unwrap().port, 65535u16);
}

#[test]
fn untagged_entity_exports_empty_lists() {
    let s = linked_snapshot();
    let out = aggregate_workspace(&s, W);
    let h = out.get_host(H1).unwrap();
    assert_eq!(h.tags.global_tags, Vec::<String>::new());
    assert_eq!(h.tags.local_tags, Vec::<String>::new());
    let d = out.get_domain(D1).unwrap();
    assert_eq!(d.tags.global_tags, Vec::<String>::new());
    assert_eq!(d.tags.local_tags, Vec::<String>::new());
}

#[test]
fn tags_attach_in_order_without_deduplication() {
    let mut s = linked_snapshot();
    s.host_global_tags.push(TagAttachment { owner: H1, name: String::from("critical") });
    s.host_global_tags.push(TagAttachment { owner: H1, name: String::from("critical") });
    s.host_global_tags.push(TagAttachment { owner: H1, name: String::from("linux") });
    s.host_workspace_tags.push(TagAttachment { owner: H1, name: String::from("phase-2") });
    // a tag row whose owner is not a loaded entity is dropped
    s.host_workspace_tags.push(TagAttachment { owner: 0xFFFF, name: String::from("orphan") });
    let out = aggregate_workspace(&s, W);
    let h = out.get_host(H1).unwrap();
    assert_eq!(h.tags.global_tags, vec!["critical", "critical", "linux"]);
    assert_eq!(h.tags.local_tags, vec!["phase-2"]);
}

#[test]
fn credential_for_other_workspace_is_rejected() {
    let mut s = linked_snapshot();
    s.access_tokens.push(token("other-scope", 2, 2_000_000_000_000));
    let r = export_workspace(&s, &String::from("other-scope"), W, 1_700_000_000_000);
    assert_eq!(r, Err(ExportError::Authorization));
}

#[test]
fn expired_credential_is_rejected() {
    let s = linked_snapshot();
    let expiry = 2_000_000_000_000i64;
    // valid strictly before the expiry instant
    assert!(export_workspace(&s, &String::from("secret"), W, expiry - 1).is_ok());
    // the same credential no longer authorizes at its expiry instant
    let r = export_workspace(&s, &String::from("secret"), W, expiry);
    assert_eq!(r, Err(ExportError::Authorization));
}

#[test]
fn unknown_credential_is_rejected() {
    let s = linked_snapshot();
    let r = export_workspace(&s, &String::from("wrong"), W, 1_700_000_000_000);
    assert_eq!(r, Err(ExportError::Authorization));
}

#[test]
fn check_access_matches_all_three_conditions() {
    let tokens = vec![
        token("a", 1, 100),
        token("b", 2, 100),
    ];
    assert!(check_access(&tokens, &String::from("a"), 1, 99));
    assert!(!check_access(&tokens, &String::from("a"), 1, 100));
    assert!(!check_access(&tokens, &String::from("a"), 2, 99));
    assert!(!check_access(&tokens, &String::from("b"), 1, 99));
    assert!(check_access(&tokens, &String::from("b"), 2, 99));
}

#[test]
fn export_with_live_clock_succeeds_on_unexpired_credential() {
    let mut s = linked_snapshot();
    s.access_tokens.push(token("fresh", W, i64::MAX));
    let out = export_workspace_now(&s, &String::from("fresh"), W).unwrap();
    assert_eq!(out.hosts.len(), 1);
}

#[test]
fn entities_of_other_workspaces_never_appear() {
    let mut s = linked_snapshot();
    let other: u128 = 2;
    s.hosts.push(host(0xA2, other));
    s.ports.push(port(0xB2, 443, 0xA2, other));
    s.services.push(service(0xC2, 0xA2, None, other));
    s.domains.push(domain(0xD2, "other.example", other));
    s.domain_host_relations.push(DomainHostRelation {
        uuid: 0xE2,
        domain: 0xD2,
        host: 0xA2,
        is_direct: false,
        workspace: other,
    });
    let out = aggregate_workspace(&s, W);
    assert_eq!(out.hosts.len(), 1);
    assert_eq!(out.ports.len(), 1);
    assert_eq!(out.services.len(), 1);
    assert_eq!(out.domains.len(), 1);
    assert_eq!(out.relations.len(), 1);
    assert!(out.get_host(0xA2).is_none());
    assert!(out.get_port(0xB2).is_none());
    assert!(out.get_service(0xC2).is_none());
    assert!(out.get_domain(0xD2).is_none());
    assert!(out.get_relation(0xE2).is_none());
}

#[test]
fn export_is_idempotent() {
    let s = linked_snapshot();
    let out1 = aggregate_workspace(&s, W);
    let out2 = aggregate_workspace(&s, W);
    assert_eq!(out1, out2);
}

#[test]
fn domain_domain_relation_fills_both_sides() {
    let mut s = empty_snapshot();
    s.domains.push(domain(D1, "a.example", W));
    s.domains.push(domain(0xD2, "b.example", W));
    s.domain_domain_relations.push(DomainDomainRelation {
        uuid: 0xE5,
        source: D1,
        destination: 0xD2,
        workspace: W,
    });
    let out = aggregate_workspace(&s, W);
    let a = out.get_domain(D1).unwrap();
    assert_eq!(a.destinations, vec![0xE5]);
    assert_eq!(a.sources, Vec::<u128>::new());
    let b = out.get_domain(0xD2).unwrap();
    assert_eq!(b.sources, vec![0xE5]);
    assert_eq!(b.destinations, Vec::<u128>::new());
    let r = out.get_relation(0xE5).unwrap();
    assert_eq!(
        r.relation,
        AggregatedRelation::DomainDomain { source: D1, destination: 0xD2 }
    );
}

#[test]
fn relation_with_missing_endpoint_is_recorded_but_not_linked() {
    let mut s = empty_snapshot();
    s.domains.push(domain(D1, "a.example", W));
    // the host endpoint is not among the loaded entities
    s.domain_host_relations.push(DomainHostRelation {
        uuid: R1,
        domain: D1,
        host: 0xDEAD,
        is_direct: true,
        workspace: W,
    });
    let out = aggregate_workspace(&s, W);
    // the relation entry itself is still recorded
    assert!(out.get_relation(R1).is_some());
    // the domain side that is present is linked
    assert_eq!(out.get_domain(D1).unwrap().hosts, vec![R1]);
    // and no host record exists to carry the other side
    assert!(out.hosts.is_empty());
}

#[test]
fn back_reference_lists_preserve_row_order() {
    let mut s = empty_snapshot();
    s.hosts.push(host(H1, W));
    s.ports.push(port(30, 22, H1, W));
    s.ports.push(port(10, 80, H1, W));
    s.ports.push(port(20, 443, H1, W));
    let out = aggregate_workspace(&s, W);
    assert_eq!(out.get_host(H1).unwrap().ports, vec![30, 10, 20]);
}

#[test]
fn empty_workspace_exports_empty_collections() {
    let s = empty_snapshot();
    let out = aggregate_workspace(&s, W);
    assert!(out.hosts.is_empty());
    assert!(out.ports.is_empty());
    assert!(out.services.is_empty());
    assert!(out.domains.is_empty());
    assert!(out.relations.is_empty());
}
