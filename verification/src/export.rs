//! The export engine: aggregation of one workspace into a snapshot graph.
//!
//! Given the workspace-scoped rows read inside one transaction, the engine
//! produces one immutable result holding five identity-keyed collections:
//! hosts, ports, services, domains and relations.  Back-reference lists are
//! derived from the forward foreign keys of the rows, in row order; tag names
//! are attached to the entities owning them.  Rows whose endpoint or owner is
//! not among the loaded entities are tolerated: the list append is skipped
//! while a relation entry itself is still recorded.
//!
//! The whole result is pinned by the spec-side model [`spec_export`]: the
//! executable engine returns exactly the graph that the model describes.

use vstd::prelude::*;

use crate::models::{
    Domain, DomainCertainty, DomainDomainRelation, DomainHostRelation, Host, HostCertainty, IpNet,
    OsType, Port, PortCertainty, PortProtocol, Service, ServiceCertainty, TagAttachment,
    WorkspaceAccessToken,
};

verus! {

/// All rows of one workspace snapshot, as the store's filtered reads hand
/// them over, in one transaction's view of the data.
///
/// The entity and relation rows carry their workspace column and may span
/// several workspaces; the engine itself keeps only the requested one.  The
/// tag rows are the store's joined reads (owner and tag name); rows whose
/// owner is not a loaded entity are dropped by the engine.
///
/// The store guarantees globally unique entity identities; the laws in
/// [`crate::laws`] take that invariant as their hypothesis
/// ([`crate::laws::spec_entity_ids_unique`]), while the engine itself asks
/// nothing of its input.
pub struct WorkspaceSnapshot {
    /// The access credentials table
    pub access_tokens: Vec<WorkspaceAccessToken>,
    /// The host table
    pub hosts: Vec<Host>,
    /// The port table
    pub ports: Vec<Port>,
    /// The service table
    pub services: Vec<Service>,
    /// The domain table
    pub domains: Vec<Domain>,
    /// The domain-to-domain relation table
    pub domain_domain_relations: Vec<DomainDomainRelation>,
    /// The domain-to-host relation table
    pub domain_host_relations: Vec<DomainHostRelation>,
    /// Global tags attached to hosts, joined to their names
    pub host_global_tags: Vec<TagAttachment>,
    /// Workspace tags attached to hosts, joined to their names
    pub host_workspace_tags: Vec<TagAttachment>,
    /// Global tags attached to ports, joined to their names
    pub port_global_tags: Vec<TagAttachment>,
    /// Workspace tags attached to ports, joined to their names
    pub port_workspace_tags: Vec<TagAttachment>,
    /// Global tags attached to services, joined to their names
    pub service_global_tags: Vec<TagAttachment>,
    /// Workspace tags attached to services, joined to their names
    pub service_workspace_tags: Vec<TagAttachment>,
    /// Global tags attached to domains, joined to their names
    pub domain_global_tags: Vec<TagAttachment>,
    /// Workspace tags attached to domains, joined to their names
    pub domain_workspace_tags: Vec<TagAttachment>,
}

/// Set of global and local tags
#[derive(Clone, PartialEq, Eq, Debug)]
pub struct AggregatedTags {
    /// Global tags
    pub global_tags: Vec<String>,
    /// Tags which are local to the workspace
    pub local_tags: Vec<String>,
}

/// The mathematical value of [`AggregatedTags`]
#[verifier::ext_equal]
pub struct TagsView {
    /// Global tags
    pub global_tags: Seq<String>,
    /// Tags which are local to the workspace
    pub local_tags: Seq<String>,
}

impl View for AggregatedTags {
    type V = TagsView;

    open spec fn view(&self) -> TagsView {
        TagsView { global_tags: self.global_tags@, local_tags: self.local_tags@ }
    }
}

/// A representation of an host
#[derive(Clone, PartialEq, Eq, Debug)]
pub struct AggregatedHost {
    /// The host's identity
    pub uuid: u128,
    /// The IP address of the host
    pub ip_addr: IpNet,
    /// The type of OS of this host
    pub os_type: OsType,
    /// The certainty of the host
    pub certainty: HostCertainty,
    /// Response time in ms
    pub response_time: Option<i32>,
    /// The ports of a host
    pub ports: Vec<u128>,
    /// The services of a host
    pub services: Vec<u128>,
    /// Identities of [`AggregatedRelation::DomainHost`] entries
    pub domains: Vec<u128>,
    /// A comment to the host
    pub comment: String,
    /// Set of global and local tags
    pub tags: AggregatedTags,
    /// The first time this host was encountered
    pub created_at: i64,
}

/// The mathematical value of [`AggregatedHost`]
#[verifier::ext_equal]
pub struct HostView {
    /// The host's identity
    pub uuid: u128,
    /// The IP address of the host
    pub ip_addr: IpNet,
    /// The type of OS of this host
    pub os_type: OsType,
    /// The certainty of the host
    pub certainty: HostCertainty,
    /// Response time in ms
    pub response_time: Option<i32>,
    /// The ports of a host
    pub ports: Seq<u128>,
    /// The services of a host
    pub services: Seq<u128>,
    /// Identities of the domain-to-host relations of this host
    pub domains: Seq<u128>,
    /// A comment to the host
    pub comment: String,
    /// Set of global and local tags
    pub tags: TagsView,
    /// The first time this host was encountered
    pub created_at: i64,
}

impl View for AggregatedHost {
    type V = HostView;

    open spec fn view(&self) -> HostView {
        HostView {
            uuid: self.uuid,
            ip_addr: self.ip_addr,
            os_type: self.os_type,
            certainty: self.certainty,
            response_time: self.response_time,
            ports: self.ports@,
            services: self.services@,
            domains: self.domains@,
            comment: self.comment,
            tags: self.tags@,
            created_at: self.created_at,
        }
    }
}

impl DeepView for AggregatedHost {
    type V = HostView;

    open spec fn deep_view(&self) -> HostView {
        self.view()
    }
}

/// An open port on a host
#[derive(Clone, PartialEq, Eq, Debug)]
pub struct AggregatedPort {
    /// The port's identity
    pub uuid: u128,
    /// Port number
    pub port: u16,
    /// Port protocol
    pub protocol: PortProtocol,
    /// The host this port is attached to
    pub host: u128,
    /// The services that link to this port
    pub services: Vec<u128>,
    /// The certainty of the port
    pub certainty: PortCertainty,
    /// A comment to the port
    pub comment: String,
    /// Set of global and local tags
    pub tags: AggregatedTags,
    /// The first time this port was encountered
    pub created_at: i64,
}

/// The mathematical value of [`AggregatedPort`]
#[verifier::ext_equal]
pub struct PortView {
    /// The port's identity
    pub uuid: u128,
    /// Port number
    pub port: u16,
    /// Port protocol
    pub protocol: PortProtocol,
    /// The host this port is attached to
    pub host: u128,
    /// The services that link to this port
    pub services: Seq<u128>,
    /// The certainty of the port
    pub certainty: PortCertainty,
    /// A comment to the port
    pub comment: String,
    /// Set of global and local tags
    pub tags: TagsView,
    /// The first time this port was encountered
    pub created_at: i64,
}

impl View for AggregatedPort {
    type V = PortView;

    open spec fn view(&self) -> PortView {
        PortView {
            uuid: self.uuid,
            port: self.port,
            protocol: self.protocol,
            host: self.host,
            services: self.services@,
            certainty: self.certainty,
            comment: self.comment,
            tags: self.tags@,
            created_at: self.created_at,
        }
    }
}

impl DeepView for AggregatedPort {
    type V = PortView;

    open spec fn deep_view(&self) -> PortView {
        self.view()
    }
}

/// A detected service on a host
#[derive(Clone, PartialEq, Eq, Debug)]
pub struct AggregatedService {
    /// The service's identity
    pub uuid: u128,
    /// Name of the service
    pub name: String,
    /// Optional version of the service
    pub version: Option<String>,
    /// The host this service is attached to
    pub host: u128,
    /// The port this service is attached to
    pub port: Option<u128>,
    /// A comment to the service
    pub comment: String,
    /// The certainty the service was detected
    pub certainty: ServiceCertainty,
    /// Set of global and local tags
    pub tags: AggregatedTags,
    /// The first time this service was encountered
    pub created_at: i64,
}

/// The mathematical value of [`AggregatedService`]
#[verifier::ext_equal]
pub struct ServiceView {
    /// The service's identity
    pub uuid: u128,
    /// Name of the service
    pub name: String,
    /// Optional version of the service
    pub version: Option<String>,
    /// The host this service is attached to
    pub host: u128,
    /// The port this service is attached to
    pub port: Option<u128>,
    /// A comment to the service
    pub comment: String,
    /// The certainty the service was detected
    pub certainty: ServiceCertainty,
    /// Set of global and local tags
    pub tags: TagsView,
    /// The first time this service was encountered
    pub created_at: i64,
}

impl View for AggregatedService {
    type V = ServiceView;

    open spec fn view(&self) -> ServiceView {
        ServiceView {
            uuid: self.uuid,
            name: self.name,
            version: self.version,
            host: self.host,
            port: self.port,
            comment: self.comment,
            certainty: self.certainty,
            tags: self.tags@,
            created_at: self.created_at,
        }
    }
}

impl DeepView for AggregatedService {
    type V = ServiceView;

    open spec fn deep_view(&self) -> ServiceView {
        self.view()
    }
}

/// A domain
#[derive(Clone, PartialEq, Eq, Debug)]
pub struct AggregatedDomain {
    /// The domain's identity
    pub uuid: u128,
    /// The domain that was found
    pub domain: String,
    /// Identities of [`AggregatedRelation::DomainHost`] entries
    pub hosts: Vec<u128>,
    /// Identities of [`AggregatedRelation::DomainDomain`] entries where this
    /// domain is the destination
    pub sources: Vec<u128>,
    /// Identities of [`AggregatedRelation::DomainDomain`] entries where this
    /// domain is the source
    pub destinations: Vec<u128>,
    /// The certainty of the domain
    pub certainty: DomainCertainty,
    /// A comment to the domain
    pub comment: String,
    /// Set of global and local tags
    pub tags: AggregatedTags,
    /// The first time this domain was encountered
    pub created_at: i64,
}

/// The mathematical value of [`AggregatedDomain`]
#[verifier::ext_equal]
pub struct DomainView {
    /// The domain's identity
    pub uuid: u128,
    /// The domain that was found
    pub domain: String,
    /// Identities of the domain-to-host relations of this domain
    pub hosts: Seq<u128>,
    /// Identities of the domain-to-domain relations pointing at this domain
    pub sources: Seq<u128>,
    /// Identities of the domain-to-domain relations starting at this domain
    pub destinations: Seq<u128>,
    /// The certainty of the domain
    pub certainty: DomainCertainty,
    /// A comment to the domain
    pub comment: String,
    /// Set of global and local tags
    pub tags: TagsView,
    /// The first time this domain was encountered
    pub created_at: i64,
}

impl View for AggregatedDomain {
    type V = DomainView;

    open spec fn view(&self) -> DomainView {
        DomainView {
            uuid: self.uuid,
            domain: self.domain,
            hosts: self.hosts@,
            sources: self.sources@,
            destinations: self.destinations@,
            certainty: self.certainty,
            comment: self.comment,
            tags: self.tags@,
            created_at: self.created_at,
        }
    }
}

impl DeepView for AggregatedDomain {
    type V = DomainView;

    open spec fn deep_view(&self) -> DomainView {
        self.view()
    }
}

/// An m2m relation which is not inlined into its endpoints
#[derive(Clone, Copy, PartialEq, Eq, Structural, Debug)]
pub enum AggregatedRelation {
    /// A DNS relation between two domains
    DomainDomain {
        /// The source domain pointing to the other domain
        source: u128,
        /// The destination domain which is pointed to
        destination: u128,
    },
    /// A DNS relation between a domain and a host
    DomainHost {
        /// The domain resolving to a host
        domain: u128,
        /// The host resolved to by a domain
        host: u128,
        /// Whether the relation is a direct `A`/`AAAA` record rather than the
        /// end of a `CNAME` chain
        is_direct: bool,
    },
}

/// One entry of the relations collection: a relation keyed by its identity.
#[derive(Clone, Copy, PartialEq, Eq, Structural, Debug)]
pub struct RelationEntry {
    /// The relation's identity
    pub uuid: u128,
    /// The relation itself
    pub relation: AggregatedRelation,
}

/// The aggregated results of a workspace
#[derive(Clone, PartialEq, Eq, Debug)]
pub struct AggregatedWorkspace {
    /// The hosts found by this workspace
    pub hosts: Vec<AggregatedHost>,
    /// The ports found by this workspace
    pub ports: Vec<AggregatedPort>,
    /// The services found by this workspace
    pub services: Vec<AggregatedService>,
    /// The domains found by this workspace
    pub domains: Vec<AggregatedDomain>,
    /// All m2m relations which are not inlined
    pub relations: Vec<RelationEntry>,
}

/// The mathematical value of [`AggregatedWorkspace`]
#[verifier::ext_equal]
pub struct WorkspaceView {
    /// The exported hosts
    pub hosts: Seq<HostView>,
    /// The exported ports
    pub ports: Seq<PortView>,
    /// The exported services
    pub services: Seq<ServiceView>,
    /// The exported domains
    pub domains: Seq<DomainView>,
    /// The exported relations
    pub relations: Seq<RelationEntry>,
}

impl View for AggregatedWorkspace {
    type V = WorkspaceView;

    open spec fn view(&self) -> WorkspaceView {
        WorkspaceView {
            hosts: self.hosts.deep_view(),
            ports: self.ports.deep_view(),
            services: self.services.deep_view(),
            domains: self.domains.deep_view(),
            relations: self.relations@,
        }
    }
}

/// The errors of an export at the boundary
#[derive(Clone, Copy, PartialEq, Eq, Structural, Debug)]
pub enum ExportError {
    /// Client-class failure: missing, expired or mismatched credential
    Authorization,
    /// Store or transaction failure class
    Internal,
}

// ---------------------------------------------------------------------------
// The spec-side model of the export
// ---------------------------------------------------------------------------

/// The exported port number: the stored 16-bit signed quantity reinterpreted
/// bit-for-bit as unsigned.
pub open spec fn spec_port_number(stored: i16) -> u16 {
    if stored >= 0 {
        stored as u16
    } else {
        (stored + 0x10000) as u16
    }
}

/// The identities of the ports of workspace `w` owned by host `host`, in row
/// order.
pub open spec fn spec_host_ports(ports: Seq<Port>, w: u128, host: u128) -> Seq<u128> {
    ports.filter_map(
        |p: Port|
            if p.workspace == w && p.host == host {
                Some(p.uuid)
            } else {
                None
            },
    )
}

/// The identities of the services of workspace `w` owned by host `host`, in
/// row order.
pub open spec fn spec_host_services(services: Seq<Service>, w: u128, host: u128) -> Seq<u128> {
    services.filter_map(
        |x: Service|
            if x.workspace == w && x.host == host {
                Some(x.uuid)
            } else {
                None
            },
    )
}

/// The identities of the services of workspace `w` attached to port `port`,
/// in row order.
pub open spec fn spec_port_services(services: Seq<Service>, w: u128, port: u128) -> Seq<u128> {
    services.filter_map(
        |x: Service|
            if x.workspace == w && x.port == Some(port) {
                Some(x.uuid)
            } else {
                None
            },
    )
}

/// The identities of the domain-to-host relations of workspace `w` whose host
/// endpoint is `host`, in row order.
pub open spec fn spec_host_domain_links(
    rels: Seq<DomainHostRelation>,
    w: u128,
    host: u128,
) -> Seq<u128> {
    rels.filter_map(
        |x: DomainHostRelation|
            if x.workspace == w && x.host == host {
                Some(x.uuid)
            } else {
                None
            },
    )
}

/// The identities of the domain-to-host relations of workspace `w` whose
/// domain endpoint is `domain`, in row order.
pub open spec fn spec_domain_host_links(
    rels: Seq<DomainHostRelation>,
    w: u128,
    domain: u128,
) -> Seq<u128> {
    rels.filter_map(
        |x: DomainHostRelation|
            if x.workspace == w && x.domain == domain {
                Some(x.uuid)
            } else {
                None
            },
    )
}

/// The identities of the domain-to-domain relations of workspace `w` whose
/// destination is `domain`, in row order.
pub open spec fn spec_domain_sources(
    rels: Seq<DomainDomainRelation>,
    w: u128,
    domain: u128,
) -> Seq<u128> {
    rels.filter_map(
        |x: DomainDomainRelation|
            if x.workspace == w && x.destination == domain {
                Some(x.uuid)
            } else {
                None
            },
    )
}

/// The identities of the domain-to-domain relations of workspace `w` whose
/// source is `domain`, in row order.
pub open spec fn spec_domain_destinations(
    rels: Seq<DomainDomainRelation>,
    w: u128,
    domain: u128,
) -> Seq<u128> {
    rels.filter_map(
        |x: DomainDomainRelation|
            if x.workspace == w && x.source == domain {
                Some(x.uuid)
            } else {
                None
            },
    )
}

/// The names of the tags owned by `owner`, in row order, duplicates kept.
pub open spec fn spec_tag_names(tags: Seq<TagAttachment>, owner: u128) -> Seq<String> {
    tags.filter_map(
        |t: TagAttachment|
            if t.owner == owner {
                Some(t.name)
            } else {
                None
            },
    )
}

/// The tag sets of the entity `owner`: global and workspace-local names.
pub open spec fn spec_entity_tags(
    global: Seq<TagAttachment>,
    local: Seq<TagAttachment>,
    owner: u128,
) -> TagsView {
    TagsView {
        global_tags: spec_tag_names(global, owner),
        local_tags: spec_tag_names(local, owner),
    }
}

/// The exported record of one host row.
pub open spec fn spec_host_export(s: WorkspaceSnapshot, w: u128, r: Host) -> HostView {
    HostView {
        uuid: r.uuid,
        ip_addr: r.ip_addr,
        os_type: r.os_type,
        certainty: r.certainty,
        response_time: r.response_time,
        ports: spec_host_ports(s.ports@, w, r.uuid),
        services: spec_host_services(s.services@, w, r.uuid),
        domains: spec_host_domain_links(s.domain_host_relations@, w, r.uuid),
        comment: r.comment,
        tags: spec_entity_tags(s.host_global_tags@, s.host_workspace_tags@, r.uuid),
        created_at: r.created_at,
    }
}

/// The exported record of one port row.
pub open spec fn spec_port_export(s: WorkspaceSnapshot, w: u128, r: Port) -> PortView {
    PortView {
        uuid: r.uuid,
        port: spec_port_number(r.port),
        protocol: r.protocol,
        host: r.host,
        services: spec_port_services(s.services@, w, r.uuid),
        certainty: r.certainty,
        comment: r.comment,
        tags: spec_entity_tags(s.port_global_tags@, s.port_workspace_tags@, r.uuid),
        created_at: r.created_at,
    }
}

/// The exported record of one service row.
pub open spec fn spec_service_export(s: WorkspaceSnapshot, w: u128, r: Service) -> ServiceView {
    ServiceView {
        uuid: r.uuid,
        name: r.name,
        version: r.version,
        host: r.host,
        port: r.port,
        comment: r.comment,
        certainty: r.certainty,
        tags: spec_entity_tags(s.service_global_tags@, s.service_workspace_tags@, r.uuid),
        created_at: r.created_at,
    }
}

/// The exported record of one domain row.
pub open spec fn spec_domain_export(s: WorkspaceSnapshot, w: u128, r: Domain) -> DomainView {
    DomainView {
        uuid: r.uuid,
        domain: r.domain,
        hosts: spec_domain_host_links(s.domain_host_relations@, w, r.uuid),
        sources: spec_domain_sources(s.domain_domain_relations@, w, r.uuid),
        destinations: spec_domain_destinations(s.domain_domain_relations@, w, r.uuid),
        certainty: r.certainty,
        comment: r.comment,
        tags: spec_entity_tags(s.domain_global_tags@, s.domain_workspace_tags@, r.uuid),
        created_at: r.created_at,
    }
}

/// The exported hosts of workspace `w`, drawn from `rows` in row order.
pub open spec fn spec_hosts_export(rows: Seq<Host>, s: WorkspaceSnapshot, w: u128) -> Seq<
    HostView,
> {
    rows.filter_map(
        |r: Host|
            if r.workspace == w {
                Some(spec_host_export(s, w, r))
            } else {
                None
            },
    )
}

/// The exported ports of workspace `w`, drawn from `rows` in row order.
pub open spec fn spec_ports_export(rows: Seq<Port>, s: WorkspaceSnapshot, w: u128) -> Seq<
    PortView,
> {
    rows.filter_map(
        |r: Port|
            if r.workspace == w {
                Some(spec_port_export(s, w, r))
            } else {
                None
            },
    )
}

/// The exported services of workspace `w`, drawn from `rows` in row order.
pub open spec fn spec_services_export(rows: Seq<Service>, s: WorkspaceSnapshot, w: u128) -> Seq<
    ServiceView,
> {
    rows.filter_map(
        |r: Service|
            if r.workspace == w {
                Some(spec_service_export(s, w, r))
            } else {
                None
            },
    )
}

/// The exported domains of workspace `w`, drawn from `rows` in row order.
pub open spec fn spec_domains_export(rows: Seq<Domain>, s: WorkspaceSnapshot, w: u128) -> Seq<
    DomainView,
> {
    rows.filter_map(
        |r: Domain|
            if r.workspace == w {
                Some(spec_domain_export(s, w, r))
            } else {
                None
            },
    )
}

/// The relation entries of the domain-to-domain rows of workspace `w`.
pub open spec fn spec_domain_domain_entries(rows: Seq<DomainDomainRelation>, w: u128) -> Seq<
    RelationEntry,
> {
    rows.filter_map(
        |x: DomainDomainRelation|
            if x.workspace == w {
                Some(
                    RelationEntry {
                        uuid: x.uuid,
                        relation: AggregatedRelation::DomainDomain {
                            source: x.source,
                            destination: x.destination,
                        },
                    },
                )
            } else {
                None
            },
    )
}

/// The relation entries of the domain-to-host rows of workspace `w`.
pub open spec fn spec_domain_host_entries(rows: Seq<DomainHostRelation>, w: u128) -> Seq<
    RelationEntry,
> {
    rows.filter_map(
        |x: DomainHostRelation|
            if x.workspace == w {
                Some(
                    RelationEntry {
                        uuid: x.uuid,
                        relation: AggregatedRelation::DomainHost {
                            domain: x.domain,
                            host: x.host,
                            is_direct: x.is_direct,
                        },
                    },
                )
            } else {
                None
            },
    )
}

/// The relations collection: domain-to-domain entries first, then
/// domain-to-host entries, each part in row order.
pub open spec fn spec_relations_export(s: WorkspaceSnapshot, w: u128) -> Seq<RelationEntry> {
    spec_domain_domain_entries(s.domain_domain_relations@, w) + spec_domain_host_entries(
        s.domain_host_relations@,
        w,
    )
}

/// The whole exported graph of workspace `w`: what [`aggregate_workspace`]
/// returns, as a mathematical value.
pub open spec fn spec_export(s: WorkspaceSnapshot, w: u128) -> WorkspaceView {
    WorkspaceView {
        hosts: spec_hosts_export(s.hosts@, s, w),
        ports: spec_ports_export(s.ports@, s, w),
        services: spec_services_export(s.services@, s, w),
        domains: spec_domains_export(s.domains@, s, w),
        relations: spec_relations_export(s, w),
    }
}

/// Whether one credential row authorizes an export of workspace `w` at time
/// `now`: the stored string matches, the credential is bound to exactly this
/// workspace, and it expires strictly after `now`.
pub open spec fn spec_token_matches(
    t: WorkspaceAccessToken,
    token: Seq<char>,
    w: u128,
    now: i64,
) -> bool {
    t.token@ == token && t.workspace == w && t.expires_at > now
}

/// Whether some credential row authorizes an export of workspace `w` at time
/// `now`.
pub open spec fn spec_token_authorizes(
    tokens: Seq<WorkspaceAccessToken>,
    token: Seq<char>,
    w: u128,
    now: i64,
) -> bool {
    exists|i: int|
        0 <= i < tokens.len() && #[trigger] spec_token_matches(tokens[i], token, w, now)
}

// ---------------------------------------------------------------------------
// The executable engine
// ---------------------------------------------------------------------------

/// The exported port number: the stored 16-bit signed quantity reinterpreted
/// bit-for-bit as unsigned, so stored `-1` exports as `65535` and stored
/// `-32768` as `32768`.
pub fn export_port_number(stored: i16) -> (r: u16)
    ensures
        r == spec_port_number(stored),
        r as int == if stored >= 0 {
            stored as int
        } else {
            stored as int + 0x10000
        },
{
    if stored >= 0 {
        stored as u16
    } else {
        ((stored as i32) + 0x10000) as u16
    }
}

/// Whether a credential row matching `token`, bound to `workspace` and not
/// yet expired at `now` exists.
pub fn check_access(
    tokens: &Vec<WorkspaceAccessToken>,
    token: &String,
    workspace: u128,
    now: i64,
) -> (r: bool)
    ensures
        r == spec_token_authorizes(tokens@, token@, workspace, now),
{
    let mut i: usize = 0;
    while i < tokens.len()
        invariant
            i <= tokens.len(),
            forall|j: int|
                0 <= j < i as int ==> !spec_token_matches(#[trigger] tokens@[j], token@, workspace, now),
        decreases tokens.len() - i,
    {
        let t = &tokens[i];
        if t.token == *token && t.workspace == workspace && t.expires_at > now {
            assert(spec_token_matches(tokens@[i as int], token@, workspace, now));
            return true;
        }
        i += 1;
    }
    false
}

fn collect_host_ports(ports: &Vec<Port>, w: u128, host: u128) -> (r: Vec<u128>)
    ensures
        r@ == spec_host_ports(ports@, w, host),
{
    let mut r: Vec<u128> = Vec::new();
    let mut i: usize = 0;
    while i < ports.len()
        invariant
            i <= ports.len(),
            r@ == spec_host_ports(ports@.take(i as int), w, host),
        decreases ports.len() - i,
    {
        if ports[i].workspace == w && ports[i].host == host {
            r.push(ports[i].uuid);
        }
        proof {
            broadcast use Seq::lemma_filter_map_take_succ;

            assert(r@ =~= spec_host_ports(ports@.take(i as int + 1), w, host));
        }
        i += 1;
    }
    proof {
        assert(ports@.take(ports@.len() as int) =~= ports@);
    }
    r
}

fn collect_host_services(services: &Vec<Service>, w: u128, host: u128) -> (r: Vec<u128>)
    ensures
        r@ == spec_host_services(services@, w, host),
{
    let mut r: Vec<u128> = Vec::new();
    let mut i: usize = 0;
    while i < services.len()
        invariant
            i <= services.len(),
            r@ == spec_host_services(services@.take(i as int), w, host),
        decreases services.len() - i,
    {
        if services[i].workspace == w && services[i].host == host {
            r.push(services[i].uuid);
        }
        proof {
            broadcast use Seq::lemma_filter_map_take_succ;

            assert(r@ =~= spec_host_services(services@.take(i as int + 1), w, host));
        }
        i += 1;
    }
    proof {
        assert(services@.take(services@.len() as int) =~= services@);
    }
    r
}

fn collect_port_services(services: &Vec<Service>, w: u128, port: u128) -> (r: Vec<u128>)
    ensures
        r@ == spec_port_services(services@, w, port),
{
    let mut r: Vec<u128> = Vec::new();
    let mut i: usize = 0;
    while i < services.len()
        invariant
            i <= services.len(),
            r@ == spec_port_services(services@.take(i as int), w, port),
        decreases services.len() - i,
    {
        let matches_port = match services[i].port {
            Some(p) => p == port,
            None => false,
        };
        if services[i].workspace == w && matches_port {
            r.push(services[i].uuid);
        }
        proof {
            broadcast use Seq::lemma_filter_map_take_succ;

            assert(r@ =~= spec_port_services(services@.take(i as int + 1), w, port));
        }
        i += 1;
    }
    proof {
        assert(services@.take(services@.len() as int) =~= services@);
    }
    r
}

fn collect_host_domain_links(rels: &Vec<DomainHostRelation>, w: u128, host: u128) -> (r: Vec<
    u128,
>)
    ensures
        r@ == spec_host_domain_links(rels@, w, host),
{
    let mut r: Vec<u128> = Vec::new();
    let mut i: usize = 0;
    while i < rels.len()
        invariant
            i <= rels.len(),
            r@ == spec_host_domain_links(rels@.take(i as int), w, host),
        decreases rels.len() - i,
    {
        if rels[i].workspace == w && rels[i].host == host {
            r.push(rels[i].uuid);
        }
        proof {
            broadcast use Seq::lemma_filter_map_take_succ;

            assert(r@ =~= spec_host_domain_links(rels@.take(i as int + 1), w, host));
        }
        i += 1;
    }
    proof {
        assert(rels@.take(rels@.len() as int) =~= rels@);
    }
    r
}

fn collect_domain_host_links(rels: &Vec<DomainHostRelation>, w: u128, domain: u128) -> (r: Vec<
    u128,
>)
    ensures
        r@ == spec_domain_host_links(rels@, w, domain),
{
    let mut r: Vec<u128> = Vec::new();
    let mut i: usize = 0;
    while i < rels.len()
        invariant
            i <= rels.len(),
            r@ == spec_domain_host_links(rels@.take(i as int), w, domain),
        decreases rels.len() - i,
    {
        if rels[i].workspace == w && rels[i].domain == domain {
            r.push(rels[i].uuid);
        }
        proof {
            broadcast use Seq::lemma_filter_map_take_succ;

            assert(r@ =~= spec_domain_host_links(rels@.take(i as int + 1), w, domain));
        }
        i += 1;
    }
    proof {
        assert(rels@.take(rels@.len() as int) =~= rels@);
    }
    r
}

fn collect_domain_sources(rels: &Vec<DomainDomainRelation>, w: u128, domain: u128) -> (r: Vec<
    u128,
>)
    ensures
        r@ == spec_domain_sources(rels@, w, domain),
{
    let mut r: Vec<u128> = Vec::new();
    let mut i: usize = 0;
    while i < rels.len()
        invariant
            i <= rels.len(),
            r@ == spec_domain_sources(rels@.take(i as int), w, domain),
        decreases rels.len() - i,
    {
        if rels[i].workspace == w && rels[i].destination == domain {
            r.push(rels[i].uuid);
        }
        proof {
            broadcast use Seq::lemma_filter_map_take_succ;

            assert(r@ =~= spec_domain_sources(rels@.take(i as int + 1), w, domain));
        }
        i += 1;
    }
    proof {
        assert(rels@.take(rels@.len() as int) =~= rels@);
    }
    r
}

fn collect_domain_destinations(rels: &Vec<DomainDomainRelation>, w: u128, domain: u128) -> (r:
    Vec<u128>)
    ensures
        r@ == spec_domain_destinations(rels@, w, domain),
{
    let mut r: Vec<u128> = Vec::new();
    let mut i: usize = 0;
    while i < rels.len()
        invariant
            i <= rels.len(),
            r@ == spec_domain_destinations(rels@.take(i as int), w, domain),
        decreases rels.len() - i,
    {
        if rels[i].workspace == w && rels[i].source == domain {
            r.push(rels[i].uuid);
        }
        proof {
            broadcast use Seq::lemma_filter_map_take_succ;

            assert(r@ =~= spec_domain_destinations(rels@.take(i as int + 1), w, domain));
        }
        i += 1;
    }
    proof {
        assert(rels@.take(rels@.len() as int) =~= rels@);
    }
    r
}

fn collect_tag_names(tags: &Vec<TagAttachment>, owner: u128) -> (r: Vec<String>)
    ensures
        r@ == spec_tag_names(tags@, owner),
{
    let mut r: Vec<String> = Vec::new();
    let mut i: usize = 0;
    while i < tags.len()
        invariant
            i <= tags.len(),
            r@ == spec_tag_names(tags@.take(i as int), owner),
        decreases tags.len() - i,
    {
        if tags[i].owner == owner {
            r.push(tags[i].name.clone());
        }
        proof {
            broadcast use Seq::lemma_filter_map_take_succ;

            assert(r@ =~= spec_tag_names(tags@.take(i as int + 1), owner));
        }
        i += 1;
    }
    proof {
        assert(tags@.take(tags@.len() as int) =~= tags@);
    }
    r
}

fn collect_tags(global: &Vec<TagAttachment>, local: &Vec<TagAttachment>, owner: u128) -> (t:
    AggregatedTags)
    ensures
        t@ == spec_entity_tags(global@, local@, owner),
{
    AggregatedTags {
        global_tags: collect_tag_names(global, owner),
        local_tags: collect_tag_names(local, owner),
    }
}

fn build_host(s: &WorkspaceSnapshot, w: u128, r: &Host) -> (h: AggregatedHost)
    ensures
        h@ == spec_host_export(*s, w, *r),
{
    AggregatedHost {
        uuid: r.uuid,
        ip_addr: r.ip_addr,
        os_type: r.os_type,
        certainty: r.certainty,
        response_time: r.response_time,
        ports: collect_host_ports(&s.ports, w, r.uuid),
        services: collect_host_services(&s.services, w, r.uuid),
        domains: collect_host_domain_links(&s.domain_host_relations, w, r.uuid),
        comment: r.comment.clone(),
        tags: collect_tags(&s.host_global_tags, &s.host_workspace_tags, r.uuid),
        created_at: r.created_at,
    }
}

fn build_port(s: &WorkspaceSnapshot, w: u128, r: &Port) -> (p: AggregatedPort)
    ensures
        p@ == spec_port_export(*s, w, *r),
{
    AggregatedPort {
        uuid: r.uuid,
        port: export_port_number(r.port),
        protocol: r.protocol,
        host: r.host,
        services: collect_port_services(&s.services, w, r.uuid),
        certainty: r.certainty,
        comment: r.comment.clone(),
        tags: collect_tags(&s.port_global_tags, &s.port_workspace_tags, r.uuid),
        created_at: r.created_at,
    }
}

fn build_service(s: &WorkspaceSnapshot, w: u128, r: &Service) -> (x: AggregatedService)
    ensures
        x@ == spec_service_export(*s, w, *r),
{
    AggregatedService {
        uuid: r.uuid,
        name: r.name.clone(),
        version: crate::models::clone_opt_string(&r.version),
        host: r.host,
        port: r.port,
        comment: r.comment.clone(),
        certainty: r.certainty,
        tags: collect_tags(&s.service_global_tags, &s.service_workspace_tags, r.uuid),
        created_at: r.created_at,
    }
}

fn build_domain(s: &WorkspaceSnapshot, w: u128, r: &Domain) -> (d: AggregatedDomain)
    ensures
        d@ == spec_domain_export(*s, w, *r),
{
    AggregatedDomain {
        uuid: r.uuid,
        domain: r.domain.clone(),
        hosts: collect_domain_host_links(&s.domain_host_relations, w, r.uuid),
        sources: collect_domain_sources(&s.domain_domain_relations, w, r.uuid),
        destinations: collect_domain_destinations(&s.domain_domain_relations, w, r.uuid),
        certainty: r.certainty,
        comment: r.comment.clone(),
        tags: collect_tags(&s.domain_global_tags, &s.domain_workspace_tags, r.uuid),
        created_at: r.created_at,
    }
}

fn build_hosts(s: &WorkspaceSnapshot, w: u128) -> (out: Vec<AggregatedHost>)
    ensures
        out.deep_view() == spec_hosts_export(s.hosts@, *s, w),
{
    let mut out: Vec<AggregatedHost> = Vec::new();
    let mut i: usize = 0;
    while i < s.hosts.len()
        invariant
            i <= s.hosts.len(),
            out.deep_view() == spec_hosts_export(s.hosts@.take(i as int), *s, w),
        decreases s.hosts.len() - i,
    {
        if s.hosts[i].workspace == w {
            let h = build_host(s, w, &s.hosts[i]);
            out.push(h);
        }
        proof {
            broadcast use Seq::lemma_filter_map_take_succ;

            assert(out.deep_view() =~= spec_hosts_export(s.hosts@.take(i as int + 1), *s, w));
        }
        i += 1;
    }
    proof {
        assert(s.hosts@.take(s.hosts@.len() as int) =~= s.hosts@);
    }
    out
}

fn build_ports(s: &WorkspaceSnapshot, w: u128) -> (out: Vec<AggregatedPort>)
    ensures
        out.deep_view() == spec_ports_export(s.ports@, *s, w),
{
    let mut out: Vec<AggregatedPort> = Vec::new();
    let mut i: usize = 0;
    while i < s.ports.len()
        invariant
            i <= s.ports.len(),
            out.deep_view() == spec_ports_export(s.ports@.take(i as int), *s, w),
        decreases s.ports.len() - i,
    {
        if s.ports[i].workspace == w {
            let p = build_port(s, w, &s.ports[i]);
            out.push(p);
        }
        proof {
            broadcast use Seq::lemma_filter_map_take_succ;

            assert(out.deep_view() =~= spec_ports_export(s.ports@.take(i as int + 1), *s, w));
        }
        i += 1;
    }
    proof {
        assert(s.ports@.take(s.ports@.len() as int) =~= s.ports@);
    }
    out
}

fn build_services(s: &WorkspaceSnapshot, w: u128) -> (out: Vec<AggregatedService>)
    ensures
        out.deep_view() == spec_services_export(s.services@, *s, w),
{
    let mut out: Vec<AggregatedService> = Vec::new();
    let mut i: usize = 0;
    while i < s.services.len()
        invariant
            i <= s.services.len(),
            out.deep_view() == spec_services_export(s.services@.take(i as int), *s, w),
        decreases s.services.len() - i,
    {
        if s.services[i].workspace == w {
            let x = build_service(s, w, &s.services[i]);
            out.push(x);
        }
        proof {
            broadcast use Seq::lemma_filter_map_take_succ;

            assert(out.deep_view() =~= spec_services_export(
                s.services@.take(i as int + 1),
                *s,
                w,
            ));
        }
        i += 1;
    }
    proof {
        assert(s.services@.take(s.services@.len() as int) =~= s.services@);
    }
    out
}

fn build_domains(s: &WorkspaceSnapshot, w: u128) -> (out: Vec<AggregatedDomain>)
    ensures
        out.deep_view() == spec_domains_export(s.domains@, *s, w),
{
    let mut out: Vec<AggregatedDomain> = Vec::new();
    let mut i: usize = 0;
    while i < s.domains.len()
        invariant
            i <= s.domains.len(),
            out.deep_view() == spec_domains_export(s.domains@.take(i as int), *s, w),
        decreases s.domains.len() - i,
    {
        if s.domains[i].workspace == w {
            let d = build_domain(s, w, &s.domains[i]);
            out.push(d);
        }
        proof {
            broadcast use Seq::lemma_filter_map_take_succ;

            assert(out.deep_view() =~= spec_domains_export(s.domains@.take(i as int + 1), *s, w));
        }
        i += 1;
    }
    proof {
        assert(s.domains@.take(s.domains@.len() as int) =~= s.domains@);
    }
    out
}

fn build_relations(s: &WorkspaceSnapshot, w: u128) -> (out: Vec<RelationEntry>)
    ensures
        out@ == spec_relations_export(*s, w),
{
    let mut out: Vec<RelationEntry> = Vec::new();
    let mut i: usize = 0;
    while i < s.domain_domain_relations.len()
        invariant
            i <= s.domain_domain_relations.len(),
            out@ == spec_domain_domain_entries(s.domain_domain_relations@.take(i as int), w),
        decreases s.domain_domain_relations.len() - i,
    {
        let x = s.domain_domain_relations[i];
        if x.workspace == w {
            out.push(
                RelationEntry {
                    uuid: x.uuid,
                    relation: AggregatedRelation::DomainDomain {
                        source: x.source,
                        destination: x.destination,
                    },
                },
            );
        }
        proof {
            broadcast use Seq::lemma_filter_map_take_succ;

            assert(out@ =~= spec_domain_domain_entries(
                s.domain_domain_relations@.take(i as int + 1),
                w,
            ));
        }
        i += 1;
    }
    proof {
        assert(s.domain_domain_relations@.take(s.domain_domain_relations@.len() as int)
            =~= s.domain_domain_relations@);
    }
    let ghost dd = spec_domain_domain_entries(s.domain_domain_relations@, w);
    let mut i: usize = 0;
    while i < s.domain_host_relations.len()
        invariant
            i <= s.domain_host_relations.len(),
            out@ == dd + spec_domain_host_entries(s.domain_host_relations@.take(i as int), w),
            dd == spec_domain_domain_entries(s.domain_domain_relations@, w),
        decreases s.domain_host_relations.len() - i,
    {
        let x = s.domain_host_relations[i];
        if x.workspace == w {
            out.push(
                RelationEntry {
                    uuid: x.uuid,
                    relation: AggregatedRelation::DomainHost {
                        domain: x.domain,
                        host: x.host,
                        is_direct: x.is_direct,
                    },
                },
            );
        }
        proof {
            broadcast use Seq::lemma_filter_map_take_succ;

            assert(out@ =~= dd + spec_domain_host_entries(
                s.domain_host_relations@.take(i as int + 1),
                w,
            ));
        }
        i += 1;
    }
    proof {
        assert(s.domain_host_relations@.take(s.domain_host_relations@.len() as int)
            =~= s.domain_host_relations@);
    }
    out
}

/// Aggregate all entities, relations and tags of workspace `workspace` into
/// one cross-linked graph: exactly the graph [`spec_export`] describes.
///
/// This is the ungated engine; [`export_workspace`] wraps it behind the
/// credential check.
pub fn aggregate_workspace(s: &WorkspaceSnapshot, workspace: u128) -> (out: AggregatedWorkspace)
    ensures
        out@ == spec_export(*s, workspace),
{
    let out = AggregatedWorkspace {
        hosts: build_hosts(s, workspace),
        ports: build_ports(s, workspace),
        services: build_services(s, workspace),
        domains: build_domains(s, workspace),
        relations: build_relations(s, workspace),
    };
    proof {
        assert(out@ =~= spec_export(*s, workspace));
    }
    out
}

/// Export workspace `workspace` from the snapshot `s`, gated by the access
/// credential `token` checked at time `now`.
///
/// Succeeds if and only if a credential row matches the string, is bound to
/// exactly this workspace and expires strictly after `now`; otherwise nothing
/// is exported and the caller gets [`ExportError::Authorization`].
pub fn export_workspace(
    s: &WorkspaceSnapshot,
    token: &String,
    workspace: u128,
    now: i64,
) -> (r: Result<AggregatedWorkspace, ExportError>)
    ensures
        r is Ok == spec_token_authorizes(s.access_tokens@, token@, workspace, now),
        r matches Ok(out) ==> out@ == spec_export(*s, workspace),
        r matches Err(e) ==> e == ExportError::Authorization,
{
    if !check_access(&s.access_tokens, token, workspace, now) {
        return Err(ExportError::Authorization);
    }
    Ok(aggregate_workspace(s, workspace))
}

/// Relies on `chrono::Utc::now` and `chrono::DateTime::timestamp_millis`:
/// reads the system clock as milliseconds since the Unix epoch.  Nothing is
/// promised of the value; it depends on the clock alone.
#[verifier::external_body]
fn current_time_millis() -> (now: i64) {
    chrono::Utc::now().timestamp_millis()
}

/// Export workspace `workspace` from the snapshot `s`, gated by the access
/// credential `token` checked against the system clock.
///
/// Whatever time the clock returned: a produced graph is exactly
/// [`spec_export`] of the snapshot, and it is produced only when the
/// credential authorized this workspace at that time; a failure is always
/// [`ExportError::Authorization`].
pub fn export_workspace_now(s: &WorkspaceSnapshot, token: &String, workspace: u128) -> (r: Result<
    AggregatedWorkspace,
    ExportError,
>)
    ensures
        r matches Ok(out) ==> out@ == spec_export(*s, workspace) && (exists|now: i64|
            spec_token_authorizes(s.access_tokens@, token@, workspace, now)),
        r matches Err(e) ==> e == ExportError::Authorization,
{
    let now = current_time_millis();
    export_workspace(s, token, workspace, now)
}

// ---------------------------------------------------------------------------
// Keyed lookup
// ---------------------------------------------------------------------------

/// Whether some exported host record carries the identity `id`.
pub open spec fn spec_hosts_have_id(hs: Seq<HostView>, id: u128) -> bool {
    exists|k: int| 0 <= k < hs.len() && (#[trigger] hs[k]).uuid == id
}

/// Whether some exported port record carries the identity `id`.
pub open spec fn spec_ports_have_id(ps: Seq<PortView>, id: u128) -> bool {
    exists|k: int| 0 <= k < ps.len() && (#[trigger] ps[k]).uuid == id
}

/// Whether some exported service record carries the identity `id`.
pub open spec fn spec_services_have_id(xs: Seq<ServiceView>, id: u128) -> bool {
    exists|k: int| 0 <= k < xs.len() && (#[trigger] xs[k]).uuid == id
}

/// Whether some exported domain record carries the identity `id`.
pub open spec fn spec_domains_have_id(ds: Seq<DomainView>, id: u128) -> bool {
    exists|k: int| 0 <= k < ds.len() && (#[trigger] ds[k]).uuid == id
}

/// Whether some relation entry carries the identity `id`.
pub open spec fn spec_relations_have_id(es: Seq<RelationEntry>, id: u128) -> bool {
    exists|k: int| 0 <= k < es.len() && (#[trigger] es[k]).uuid == id
}

impl AggregatedWorkspace {
    /// The host record keyed by `uuid`, if the export holds one.
    pub fn get_host(&self, uuid: u128) -> (r: Option<&AggregatedHost>)
        ensures
            (r is Some) == spec_hosts_have_id(self@.hosts, uuid),
            r matches Some(h) ==> h.uuid == uuid && (exists|k: int|
                0 <= k < self.hosts@.len() && #[trigger] self.hosts@[k] == *h),
    {
        let mut i: usize = 0;
        while i < self.hosts.len()
            invariant
                i <= self.hosts.len(),
                forall|j: int| 0 <= j < i as int ==> (#[trigger] self@.hosts[j]).uuid != uuid,
            decreases self.hosts.len() - i,
        {
            if self.hosts[i].uuid == uuid {
                assert(self@.hosts[i as int].uuid == uuid);
                return Some(&self.hosts[i]);
            }
            i += 1;
        }
        None
    }

    /// The port record keyed by `uuid`, if the export holds one.
    pub fn get_port(&self, uuid: u128) -> (r: Option<&AggregatedPort>)
        ensures
            (r is Some) == spec_ports_have_id(self@.ports, uuid),
            r matches Some(p) ==> p.uuid == uuid && (exists|k: int|
                0 <= k < self.ports@.len() && #[trigger] self.ports@[k] == *p),
    {
        let mut i: usize = 0;
        while i < self.ports.len()
            invariant
                i <= self.ports.len(),
                forall|j: int| 0 <= j < i as int ==> (#[trigger] self@.ports[j]).uuid != uuid,
            decreases self.ports.len() - i,
        {
            if self.ports[i].uuid == uuid {
                assert(self@.ports[i as int].uuid == uuid);
                return Some(&self.ports[i]);
            }
            i += 1;
        }
        None
    }

    /// The service record keyed by `uuid`, if the export holds one.
    pub fn get_service(&self, uuid: u128) -> (r: Option<&AggregatedService>)
        ensures
            (r is Some) == spec_services_have_id(self@.services, uuid),
            r matches Some(x) ==> x.uuid == uuid && (exists|k: int|
                0 <= k < self.services@.len() && #[trigger] self.services@[k] == *x),
    {
        let mut i: usize = 0;
        while i < self.services.len()
            invariant
                i <= self.services.len(),
                forall|j: int| 0 <= j < i as int ==> (#[trigger] self@.services[j]).uuid != uuid,
            decreases self.services.len() - i,
        {
            if self.services[i].uuid == uuid {
                assert(self@.services[i as int].uuid == uuid);
                return Some(&self.services[i]);
            }
            i += 1;
        }
        None
    }

    /// The domain record keyed by `uuid`, if the export holds one.
    pub fn get_domain(&self, uuid: u128) -> (r: Option<&AggregatedDomain>)
        ensures
            (r is Some) == spec_domains_have_id(self@.domains, uuid),
            r matches Some(d) ==> d.uuid == uuid && (exists|k: int|
                0 <= k < self.domains@.len() && #[trigger] self.domains@[k] == *d),
    {
        let mut i: usize = 0;
        while i < self.domains.len()
            invariant
                i <= self.domains.len(),
                forall|j: int| 0 <= j < i as int ==> (#[trigger] self@.domains[j]).uuid != uuid,
            decreases self.domains.len() - i,
        {
            if self.domains[i].uuid == uuid {
                assert(self@.domains[i as int].uuid == uuid);
                return Some(&self.domains[i]);
            }
            i += 1;
        }
        None
    }

    /// The relation keyed by `uuid`, if the export holds one.
    pub fn get_relation(&self, uuid: u128) -> (r: Option<&RelationEntry>)
        ensures
            (r is Some) == spec_relations_have_id(self.relations@, uuid),
            r matches Some(e) ==> e.uuid == uuid && self.relations@.contains(*e),
    {
        let mut i: usize = 0;
        while i < self.relations.len()
            invariant
                i <= self.relations.len(),
                forall|j: int| 0 <= j < i as int ==> (#[trigger] self.relations@[j]).uuid != uuid,
            decreases self.relations.len() - i,
        {
            if self.relations[i].uuid == uuid {
                assert(self.relations@[i as int].uuid == uuid);
                return Some(&self.relations[i]);
            }
            i += 1;
        }
        None
    }
}

} // verus!
