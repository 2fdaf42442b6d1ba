//! Laws of the export: what holds of every graph the engine produces.
//!
//! Each public proof function states one guarantee of [`spec_export`], the
//! model that [`crate::export::aggregate_workspace`] provably returns.

use vstd::prelude::*;

use crate::export::{
    spec_domain_domain_entries, spec_domain_export, spec_domain_host_entries, spec_domains_have_id,
    spec_export, spec_host_export, spec_hosts_have_id, spec_port_export, spec_ports_have_id,
    spec_service_export, spec_services_have_id, spec_tag_names, AggregatedRelation, RelationEntry,
    WorkspaceSnapshot, WorkspaceView,
};
use crate::models::{Domain, Host, Port, Service, TagAttachment};
use crate::seq_lemmas::{lemma_filter_map_elem, lemma_filter_map_empty, lemma_filter_map_member};

verus! {

// ---------------------------------------------------------------------------
// Identity helpers
// ---------------------------------------------------------------------------

/// The identities of the host rows, in row order.
pub open spec fn spec_host_row_ids(rows: Seq<Host>) -> Seq<u128> {
    rows.map_values(|r: Host| r.uuid)
}

/// The identities of the port rows, in row order.
pub open spec fn spec_port_row_ids(rows: Seq<Port>) -> Seq<u128> {
    rows.map_values(|r: Port| r.uuid)
}

/// The identities of the service rows, in row order.
pub open spec fn spec_service_row_ids(rows: Seq<Service>) -> Seq<u128> {
    rows.map_values(|r: Service| r.uuid)
}

/// The identities of the domain rows, in row order.
pub open spec fn spec_domain_row_ids(rows: Seq<Domain>) -> Seq<u128> {
    rows.map_values(|r: Domain| r.uuid)
}

/// All entity identities of the snapshot: hosts, then ports, then services,
/// then domains.
pub open spec fn spec_entity_ids(s: WorkspaceSnapshot) -> Seq<u128> {
    spec_host_row_ids(s.hosts@) + spec_port_row_ids(s.ports@) + spec_service_row_ids(s.services@)
        + spec_domain_row_ids(s.domains@)
}

/// The store's invariant: every entity's identity is globally unique.
pub open spec fn spec_entity_ids_unique(s: WorkspaceSnapshot) -> bool {
    spec_entity_ids(s).no_duplicates()
}

/// Whether a host row with identity `id` belongs to workspace `w`.
pub open spec fn spec_host_rows_have(rows: Seq<Host>, w: u128, id: u128) -> bool {
    exists|j: int| 0 <= j < rows.len() && (#[trigger] rows[j]).workspace == w && rows[j].uuid == id
}

/// Whether a port row with identity `id` belongs to workspace `w`.
pub open spec fn spec_port_rows_have(rows: Seq<Port>, w: u128, id: u128) -> bool {
    exists|j: int| 0 <= j < rows.len() && (#[trigger] rows[j]).workspace == w && rows[j].uuid == id
}

/// Whether a service row with identity `id` belongs to workspace `w`.
pub open spec fn spec_service_rows_have(rows: Seq<Service>, w: u128, id: u128) -> bool {
    exists|j: int| 0 <= j < rows.len() && (#[trigger] rows[j]).workspace == w && rows[j].uuid == id
}

/// Whether a domain row with identity `id` belongs to workspace `w`.
pub open spec fn spec_domain_rows_have(rows: Seq<Domain>, w: u128, id: u128) -> bool {
    exists|j: int| 0 <= j < rows.len() && (#[trigger] rows[j]).workspace == w && rows[j].uuid == id
}

// ---------------------------------------------------------------------------
// Membership: an identity is exported in a kind's collection if and only if
// a row of that kind with that identity belongs to the requested workspace
// ---------------------------------------------------------------------------

/// A host identity stands in the export exactly when a host row with that
/// identity belongs to the workspace.
pub proof fn lemma_hosts_membership(s: WorkspaceSnapshot, w: u128, id: u128)
    ensures
        spec_hosts_have_id(spec_export(s, w).hosts, id) == spec_host_rows_have(s.hosts@, w, id),
{
    broadcast use lemma_filter_map_elem, lemma_filter_map_member;

    let out = spec_export(s, w).hosts;
    if spec_hosts_have_id(out, id) {
        let k = choose|k: int| 0 <= k < out.len() && (#[trigger] out[k]).uuid == id;
        assert(0 <= k < out.len() && out[k].uuid == id);
        assert(spec_host_rows_have(s.hosts@, w, id));
    }
    if spec_host_rows_have(s.hosts@, w, id) {
        let j = choose|j: int|
            0 <= j < s.hosts@.len() && (#[trigger] s.hosts@[j]).workspace == w && s.hosts@[j].uuid
                == id;
        assert(out.contains(spec_host_export(s, w, s.hosts@[j])));
        assert(spec_hosts_have_id(out, id));
    }
}

/// A port identity stands in the export exactly when a port row with that
/// identity belongs to the workspace.
pub proof fn lemma_ports_membership(s: WorkspaceSnapshot, w: u128, id: u128)
    ensures
        spec_ports_have_id(spec_export(s, w).ports, id) == spec_port_rows_have(s.ports@, w, id),
{
    broadcast use lemma_filter_map_elem, lemma_filter_map_member;

    let out = spec_export(s, w).ports;
    if spec_ports_have_id(out, id) {
        let k = choose|k: int| 0 <= k < out.len() && (#[trigger] out[k]).uuid == id;
        assert(0 <= k < out.len() && out[k].uuid == id);
        assert(spec_port_rows_have(s.ports@, w, id));
    }
    if spec_port_rows_have(s.ports@, w, id) {
        let j = choose|j: int|
            0 <= j < s.ports@.len() && (#[trigger] s.ports@[j]).workspace == w && s.ports@[j].uuid
                == id;
        assert(out.contains(spec_port_export(s, w, s.ports@[j])));
        assert(spec_ports_have_id(out, id));
    }
}

/// A service identity stands in the export exactly when a service row with
/// that identity belongs to the workspace.
pub proof fn lemma_services_membership(s: WorkspaceSnapshot, w: u128, id: u128)
    ensures
        spec_services_have_id(spec_export(s, w).services, id) == spec_service_rows_have(
            s.services@,
            w,
            id,
        ),
{
    broadcast use lemma_filter_map_elem, lemma_filter_map_member;

    let out = spec_export(s, w).services;
    if spec_services_have_id(out, id) {
        let k = choose|k: int| 0 <= k < out.len() && (#[trigger] out[k]).uuid == id;
        assert(0 <= k < out.len() && out[k].uuid == id);
        assert(spec_service_rows_have(s.services@, w, id));
    }
    if spec_service_rows_have(s.services@, w, id) {
        let j = choose|j: int|
            0 <= j < s.services@.len() && (#[trigger] s.services@[j]).workspace == w
                && s.services@[j].uuid == id;
        assert(out.contains(spec_service_export(s, w, s.services@[j])));
        assert(spec_services_have_id(out, id));
    }
}

/// A domain identity stands in the export exactly when a domain row with
/// that identity belongs to the workspace.
pub proof fn lemma_domains_membership(s: WorkspaceSnapshot, w: u128, id: u128)
    ensures
        spec_domains_have_id(spec_export(s, w).domains, id) == spec_domain_rows_have(
            s.domains@,
            w,
            id,
        ),
{
    broadcast use lemma_filter_map_elem, lemma_filter_map_member;

    let out = spec_export(s, w).domains;
    if spec_domains_have_id(out, id) {
        let k = choose|k: int| 0 <= k < out.len() && (#[trigger] out[k]).uuid == id;
        assert(0 <= k < out.len() && out[k].uuid == id);
        assert(spec_domain_rows_have(s.domains@, w, id));
    }
    if spec_domain_rows_have(s.domains@, w, id) {
        let j = choose|j: int|
            0 <= j < s.domains@.len() && (#[trigger] s.domains@[j]).workspace == w
                && s.domains@[j].uuid == id;
        assert(out.contains(spec_domain_export(s, w, s.domains@[j])));
        assert(spec_domains_have_id(out, id));
    }
}

// ---------------------------------------------------------------------------
// Keyed exactly once: distinct rows keep distinct keys in the export
// ---------------------------------------------------------------------------

/// Host rows with pairwise distinct identities export records with pairwise
/// distinct identities.
pub proof fn lemma_hosts_export_ids_unique(rows: Seq<Host>, s: WorkspaceSnapshot, w: u128)
    requires
        forall|a: int, b: int|
            0 <= a < b < rows.len() ==> (#[trigger] rows[a]).uuid != (#[trigger] rows[b]).uuid,
    ensures
        forall|a: int, b: int|
            0 <= a < b < crate::export::spec_hosts_export(rows, s, w).len() ==> (
            #[trigger] crate::export::spec_hosts_export(rows, s, w)[a]).uuid != (
            #[trigger] crate::export::spec_hosts_export(rows, s, w)[b]).uuid,
    decreases rows.len(),
{
    broadcast use lemma_filter_map_elem;

    let out = crate::export::spec_hosts_export(rows, s, w);
    if rows.len() > 0 {
        let rest = rows.drop_last();
        let rest_out = crate::export::spec_hosts_export(rest, s, w);
        let last = rows.last();
        assert(forall|j: int| 0 <= j < rest.len() ==> #[trigger] rest[j] == rows[j]);
        lemma_hosts_export_ids_unique(rest, s, w);
        assert(last == rows[rows.len() - 1]);
        if last.workspace == w {
            assert(out =~= rest_out + seq![spec_host_export(s, w, last)]);
            assert forall|a: int, b: int|
                0 <= a < b < out.len() implies (#[trigger] out[a]).uuid != (
            #[trigger] out[b]).uuid by {
                if b < out.len() - 1 {
                    assert(out[a] == rest_out[a] && out[b] == rest_out[b]);
                } else {
                    assert(out[a] == rest_out[a]);
                    assert(out[b] == spec_host_export(s, w, last));
                    assert(0 <= a < rest_out.len());
                }
            }
        } else {
            assert(out =~= rest_out);
        }
    }
}

/// Port rows with pairwise distinct identities export records with pairwise
/// distinct identities.
pub proof fn lemma_ports_export_ids_unique(rows: Seq<Port>, s: WorkspaceSnapshot, w: u128)
    requires
        forall|a: int, b: int|
            0 <= a < b < rows.len() ==> (#[trigger] rows[a]).uuid != (#[trigger] rows[b]).uuid,
    ensures
        forall|a: int, b: int|
            0 <= a < b < crate::export::spec_ports_export(rows, s, w).len() ==> (
            #[trigger] crate::export::spec_ports_export(rows, s, w)[a]).uuid != (
            #[trigger] crate::export::spec_ports_export(rows, s, w)[b]).uuid,
    decreases rows.len(),
{
    broadcast use lemma_filter_map_elem;

    let out = crate::export::spec_ports_export(rows, s, w);
    if rows.len() > 0 {
        let rest = rows.drop_last();
        let rest_out = crate::export::spec_ports_export(rest, s, w);
        let last = rows.last();
        assert(forall|j: int| 0 <= j < rest.len() ==> #[trigger] rest[j] == rows[j]);
        lemma_ports_export_ids_unique(rest, s, w);
        assert(last == rows[rows.len() - 1]);
        if last.workspace == w {
            assert(out =~= rest_out + seq![spec_port_export(s, w, last)]);
            assert forall|a: int, b: int|
                0 <= a < b < out.len() implies (#[trigger] out[a]).uuid != (
            #[trigger] out[b]).uuid by {
                if b < out.len() - 1 {
                    assert(out[a] == rest_out[a] && out[b] == rest_out[b]);
                } else {
                    assert(out[a] == rest_out[a]);
                    assert(out[b] == spec_port_export(s, w, last));
                    assert(0 <= a < rest_out.len());
                }
            }
        } else {
            assert(out =~= rest_out);
        }
    }
}

/// Service rows with pairwise distinct identities export records with
/// pairwise distinct identities.
pub proof fn lemma_services_export_ids_unique(rows: Seq<Service>, s: WorkspaceSnapshot, w: u128)
    requires
        forall|a: int, b: int|
            0 <= a < b < rows.len() ==> (#[trigger] rows[a]).uuid != (#[trigger] rows[b]).uuid,
    ensures
        forall|a: int, b: int|
            0 <= a < b < crate::export::spec_services_export(rows, s, w).len() ==> (
            #[trigger] crate::export::spec_services_export(rows, s, w)[a]).uuid != (
            #[trigger] crate::export::spec_services_export(rows, s, w)[b]).uuid,
    decreases rows.len(),
{
    broadcast use lemma_filter_map_elem;

    let out = crate::export::spec_services_export(rows, s, w);
    if rows.len() > 0 {
        let rest = rows.drop_last();
        let rest_out = crate::export::spec_services_export(rest, s, w);
        let last = rows.last();
        assert(forall|j: int| 0 <= j < rest.len() ==> #[trigger] rest[j] == rows[j]);
        lemma_services_export_ids_unique(rest, s, w);
        assert(last == rows[rows.len() - 1]);
        if last.workspace == w {
            assert(out =~= rest_out + seq![spec_service_export(s, w, last)]);
            assert forall|a: int, b: int|
                0 <= a < b < out.len() implies (#[trigger] out[a]).uuid != (
            #[trigger] out[b]).uuid by {
                if b < out.len() - 1 {
                    assert(out[a] == rest_out[a] && out[b] == rest_out[b]);
                } else {
                    assert(out[a] == rest_out[a]);
                    assert(out[b] == spec_service_export(s, w, last));
                    assert(0 <= a < rest_out.len());
                }
            }
        } else {
            assert(out =~= rest_out);
        }
    }
}

/// Domain rows with pairwise distinct identities export records with
/// pairwise distinct identities.
pub proof fn lemma_domains_export_ids_unique(rows: Seq<Domain>, s: WorkspaceSnapshot, w: u128)
    requires
        forall|a: int, b: int|
            0 <= a < b < rows.len() ==> (#[trigger] rows[a]).uuid != (#[trigger] rows[b]).uuid,
    ensures
        forall|a: int, b: int|
            0 <= a < b < crate::export::spec_domains_export(rows, s, w).len() ==> (
            #[trigger] crate::export::spec_domains_export(rows, s, w)[a]).uuid != (
            #[trigger] crate::export::spec_domains_export(rows, s, w)[b]).uuid,
    decreases rows.len(),
{
    broadcast use lemma_filter_map_elem;

    let out = crate::export::spec_domains_export(rows, s, w);
    if rows.len() > 0 {
        let rest = rows.drop_last();
        let rest_out = crate::export::spec_domains_export(rest, s, w);
        let last = rows.last();
        assert(forall|j: int| 0 <= j < rest.len() ==> #[trigger] rest[j] == rows[j]);
        lemma_domains_export_ids_unique(rest, s, w);
        assert(last == rows[rows.len() - 1]);
        if last.workspace == w {
            assert(out =~= rest_out + seq![spec_domain_export(s, w, last)]);
            assert forall|a: int, b: int|
                0 <= a < b < out.len() implies (#[trigger] out[a]).uuid != (
            #[trigger] out[b]).uuid by {
                if b < out.len() - 1 {
                    assert(out[a] == rest_out[a] && out[b] == rest_out[b]);
                } else {
                    assert(out[a] == rest_out[a]);
                    assert(out[b] == spec_domain_export(s, w, last));
                    assert(0 <= a < rest_out.len());
                }
            }
        } else {
            assert(out =~= rest_out);
        }
    }
}

// ---------------------------------------------------------------------------
// The partition law
// ---------------------------------------------------------------------------

/// Under the store's invariant of globally unique entity identities, an
/// identity stands in each entity collection exactly when a row of that kind
/// with that identity belongs to the requested workspace; at most one kind
/// holds it; and inside its collection it keys a single record.  An entity of
/// another workspace never appears.
pub proof fn lemma_entity_partition(s: WorkspaceSnapshot, w: u128, id: u128)
    requires
        spec_entity_ids_unique(s),
    ensures
        ({
            let out = spec_export(s, w);
            &&& spec_hosts_have_id(out.hosts, id) == spec_host_rows_have(s.hosts@, w, id)
            &&& spec_ports_have_id(out.ports, id) == spec_port_rows_have(s.ports@, w, id)
            &&& spec_services_have_id(out.services, id) == spec_service_rows_have(
                s.services@,
                w,
                id,
            )
            &&& spec_domains_have_id(out.domains, id) == spec_domain_rows_have(s.domains@, w, id)
            &&& !(spec_hosts_have_id(out.hosts, id) && spec_ports_have_id(out.ports, id))
            &&& !(spec_hosts_have_id(out.hosts, id) && spec_services_have_id(out.services, id))
            &&& !(spec_hosts_have_id(out.hosts, id) && spec_domains_have_id(out.domains, id))
            &&& !(spec_ports_have_id(out.ports, id) && spec_services_have_id(out.services, id))
            &&& !(spec_ports_have_id(out.ports, id) && spec_domains_have_id(out.domains, id))
            &&& !(spec_services_have_id(out.services, id) && spec_domains_have_id(
                out.domains,
                id,
            ))
            &&& forall|a: int, b: int|
                0 <= a < b < out.hosts.len() ==> (#[trigger] out.hosts[a]).uuid != (
                #[trigger] out.hosts[b]).uuid
            &&& forall|a: int, b: int|
                0 <= a < b < out.ports.len() ==> (#[trigger] out.ports[a]).uuid != (
                #[trigger] out.ports[b]).uuid
            &&& forall|a: int, b: int|
                0 <= a < b < out.services.len() ==> (#[trigger] out.services[a]).uuid != (
                #[trigger] out.services[b]).uuid
            &&& forall|a: int, b: int|
                0 <= a < b < out.domains.len() ==> (#[trigger] out.domains[a]).uuid != (
                #[trigger] out.domains[b]).uuid
        }),
{
    let out = spec_export(s, w);
    let all = spec_entity_ids(s);
    let nh = s.hosts@.len() as int;
    let np = s.ports@.len() as int;
    let ns = s.services@.len() as int;
    let nd = s.domains@.len() as int;
    assert(all.len() == nh + np + ns + nd);
    assert forall|j: int| 0 <= j < nh implies all[j] == (#[trigger] s.hosts@[j]).uuid by {}
    assert forall|j: int| 0 <= j < np implies all[nh + j] == (#[trigger] s.ports@[j]).uuid by {}
    assert forall|j: int| 0 <= j < ns implies all[nh + np + j] == (
    #[trigger] s.services@[j]).uuid by {}
    assert forall|j: int| 0 <= j < nd implies all[nh + np + ns + j] == (
    #[trigger] s.domains@[j]).uuid by {}

    lemma_hosts_membership(s, w, id);
    lemma_ports_membership(s, w, id);
    lemma_services_membership(s, w, id);
    lemma_domains_membership(s, w, id);

    if spec_host_rows_have(s.hosts@, w, id) && spec_port_rows_have(s.ports@, w, id) {
        let j1 = choose|j: int|
            0 <= j < s.hosts@.len() && (#[trigger] s.hosts@[j]).workspace == w && s.hosts@[j].uuid
                == id;
        let j2 = choose|j: int|
            0 <= j < s.ports@.len() && (#[trigger] s.ports@[j]).workspace == w && s.ports@[j].uuid
                == id;
        assert(all[j1] == id && all[nh + j2] == id && j1 != nh + j2);
        assert(false);
    }
    if spec_host_rows_have(s.hosts@, w, id) && spec_service_rows_have(s.services@, w, id) {
        let j1 = choose|j: int|
            0 <= j < s.hosts@.len() && (#[trigger] s.hosts@[j]).workspace == w && s.hosts@[j].uuid
                == id;
        let j2 = choose|j: int|
            0 <= j < s.services@.len() && (#[trigger] s.services@[j]).workspace == w
                && s.services@[j].uuid == id;
        assert(all[j1] == id && all[nh + np + j2] == id && j1 != nh + np + j2);
        assert(false);
    }
    if spec_host_rows_have(s.hosts@, w, id) && spec_domain_rows_have(s.domains@, w, id) {
        let j1 = choose|j: int|
            0 <= j < s.hosts@.len() && (#[trigger] s.hosts@[j]).workspace == w && s.hosts@[j].uuid
                == id;
        let j2 = choose|j: int|
            0 <= j < s.domains@.len() && (#[trigger] s.domains@[j]).workspace == w
                && s.domains@[j].uuid == id;
        assert(all[j1] == id && all[nh + np + ns + j2] == id && j1 != nh + np + ns + j2);
        assert(false);
    }
    if spec_port_rows_have(s.ports@, w, id) && spec_service_rows_have(s.services@, w, id) {
        let j1 = choose|j: int|
            0 <= j < s.ports@.len() && (#[trigger] s.ports@[j]).workspace == w && s.ports@[j].uuid
                == id;
        let j2 = choose|j: int|
            0 <= j < s.services@.len() && (#[trigger] s.services@[j]).workspace == w
                && s.services@[j].uuid == id;
        assert(all[nh + j1] == id && all[nh + np + j2] == id && nh + j1 != nh + np + j2);
        assert(false);
    }
    if spec_port_rows_have(s.ports@, w, id) && spec_domain_rows_have(s.domains@, w, id) {
        let j1 = choose|j: int|
            0 <= j < s.ports@.len() && (#[trigger] s.ports@[j]).workspace == w && s.ports@[j].uuid
                == id;
        let j2 = choose|j: int|
            0 <= j < s.domains@.len() && (#[trigger] s.domains@[j]).workspace == w
                && s.domains@[j].uuid == id;
        assert(all[nh + j1] == id && all[nh + np + ns + j2] == id && nh + j1 != nh + np + ns + j2);
        assert(false);
    }
    if spec_service_rows_have(s.services@, w, id) && spec_domain_rows_have(s.domains@, w, id) {
        let j1 = choose|j: int|
            0 <= j < s.services@.len() && (#[trigger] s.services@[j]).workspace == w
                && s.services@[j].uuid == id;
        let j2 = choose|j: int|
            0 <= j < s.domains@.len() && (#[trigger] s.domains@[j]).workspace == w
                && s.domains@[j].uuid == id;
        assert(all[nh + np + j1] == id && all[nh + np + ns + j2] == id && nh + np + j1 != nh + np
            + ns + j2);
        assert(false);
    }

    assert forall|a: int, b: int|
        0 <= a < b < nh implies (#[trigger] s.hosts@[a]).uuid != (#[trigger] s.hosts@[b]).uuid by {
        assert(all[a] != all[b]);
    }
    assert forall|a: int, b: int|
        0 <= a < b < np implies (#[trigger] s.ports@[a]).uuid != (#[trigger] s.ports@[b]).uuid by {
        assert(all[nh + a] != all[nh + b]);
    }
    assert forall|a: int, b: int|
        0 <= a < b < ns implies (#[trigger] s.services@[a]).uuid != (
    #[trigger] s.services@[b]).uuid by {
        assert(all[nh + np + a] != all[nh + np + b]);
    }
    assert forall|a: int, b: int|
        0 <= a < b < nd implies (#[trigger] s.domains@[a]).uuid != (
    #[trigger] s.domains@[b]).uuid by {
        assert(all[nh + np + ns + a] != all[nh + np + ns + b]);
    }
    lemma_hosts_export_ids_unique(s.hosts@, s, w);
    lemma_ports_export_ids_unique(s.ports@, s, w);
    lemma_services_export_ids_unique(s.services@, s, w);
    lemma_domains_export_ids_unique(s.domains@, s, w);
}

// ---------------------------------------------------------------------------
// Idempotence
// ---------------------------------------------------------------------------

/// Exporting the same snapshot twice yields the same graph.
///
/// [`crate::export::aggregate_workspace`] returns exactly
/// `spec_export(s, w)`, a function of the snapshot and the workspace alone;
/// so two runs with no intervening writes cannot differ.
pub proof fn lemma_export_idempotent(
    s: WorkspaceSnapshot,
    w: u128,
    out1: WorkspaceView,
    out2: WorkspaceView,
)
    requires
        out1 == spec_export(s, w),
        out2 == spec_export(s, w),
    ensures
        out1 == out2,
{
}

// ---------------------------------------------------------------------------
// Domain-to-host cross-linking
// ---------------------------------------------------------------------------

/// Every domain-to-host relation row of the workspace is recorded in the
/// relations collection under its identity, with its exact payload; its
/// identity stands in the `domains` list of the host record keyed by its host
/// endpoint and in the `hosts` list of the domain record keyed by its domain
/// endpoint.
pub proof fn lemma_domain_host_relation_linked(s: WorkspaceSnapshot, w: u128, k: int)
    requires
        0 <= k < s.domain_host_relations@.len(),
        s.domain_host_relations@[k].workspace == w,
    ensures
        ({
            let out = spec_export(s, w);
            let x = s.domain_host_relations@[k];
            &&& out.relations.contains(
                RelationEntry {
                    uuid: x.uuid,
                    relation: AggregatedRelation::DomainHost {
                        domain: x.domain,
                        host: x.host,
                        is_direct: x.is_direct,
                    },
                },
            )
            &&& forall|i: int|
                0 <= i < out.hosts.len() && (#[trigger] out.hosts[i]).uuid == x.host
                    ==> out.hosts[i].domains.contains(x.uuid)
            &&& forall|i: int|
                0 <= i < out.domains.len() && (#[trigger] out.domains[i]).uuid == x.domain
                    ==> out.domains[i].hosts.contains(x.uuid)
        }),
{
    broadcast use lemma_filter_map_elem, lemma_filter_map_member;

    let out = spec_export(s, w);
    let x = s.domain_host_relations@[k];
    let entry = RelationEntry {
        uuid: x.uuid,
        relation: AggregatedRelation::DomainHost {
            domain: x.domain,
            host: x.host,
            is_direct: x.is_direct,
        },
    };
    let dh_entries = spec_domain_host_entries(s.domain_host_relations@, w);
    assert(dh_entries.contains(entry));
    let t = choose|t: int| 0 <= t < dh_entries.len() && dh_entries[t] == entry;
    assert(out.relations[spec_domain_domain_entries(s.domain_domain_relations@, w).len() + t]
        == entry);
    assert(out.relations.contains(entry));

    assert forall|i: int|
        0 <= i < out.hosts.len() && (#[trigger] out.hosts[i]).uuid == x.host
            implies out.hosts[i].domains.contains(x.uuid) by {
        assert(0 <= i < out.hosts.len() && out.hosts[i] == out.hosts[i]);
        assert(out.hosts[i].domains.contains(x.uuid));
    }
    assert forall|i: int|
        0 <= i < out.domains.len() && (#[trigger] out.domains[i]).uuid == x.domain
            implies out.domains[i].hosts.contains(x.uuid) by {
        assert(0 <= i < out.domains.len() && out.domains[i] == out.domains[i]);
        assert(out.domains[i].hosts.contains(x.uuid));
    }
}

/// Every domain-to-domain relation row of the workspace is recorded in the
/// relations collection under its identity, with its exact payload; its
/// identity stands in the `destinations` list of the domain record keyed by
/// its source endpoint and in the `sources` list of the domain record keyed
/// by its destination endpoint.
pub proof fn lemma_domain_domain_relation_linked(s: WorkspaceSnapshot, w: u128, k: int)
    requires
        0 <= k < s.domain_domain_relations@.len(),
        s.domain_domain_relations@[k].workspace == w,
    ensures
        ({
            let out = spec_export(s, w);
            let x = s.domain_domain_relations@[k];
            &&& out.relations.contains(
                RelationEntry {
                    uuid: x.uuid,
                    relation: AggregatedRelation::DomainDomain {
                        source: x.source,
                        destination: x.destination,
                    },
                },
            )
            &&& forall|i: int|
                0 <= i < out.domains.len() && (#[trigger] out.domains[i]).uuid == x.source
                    ==> out.domains[i].destinations.contains(x.uuid)
            &&& forall|i: int|
                0 <= i < out.domains.len() && (#[trigger] out.domains[i]).uuid == x.destination
                    ==> out.domains[i].sources.contains(x.uuid)
        }),
{
    broadcast use lemma_filter_map_elem, lemma_filter_map_member;

    let out = spec_export(s, w);
    let x = s.domain_domain_relations@[k];
    let entry = RelationEntry {
        uuid: x.uuid,
        relation: AggregatedRelation::DomainDomain { source: x.source, destination: x.destination },
    };
    let dd_entries = spec_domain_domain_entries(s.domain_domain_relations@, w);
    assert(dd_entries.contains(entry));
    let t = choose|t: int| 0 <= t < dd_entries.len() && dd_entries[t] == entry;
    assert(out.relations[t] == entry);
    assert(out.relations.contains(entry));

    assert forall|i: int|
        0 <= i < out.domains.len() && (#[trigger] out.domains[i]).uuid == x.source
            implies out.domains[i].destinations.contains(x.uuid) by {
        assert(0 <= i < out.domains.len() && out.domains[i] == out.domains[i]);
        assert(out.domains[i].destinations.contains(x.uuid));
    }
    assert forall|i: int|
        0 <= i < out.domains.len() && (#[trigger] out.domains[i]).uuid == x.destination
            implies out.domains[i].sources.contains(x.uuid) by {
        assert(0 <= i < out.domains.len() && out.domains[i] == out.domains[i]);
        assert(out.domains[i].sources.contains(x.uuid));
    }
}

/// Every port row of the workspace stands in the `ports` list of the host
/// record keyed by its owning host: the back-reference follows the port's
/// forward reference.
pub proof fn lemma_port_back_reference(s: WorkspaceSnapshot, w: u128, k: int)
    requires
        0 <= k < s.ports@.len(),
        s.ports@[k].workspace == w,
    ensures
        ({
            let out = spec_export(s, w);
            let x = s.ports@[k];
            forall|i: int|
                0 <= i < out.hosts.len() && (#[trigger] out.hosts[i]).uuid == x.host
                    ==> out.hosts[i].ports.contains(x.uuid)
        }),
{
    broadcast use lemma_filter_map_elem, lemma_filter_map_member;

    let out = spec_export(s, w);
    let x = s.ports@[k];
    assert forall|i: int|
        0 <= i < out.hosts.len() && (#[trigger] out.hosts[i]).uuid == x.host
            implies out.hosts[i].ports.contains(x.uuid) by {
        assert(0 <= i < out.hosts.len() && out.hosts[i] == out.hosts[i]);
        assert(out.hosts[i].ports.contains(x.uuid));
    }
}

/// Every service row of the workspace stands in the `services` list of the
/// host record keyed by its owning host, and, when it is bound to a port, in
/// the `services` list of the port record keyed by that port: the
/// back-references follow the service's forward references.
pub proof fn lemma_service_back_references(s: WorkspaceSnapshot, w: u128, k: int)
    requires
        0 <= k < s.services@.len(),
        s.services@[k].workspace == w,
    ensures
        ({
            let out = spec_export(s, w);
            let x = s.services@[k];
            &&& forall|i: int|
                0 <= i < out.hosts.len() && (#[trigger] out.hosts[i]).uuid == x.host
                    ==> out.hosts[i].services.contains(x.uuid)
            &&& forall|i: int|
                0 <= i < out.ports.len() && Some((#[trigger] out.ports[i]).uuid) == x.port
                    ==> out.ports[i].services.contains(x.uuid)
        }),
{
    broadcast use lemma_filter_map_elem, lemma_filter_map_member;

    let out = spec_export(s, w);
    let x = s.services@[k];
    assert forall|i: int|
        0 <= i < out.hosts.len() && (#[trigger] out.hosts[i]).uuid == x.host
            implies out.hosts[i].services.contains(x.uuid) by {
        assert(0 <= i < out.hosts.len() && out.hosts[i] == out.hosts[i]);
        assert(out.hosts[i].services.contains(x.uuid));
    }
    assert forall|i: int|
        0 <= i < out.ports.len() && Some((#[trigger] out.ports[i]).uuid) == x.port
            implies out.ports[i].services.contains(x.uuid) by {
        assert(0 <= i < out.ports.len() && out.ports[i] == out.ports[i]);
        assert(out.ports[i].services.contains(x.uuid));
    }
}

// ---------------------------------------------------------------------------
// Entities without tags
// ---------------------------------------------------------------------------

/// No tag rows for an owner means no tag names are collected.
pub proof fn lemma_no_tag_rows_no_names(tags: Seq<TagAttachment>, owner: u128)
    requires
        forall|j: int| 0 <= j < tags.len() ==> (#[trigger] tags[j]).owner != owner,
    ensures
        spec_tag_names(tags, owner).len() == 0,
{
    broadcast use lemma_filter_map_empty;

    assert(spec_tag_names(tags, owner) == Seq::<String>::empty());
}

/// A host with no tag associations exports empty (present but empty) tag
/// lists.
pub proof fn lemma_untagged_host_exports_empty_tags(s: WorkspaceSnapshot, w: u128, i: int)
    requires
        0 <= i < spec_export(s, w).hosts.len(),
        forall|j: int|
            0 <= j < s.host_global_tags@.len() ==> (#[trigger] s.host_global_tags@[j]).owner
                != spec_export(s, w).hosts[i].uuid,
        forall|j: int|
            0 <= j < s.host_workspace_tags@.len() ==> (#[trigger] s.host_workspace_tags@[j]).owner
                != spec_export(s, w).hosts[i].uuid,
    ensures
        spec_export(s, w).hosts[i].tags.global_tags.len() == 0,
        spec_export(s, w).hosts[i].tags.local_tags.len() == 0,
{
    broadcast use lemma_filter_map_elem;

    let out = spec_export(s, w).hosts;
    assert(0 <= i < out.len() && out[i] == out[i]);
    lemma_no_tag_rows_no_names(s.host_global_tags@, out[i].uuid);
    lemma_no_tag_rows_no_names(s.host_workspace_tags@, out[i].uuid);
}

/// A port with no tag associations exports empty (present but empty) tag
/// lists.
pub proof fn lemma_untagged_port_exports_empty_tags(s: WorkspaceSnapshot, w: u128, i: int)
    requires
        0 <= i < spec_export(s, w).ports.len(),
        forall|j: int|
            0 <= j < s.port_global_tags@.len() ==> (#[trigger] s.port_global_tags@[j]).owner
                != spec_export(s, w).ports[i].uuid,
        forall|j: int|
            0 <= j < s.port_workspace_tags@.len() ==> (#[trigger] s.port_workspace_tags@[j]).owner
                != spec_export(s, w).ports[i].uuid,
    ensures
        spec_export(s, w).ports[i].tags.global_tags.len() == 0,
        spec_export(s, w).ports[i].tags.local_tags.len() == 0,
{
    broadcast use lemma_filter_map_elem;

    let out = spec_export(s, w).ports;
    assert(0 <= i < out.len() && out[i] == out[i]);
    lemma_no_tag_rows_no_names(s.port_global_tags@, out[i].uuid);
    lemma_no_tag_rows_no_names(s.port_workspace_tags@, out[i].uuid);
}

/// A service with no tag associations exports empty (present but empty) tag
/// lists.
pub proof fn lemma_untagged_service_exports_empty_tags(s: WorkspaceSnapshot, w: u128, i: int)
    requires
        0 <= i < spec_export(s, w).services.len(),
        forall|j: int|
            0 <= j < s.service_global_tags@.len() ==> (#[trigger] s.service_global_tags@[j]).owner
                != spec_export(s, w).services[i].uuid,
        forall|j: int|
            0 <= j < s.service_workspace_tags@.len() ==> (
            #[trigger] s.service_workspace_tags@[j]).owner != spec_export(s, w).services[i].uuid,
    ensures
        spec_export(s, w).services[i].tags.global_tags.len() == 0,
        spec_export(s, w).services[i].tags.local_tags.len() == 0,
{
    broadcast use lemma_filter_map_elem;

    let out = spec_export(s, w).services;
    assert(0 <= i < out.len() && out[i] == out[i]);
    lemma_no_tag_rows_no_names(s.service_global_tags@, out[i].uuid);
    lemma_no_tag_rows_no_names(s.service_workspace_tags@, out[i].uuid);
}

/// A domain with no tag associations exports empty (present but empty) tag
/// lists.
pub proof fn lemma_untagged_domain_exports_empty_tags(s: WorkspaceSnapshot, w: u128, i: int)
    requires
        0 <= i < spec_export(s, w).domains.len(),
        forall|j: int|
            0 <= j < s.domain_global_tags@.len() ==> (#[trigger] s.domain_global_tags@[j]).owner
                != spec_export(s, w).domains[i].uuid,
        forall|j: int|
            0 <= j < s.domain_workspace_tags@.len() ==> (
            #[trigger] s.domain_workspace_tags@[j]).owner != spec_export(s, w).domains[i].uuid,
    ensures
        spec_export(s, w).domains[i].tags.global_tags.len() == 0,
        spec_export(s, w).domains[i].tags.local_tags.len() == 0,
{
    broadcast use lemma_filter_map_elem;

    let out = spec_export(s, w).domains;
    assert(0 <= i < out.len() && out[i] == out[i]);
    lemma_no_tag_rows_no_names(s.domain_global_tags@, out[i].uuid);
    lemma_no_tag_rows_no_names(s.domain_workspace_tags@, out[i].uuid);
}

} // verus!
