//! Aggregation and export of reconnaissance findings.
//!
//! A workspace groups the hosts, ports, services and domains found during one
//! engagement, together with the relations and tags attached to them.  This
//! crate turns the flat, workspace-scoped rows read from the relational store
//! into one consistent, fully cross-linked snapshot graph: every entity is
//! keyed by its identity, back-reference lists are derived from the forward
//! foreign keys, and tag names are attached to their owners.  Access is gated
//! by a workspace-scoped, expiring credential.
//!
//! The engine itself is pure: it consumes plain row values (the result of the
//! store's filtered reads, all taken inside one transaction) and produces the
//! aggregated graph.  Reading the rows and serving the result over HTTP is the
//! caller's business.

pub mod models;
pub mod seq_lemmas;
pub mod export;
pub mod laws;
pub mod workspaces;
pub mod wire;
