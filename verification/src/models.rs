//! Row models: plain-value mirrors of the rows the export engine reads.
//!
//! Entity identities are 128-bit values, timestamps are milliseconds since the
//! Unix epoch, and an IP network is an address plus a prefix length.  The
//! back-reference fields of the stored models are never persisted; they are
//! derived at export time, so the row types here carry only the stored
//! columns.

use vstd::prelude::*;

verus! {

/// A representation of an OS type
#[derive(Clone, Copy, PartialEq, Eq, Structural, Debug)]
pub enum OsType {
    /// The OS type is currently unknown
    Unknown,
    /// Linux based OS
    Linux,
    /// Windows based OS
    Windows,
    /// Apple based OS
    Apple,
    /// Android based OS
    Android,
    /// FreeBSD based OS
    FreeBSD,
}

/// The certainty of a host
#[derive(Clone, Copy, PartialEq, Eq, Structural, Debug)]
pub enum HostCertainty {
    /// 3rd party historical data
    Historical,
    /// 3rd party data
    SupposedTo,
    /// The host has responded
    Verified,
}

/// The certainty a service is detected
#[derive(Clone, Copy, PartialEq, Eq, Structural, Debug)]
pub enum ServiceCertainty {
    /// 3rd party historical data
    Historical,
    /// 3rd party data
    SupposedTo,
    /// May be a certain service
    MaybeVerified,
    /// Service is definitely correct
    DefinitelyVerified,
}

/// A protocol of a port
#[derive(Clone, Copy, PartialEq, Eq, Structural, Debug)]
pub enum PortProtocol {
    /// Unknown protocol
    Unknown,
    /// tcp
    Tcp,
    /// udp
    Udp,
    /// sctp
    Sctp,
}

/// The certainty states of a port
#[derive(Clone, Copy, PartialEq, Eq, Structural, Debug)]
pub enum PortCertainty {
    /// 3rd party historical data
    Historical,
    /// 3rd party data
    SupposedTo,
    /// The host has responded
    Verified,
}

/// The certainty of a domain
#[derive(Clone, Copy, PartialEq, Eq, Structural, Debug)]
pub enum DomainCertainty {
    /// The domain was not found through DNS
    Unverified,
    /// Domain was verified through DNS
    Verified,
}

/// An IP network: an address together with a prefix length.
///
/// A v4 address is the big-endian numeric value of its four octets, a v6
/// address the big-endian numeric value of its sixteen octets.
#[derive(Clone, Copy, PartialEq, Eq, Structural, Debug)]
#[allow(inconsistent_fields)]
pub enum IpNet {
    /// An IPv4 network
    V4 {
        /// The address, `a.b.c.d` as `a<<24 | b<<16 | c<<8 | d`
        addr: u32,
        /// The prefix length, at most 32
        prefix: u8,
    },
    /// An IPv6 network
    V6 {
        /// The address, its sixteen octets read as one big-endian number
        addr: u128,
        /// The prefix length, at most 128
        prefix: u8,
    },
}

impl IpNet {
    /// The prefix length does not exceed the width of the address.
    pub open spec fn wf(self) -> bool {
        match self {
            IpNet::V4 { prefix, .. } => prefix <= 32,
            IpNet::V6 { prefix, .. } => prefix <= 128,
        }
    }
}

/// Copy an optional string, keeping its value.
pub fn clone_opt_string(o: &Option<String>) -> (r: Option<String>)
    ensures
        r == *o,
{
    match o {
        Some(x) => Some(x.clone()),
        None => None,
    }
}

/// A representation of an host: one row of the host table.
#[derive(Clone, PartialEq, Eq, Debug)]
pub struct Host {
    /// The primary key of a host
    pub uuid: u128,
    /// The IP address of the host
    pub ip_addr: IpNet,
    /// The type of OS of this host
    pub os_type: OsType,
    /// Response time in ms
    pub response_time: Option<i32>,
    /// A comment to the host
    pub comment: String,
    /// The certainty of this host
    pub certainty: HostCertainty,
    /// The workspace this host belongs to
    pub workspace: u128,
    /// The point in time this entry was created
    pub created_at: i64,
}

/// A port: one row of the port table.
#[derive(Clone, PartialEq, Eq, Debug)]
pub struct Port {
    /// Primary key of a port
    pub uuid: u128,
    /// Port number, stored as a 16-bit signed quantity.
    ///
    /// The exported number is the same 16 bits reinterpreted as unsigned.
    pub port: i16,
    /// Port protocol
    pub protocol: PortProtocol,
    /// The certainty of this port
    pub certainty: PortCertainty,
    /// The host this port is attached to
    pub host: u128,
    /// A comment to the port
    pub comment: String,
    /// The workspace this port belongs to
    pub workspace: u128,
    /// The point in time this entry was created
    pub created_at: i64,
}

/// A detected service on a host: one row of the service table.
#[derive(Clone, PartialEq, Eq, Debug)]
pub struct Service {
    /// Primary key of a service
    pub uuid: u128,
    /// Name of the service
    pub name: String,
    /// Optional version of the service
    pub version: Option<String>,
    /// The certainty the service is detected correct
    pub certainty: ServiceCertainty,
    /// The host this service is attached to
    pub host: u128,
    /// The port this service is attached to, if any
    pub port: Option<u128>,
    /// A comment to the service
    pub comment: String,
    /// The workspace this service belongs to
    pub workspace: u128,
    /// The point in time this entry was created
    pub created_at: i64,
}

/// A domain: one row of the domain table.
#[derive(Clone, PartialEq, Eq, Debug)]
pub struct Domain {
    /// The primary key of a domain
    pub uuid: u128,
    /// The domain that was found
    pub domain: String,
    /// The certainty of this domain entry
    pub certainty: DomainCertainty,
    /// A comment to the domain
    pub comment: String,
    /// The workspace this domain belongs to
    pub workspace: u128,
    /// The point in time this entry was created
    pub created_at: i64,
}

/// A DNS relation between two domains: one row of its join table.
#[derive(Clone, Copy, PartialEq, Eq, Structural, Debug)]
pub struct DomainDomainRelation {
    /// The primary key of this relation
    pub uuid: u128,
    /// The source domain pointing to the other domain
    pub source: u128,
    /// The destination domain which is pointed to
    pub destination: u128,
    /// The workspace this relation belongs to
    pub workspace: u128,
}

/// A DNS relation between a domain and a host: one row of its join table.
#[derive(Clone, Copy, PartialEq, Eq, Structural, Debug)]
pub struct DomainHostRelation {
    /// The primary key of this relation
    pub uuid: u128,
    /// The domain resolving to a host
    pub domain: u128,
    /// The host resolved to
    pub host: u128,
    /// Whether the domain points to the host directly via an `A` or `AAAA`
    /// record (`true`) or through a chain of `CNAME`s (`false`)
    pub is_direct: bool,
    /// The workspace this relation belongs to
    pub workspace: u128,
}

/// One row of the store's joined read of a tag table: the owning entity and
/// the tag's name.
///
/// Both tag subsystems (global tags and workspace tags) are read in this
/// shape; which one a row came from is decided by the field it is kept in.
#[derive(Clone, PartialEq, Eq, Debug)]
pub struct TagAttachment {
    /// The entity the tag is attached to
    pub owner: u128,
    /// The tag's name
    pub name: String,
}

/// An access credential bound to one workspace: one row of its table.
#[derive(Clone, PartialEq, Eq, Debug)]
pub struct WorkspaceAccessToken {
    /// The opaque credential string
    pub token: String,
    /// The workspace this credential grants access to
    pub workspace: u128,
    /// The point in time this credential expires
    pub expires_at: i64,
}

/// A workspace: one row of the workspace table.
#[derive(Clone, PartialEq, Eq, Debug)]
pub struct Workspace {
    /// The primary key of a workspace
    pub uuid: u128,
    /// Name of the workspace
    pub name: String,
    /// Optional description of the workspace
    pub description: Option<String>,
    /// The user owning the workspace
    pub owner: u128,
    /// The point in time this entry was created
    pub created_at: i64,
}

/// A user account, reduced to what the workspace handlers read.
#[derive(Clone, PartialEq, Eq, Debug)]
pub struct User {
    /// The primary key of a user
    pub uuid: u128,
    /// The login name
    pub username: String,
    /// The name shown to other users
    pub display_name: String,
    /// Whether the user holds the administrator permission
    pub admin: bool,
}

} // verus!
