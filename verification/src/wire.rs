//! Wire-format address values.
//!
//! The scan-worker protocol carries IP addresses and networks as little-endian
//! byte groups packed into signed integers: a v4 address as one `i32`, a v6
//! address as two `i64` halves, a network as an address plus a netmask in the
//! same packing.  This module converts between those wire shapes and the
//! engine's plain address model ([`IpNet`], [`IpAddress`]), where an address
//! is the big-endian numeric value of its octets.
//!
//! Packing byte `k` of a little-endian group is bit `8k`, while octet `k` of
//! an address is its `k`-th most significant byte; the conversions are
//! therefore byte swaps combined with bit-for-bit signed/unsigned
//! reinterpretation.

use vstd::prelude::*;

use crate::models::IpNet;

verus! {

/// An IP address: the big-endian numeric value of its octets.
#[derive(Clone, Copy, PartialEq, Eq, Structural, Debug)]
pub enum IpAddress {
    /// An IPv4 address
    V4(u32),
    /// An IPv6 address
    V6(u128),
}

/// A wire IPv4 address: the four octets as one little-endian `i32`.
#[derive(Clone, Copy, PartialEq, Eq, Structural, Debug)]
pub struct Ipv4 {
    /// The packed octets
    pub address: i32,
}

/// A wire IPv6 address: the sixteen octets as two little-endian `i64`s.
#[derive(Clone, Copy, PartialEq, Eq, Structural, Debug)]
pub struct Ipv6 {
    /// Octets `0..8`, packed little-endian
    pub part0: i64,
    /// Octets `8..16`, packed little-endian
    pub part1: i64,
}

/// The two wire address families.
#[derive(Clone, Copy, PartialEq, Eq, Structural, Debug)]
pub enum AddressVariant {
    /// An IPv4 address
    Ipv4(Ipv4),
    /// An IPv6 address
    Ipv6(Ipv6),
}

/// A wire address, possibly absent.
#[derive(Clone, Copy, PartialEq, Eq, Structural, Debug)]
pub struct Address {
    /// The address, if one was sent
    pub address: Option<AddressVariant>,
}

/// A wire IPv4 network: address and netmask.
#[derive(Clone, Copy, PartialEq, Eq, Structural, Debug)]
pub struct Ipv4Net {
    /// The network's address
    pub address: Option<Ipv4>,
    /// The netmask octets, packed little-endian
    pub netmask: i32,
}

/// A wire IPv6 network: address and netmask.
#[derive(Clone, Copy, PartialEq, Eq, Structural, Debug)]
pub struct Ipv6Net {
    /// The network's address
    pub address: Option<Ipv6>,
    /// Netmask octets `0..8`, packed little-endian
    pub netmask0: i64,
    /// Netmask octets `8..16`, packed little-endian
    pub netmask1: i64,
}

/// The two wire network families.
#[derive(Clone, Copy, PartialEq, Eq, Structural, Debug)]
pub enum NetVariant {
    /// An IPv4 network
    Ipv4net(Ipv4Net),
    /// An IPv6 network
    Ipv6net(Ipv6Net),
}

/// A wire network, possibly absent.
#[derive(Clone, Copy, PartialEq, Eq, Structural, Debug)]
pub struct Net {
    /// The network, if one was sent
    pub net: Option<NetVariant>,
}

/// Either a wire network or a wire address.
#[derive(Clone, Copy, PartialEq, Eq, Structural, Debug)]
pub enum NetOrAddressVariant {
    /// An address
    Address(Address),
    /// A network
    Net(Net),
}

/// A wire value holding either a network or an address, possibly absent.
#[derive(Clone, Copy, PartialEq, Eq, Structural, Debug)]
pub struct NetOrAddress {
    /// The value, if one was sent
    pub net_or_address: Option<NetOrAddressVariant>,
}

/// The error of reading a wire address that was not sent.
#[derive(Clone, Copy, PartialEq, Eq, Structural, Debug)]
pub struct AddressConvError;

impl AddressConvError {
    /// The error's message.
    pub fn message(&self) -> (r: String)
        ensures
            r@ == "Address was None"@,
    {
        "Address was None".to_owned()
    }
}

// ---------------------------------------------------------------------------
// Bit-level helpers
// ---------------------------------------------------------------------------

/// The 32 bits of `x` read as unsigned.
pub open spec fn spec_i32_bits(x: i32) -> u32 {
    if x >= 0 {
        x as u32
    } else {
        (x + 0x1_0000_0000) as u32
    }
}

/// The 32 bits of `x` read as signed.
pub open spec fn spec_i32_of_bits(x: u32) -> i32 {
    if x < 0x8000_0000 {
        x as i32
    } else {
        (x - 0x1_0000_0000) as i32
    }
}

/// The 64 bits of `x` read as unsigned.
pub open spec fn spec_i64_bits(x: i64) -> u64 {
    if x >= 0 {
        x as u64
    } else {
        (x + 0x1_0000_0000_0000_0000) as u64
    }
}

/// The 64 bits of `x` read as signed.
pub open spec fn spec_i64_of_bits(x: u64) -> i64 {
    if x < 0x8000_0000_0000_0000 {
        x as i64
    } else {
        (x - 0x1_0000_0000_0000_0000) as i64
    }
}

/// The bytes of `x` in reverse order.
pub open spec fn spec_swap32(x: u32) -> u32 {
    ((x & 0xff) << 24) | (((x >> 8) & 0xff) << 16) | (((x >> 16) & 0xff) << 8) | (x >> 24)
}

/// The bytes of `x` in reverse order.
pub open spec fn spec_swap64(x: u64) -> u64 {
    ((x & 0xff) << 56) | (((x >> 8) & 0xff) << 48) | (((x >> 16) & 0xff) << 40) | (((x >> 24)
        & 0xff) << 32) | (((x >> 32) & 0xff) << 24) | (((x >> 40) & 0xff) << 16) | (((x >> 48)
        & 0xff) << 8) | (x >> 56)
}

fn i32_bits(x: i32) -> (r: u32)
    ensures
        r == spec_i32_bits(x),
{
    if x >= 0 {
        x as u32
    } else {
        ((x as i64) + 0x1_0000_0000) as u32
    }
}

fn i32_of_bits(x: u32) -> (r: i32)
    ensures
        r == spec_i32_of_bits(x),
{
    if x < 0x8000_0000 {
        x as i32
    } else {
        ((x as i64) - 0x1_0000_0000) as i32
    }
}

fn i64_bits(x: i64) -> (r: u64)
    ensures
        r == spec_i64_bits(x),
{
    if x >= 0 {
        x as u64
    } else {
        ((x as i128) + 0x1_0000_0000_0000_0000) as u64
    }
}

fn i64_of_bits(x: u64) -> (r: i64)
    ensures
        r == spec_i64_of_bits(x),
{
    if x < 0x8000_0000_0000_0000 {
        x as i64
    } else {
        ((x as i128) - 0x1_0000_0000_0000_0000) as i64
    }
}

fn byte_swap_u32(x: u32) -> (r: u32)
    ensures
        r == spec_swap32(x),
{
    ((x & 0xff) << 24) | (((x >> 8) & 0xff) << 16) | (((x >> 16) & 0xff) << 8) | (x >> 24)
}

fn byte_swap_u64(x: u64) -> (r: u64)
    ensures
        r == spec_swap64(x),
{
    ((x & 0xff) << 56) | (((x >> 8) & 0xff) << 48) | (((x >> 16) & 0xff) << 40) | (((x >> 24)
        & 0xff) << 32) | (((x >> 32) & 0xff) << 24) | (((x >> 40) & 0xff) << 16) | (((x >> 48)
        & 0xff) << 8) | (x >> 56)
}

// ---------------------------------------------------------------------------
// Address conversions
// ---------------------------------------------------------------------------

/// The v4 address carried by a wire value.
pub open spec fn spec_ipv4_from_wire(v: Ipv4) -> u32 {
    spec_swap32(spec_i32_bits(v.address))
}

/// The wire value carrying a v4 address.
pub open spec fn spec_ipv4_to_wire(addr: u32) -> Ipv4 {
    Ipv4 { address: spec_i32_of_bits(spec_swap32(addr)) }
}

/// The v6 address carried by a wire value.
pub open spec fn spec_ipv6_from_wire(v: Ipv6) -> u128 {
    ((spec_swap64(spec_i64_bits(v.part0)) as u128) << 64) | (spec_swap64(
        spec_i64_bits(v.part1),
    ) as u128)
}

/// The wire value carrying a v6 address.
pub open spec fn spec_ipv6_to_wire(addr: u128) -> Ipv6 {
    Ipv6 {
        part0: spec_i64_of_bits(spec_swap64((addr >> 64) as u64)),
        part1: spec_i64_of_bits(spec_swap64((addr & 0xFFFF_FFFF_FFFF_FFFF) as u64)),
    }
}

/// Read a v4 address off the wire.
pub fn ipv4_from_wire(v: Ipv4) -> (r: u32)
    ensures
        r == spec_ipv4_from_wire(v),
{
    byte_swap_u32(i32_bits(v.address))
}

/// Put a v4 address on the wire.
pub fn ipv4_to_wire(addr: u32) -> (r: Ipv4)
    ensures
        r == spec_ipv4_to_wire(addr),
{
    Ipv4 { address: i32_of_bits(byte_swap_u32(addr)) }
}

/// Read a v6 address off the wire.
pub fn ipv6_from_wire(v: Ipv6) -> (r: u128)
    ensures
        r == spec_ipv6_from_wire(v),
{
    ((byte_swap_u64(i64_bits(v.part0)) as u128) << 64) | (byte_swap_u64(i64_bits(v.part1)) as u128)
}

/// Put a v6 address on the wire.
pub fn ipv6_to_wire(addr: u128) -> (r: Ipv6)
    ensures
        r == spec_ipv6_to_wire(addr),
{
    Ipv6 {
        part0: i64_of_bits(byte_swap_u64((addr >> 64) as u64)),
        part1: i64_of_bits(byte_swap_u64((addr & 0xFFFF_FFFF_FFFF_FFFF) as u64)),
    }
}

/// The wire address carrying an IP address.
pub open spec fn spec_address_from_ip(ip: IpAddress) -> Address {
    match ip {
        IpAddress::V4(a) => Address { address: Some(AddressVariant::Ipv4(spec_ipv4_to_wire(a))) },
        IpAddress::V6(a) => Address { address: Some(AddressVariant::Ipv6(spec_ipv6_to_wire(a))) },
    }
}

/// Put an IP address on the wire.
pub fn address_from_ip(ip: IpAddress) -> (r: Address)
    ensures
        r == spec_address_from_ip(ip),
{
    match ip {
        IpAddress::V4(a) => Address { address: Some(AddressVariant::Ipv4(ipv4_to_wire(a))) },
        IpAddress::V6(a) => Address { address: Some(AddressVariant::Ipv6(ipv6_to_wire(a))) },
    }
}

/// Read an IP address off the wire.
///
/// Fails exactly when no address was sent.
pub fn ip_from_address(a: Address) -> (r: Result<IpAddress, AddressConvError>)
    ensures
        (r is Err) == (a.address is None),
        a.address matches Some(AddressVariant::Ipv4(v)) ==> r == Ok::<IpAddress, AddressConvError>(
            IpAddress::V4(spec_ipv4_from_wire(v)),
        ),
        a.address matches Some(AddressVariant::Ipv6(v)) ==> r == Ok::<IpAddress, AddressConvError>(
            IpAddress::V6(spec_ipv6_from_wire(v)),
        ),
{
    match a.address {
        None => Err(AddressConvError),
        Some(AddressVariant::Ipv4(v)) => Ok(IpAddress::V4(ipv4_from_wire(v))),
        Some(AddressVariant::Ipv6(v)) => Ok(IpAddress::V6(ipv6_from_wire(v))),
    }
}

// ---------------------------------------------------------------------------
// Network conversions
// ---------------------------------------------------------------------------

/// The netmask of a v4 prefix length: the `prefix` highest bits set.
pub open spec fn spec_v4_mask(prefix: u8) -> u32
    recommends
        prefix <= 32,
{
    if prefix == 0 {
        0u32
    } else {
        0xFFFF_FFFFu32 << (32u32 - prefix as u32)
    }
}

/// The netmask of a v6 prefix length: the `prefix` highest bits set.
pub open spec fn spec_v6_mask(prefix: u8) -> u128
    recommends
        prefix <= 128,
{
    if prefix == 0 {
        0u128
    } else {
        0xFFFF_FFFF_FFFF_FFFF_FFFF_FFFF_FFFF_FFFFu128 << (128u32 - prefix as u32)
    }
}

/// The netmask of a v4 prefix length.
pub fn v4_mask(prefix: u8) -> (r: u32)
    requires
        prefix <= 32,
    ensures
        r == spec_v4_mask(prefix),
{
    if prefix == 0 {
        0u32
    } else {
        0xFFFF_FFFFu32 << (32u32 - prefix as u32)
    }
}

/// The netmask of a v6 prefix length.
pub fn v6_mask(prefix: u8) -> (r: u128)
    requires
        prefix <= 128,
    ensures
        r == spec_v6_mask(prefix),
{
    if prefix == 0 {
        0u128
    } else {
        0xFFFF_FFFF_FFFF_FFFF_FFFF_FFFF_FFFF_FFFFu128 << (128u32 - prefix as u32)
    }
}

/// The wire network carrying an IP network: its address and the netmask of
/// its prefix length, each packed like an address of its family.
pub open spec fn spec_net_to_wire(n: IpNet) -> Net {
    match n {
        IpNet::V4 { addr, prefix } => Net {
            net: Some(
                NetVariant::Ipv4net(
                    Ipv4Net {
                        address: Some(spec_ipv4_to_wire(addr)),
                        netmask: spec_ipv4_to_wire(spec_v4_mask(prefix)).address,
                    },
                ),
            ),
        },
        IpNet::V6 { addr, prefix } => Net {
            net: Some(
                NetVariant::Ipv6net(
                    Ipv6Net {
                        address: Some(spec_ipv6_to_wire(addr)),
                        netmask0: spec_ipv6_to_wire(spec_v6_mask(prefix)).part0,
                        netmask1: spec_ipv6_to_wire(spec_v6_mask(prefix)).part1,
                    },
                ),
            ),
        },
    }
}

/// Put an IP network on the wire.
pub fn net_to_wire(n: IpNet) -> (r: Net)
    requires
        n.wf(),
    ensures
        r == spec_net_to_wire(n),
{
    match n {
        IpNet::V4 { addr, prefix } => Net {
            net: Some(
                NetVariant::Ipv4net(
                    Ipv4Net {
                        address: Some(ipv4_to_wire(addr)),
                        netmask: ipv4_to_wire(v4_mask(prefix)).address,
                    },
                ),
            ),
        },
        IpNet::V6 { addr, prefix } => {
            let mask_wire = ipv6_to_wire(v6_mask(prefix));
            Net {
                net: Some(
                    NetVariant::Ipv6net(
                        Ipv6Net {
                            address: Some(ipv6_to_wire(addr)),
                            netmask0: mask_wire.part0,
                            netmask1: mask_wire.part1,
                        },
                    ),
                ),
            }
        },
    }
}

/// The wire value carrying an IP network.
pub open spec fn spec_net_or_address_from_net(n: IpNet) -> NetOrAddress {
    NetOrAddress { net_or_address: Some(NetOrAddressVariant::Net(spec_net_to_wire(n))) }
}

/// Put an IP network on the wire, wrapped as a network-or-address value.
pub fn net_or_address_from_net(n: IpNet) -> (r: NetOrAddress)
    requires
        n.wf(),
    ensures
        r == spec_net_or_address_from_net(n),
{
    NetOrAddress { net_or_address: Some(NetOrAddressVariant::Net(net_to_wire(n))) }
}

// ---------------------------------------------------------------------------
// Round trips
// ---------------------------------------------------------------------------

/// Reversing the bytes twice gives the value back.
proof fn lemma_swap32_involutive(x: u32)
    ensures
        spec_swap32(spec_swap32(x)) == x,
{
    let y = spec_swap32(x);
    assert((((y & 0xff) << 24) | (((y >> 8) & 0xff) << 16) | (((y >> 16) & 0xff) << 8) | (y >> 24))
        == x) by (bit_vector)
        requires
            y == ((x & 0xff) << 24) | (((x >> 8) & 0xff) << 16) | (((x >> 16) & 0xff) << 8) | (x
                >> 24),
    ;
}

/// Reversing the bytes twice gives the value back.
proof fn lemma_swap64_involutive(x: u64)
    ensures
        spec_swap64(spec_swap64(x)) == x,
{
    let y = spec_swap64(x);
    assert((((y & 0xff) << 56) | (((y >> 8) & 0xff) << 48) | (((y >> 16) & 0xff) << 40) | (((y
        >> 24) & 0xff) << 32) | (((y >> 32) & 0xff) << 24) | (((y >> 40) & 0xff) << 16) | (((y
        >> 48) & 0xff) << 8) | (y >> 56)) == x) by (bit_vector)
        requires
            y == ((x & 0xff) << 56) | (((x >> 8) & 0xff) << 48) | (((x >> 16) & 0xff) << 40) | (((x
                >> 24) & 0xff) << 32) | (((x >> 32) & 0xff) << 24) | (((x >> 40) & 0xff) << 16) | ((
            (x >> 48) & 0xff) << 8) | (x >> 56),
    ;
}

/// Packing a v4 address and reading it back gives the address back.
pub proof fn lemma_ipv4_wire_roundtrip(addr: u32)
    ensures
        spec_ipv4_from_wire(spec_ipv4_to_wire(addr)) == addr,
{
    lemma_swap32_involutive(addr);
}

/// Packing a v6 address and reading it back gives the address back.
pub proof fn lemma_ipv6_wire_roundtrip(addr: u128)
    ensures
        spec_ipv6_from_wire(spec_ipv6_to_wire(addr)) == addr,
{
    let hi = (addr >> 64) as u64;
    let lo = (addr & 0xFFFF_FFFF_FFFF_FFFF) as u64;
    lemma_swap64_involutive(hi);
    lemma_swap64_involutive(lo);
    assert(((hi as u128) << 64) | (lo as u128) == addr) by (bit_vector)
        requires
            hi == (addr >> 64) as u64,
            lo == (addr & 0xFFFF_FFFF_FFFF_FFFF) as u64,
    ;
}

} // verus!
