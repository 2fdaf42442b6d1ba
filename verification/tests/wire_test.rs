use kraken::models::IpNet;
use kraken::wire::{
    address_from_ip, ip_from_address, ipv4_from_wire, ipv4_to_wire, ipv6_from_wire, ipv6_to_wire,
    net_or_address_from_net, net_to_wire, Address, AddressConvError, AddressVariant, IpAddress,
    Ipv4, Ipv6, NetOrAddressVariant, NetVariant,
};

fn v4(octets: [u8; 4]) -> u32 {
    u32::from_be_bytes(octets)
}

fn v6(octets: [u8; 16]) -> u128 {
    u128::from_be_bytes(octets)
}

#[test]
fn ipv4_wire_is_little_endian_octets() {
    let addr = v4([10, 0, 0, 1]);
    let wire = ipv4_to_wire(addr);
    assert_eq!(wire.address, i32::from_le_bytes([10, 0, 0, 1]));
    assert_eq!(wire.address, 16_777_226);
    assert_eq!(ipv4_from_wire(wire), addr);
}

#[test]
fn ipv4_wire_high_octet_goes_negative() {
    let addr = v4([10, 0, 0, 128]);
    let wire = ipv4_to_wire(addr);
    assert_eq!(wire.address, i32::from_le_bytes([10, 0, 0, 128]));
    assert!(wire.address < 0);
    assert_eq!(ipv4_from_wire(wire), addr);
}

#[test]
fn ipv6_wire_packs_two_little_endian_halves() {
    let addr = v6([0x20, 0x01, 0x0d, 0xb8, 0, 0, 0, 0, 0, 0, 0, 0, 0, 0, 0, 1]);
    let wire = ipv6_to_wire(addr);
    assert_eq!(wire.part0, i64::from_le_bytes([0x20, 0x01, 0x0d, 0xb8, 0, 0, 0, 0]));
    assert_eq!(wire.part1, i64::from_le_bytes([0, 0, 0, 0, 0, 0, 0, 1]));
    assert_eq!(ipv6_from_wire(wire), addr);
}

#[test]
fn ipv6_loopback_round_trip() {
    let addr: u128 = 1;
    let wire = ipv6_to_wire(addr);
    assert_eq!(wire.part0, 0);
    assert_eq!(wire.part1, i64::from_le_bytes([0, 0, 0, 0, 0, 0, 0, 1]));
    assert_eq!(ipv6_from_wire(wire), addr);
}

#[test]
fn address_wraps_the_family() {
    let a4 = address_from_ip(IpAddress::V4(v4([192, 168, 1, 10])));
    match a4.address {
        Some(AddressVariant::Ipv4(Ipv4 { address })) => {
            assert_eq!(address, i32::from_le_bytes([192, 168, 1, 10]));
        }
        other => panic!("wrong variant: {other:?}"),
    }
    let a6 = address_from_ip(IpAddress::V6(1));
    assert!(matches!(a6.address, Some(AddressVariant::Ipv6(_))));
}

#[test]
fn reading_an_absent_address_fails() {
    let r = ip_from_address(Address { address: None });
    assert_eq!(r, Err(AddressConvError));
    assert_eq!(AddressConvError.message(), "Address was None");
}

#[test]
fn reading_an_address_round_trips() {
    let ip = IpAddress::V4(v4([10, 0, 0, 1]));
    assert_eq!(ip_from_address(address_from_ip(ip)), Ok(ip));
    let ip6 = IpAddress::V6(v6([0xfe, 0x80, 0, 0, 0, 0, 0, 0, 0, 0, 0, 0, 0, 0, 0, 2]));
    assert_eq!(ip_from_address(address_from_ip(ip6)), Ok(ip6));
}

#[test]
fn v4_net_carries_address_and_mask() {
    let n = IpNet::V4 { addr: v4([192, 168, 1, 0]), prefix: 24 };
    let wire = net_to_wire(n);
    match wire.net {
        Some(NetVariant::Ipv4net(inner)) => {
            assert_eq!(inner.address, Some(ipv4_to_wire(v4([192, 168, 1, 0]))));
            assert_eq!(inner.netmask, i32::from_le_bytes([255, 255, 255, 0]));
        }
        other => panic!("wrong variant: {other:?}"),
    }
}

#[test]
fn v4_net_with_zero_prefix_has_empty_mask() {
    let n = IpNet::V4 { addr: 0, prefix: 0 };
    match net_to_wire(n).net {
        Some(NetVariant::Ipv4net(inner)) => assert_eq!(inner.netmask, 0),
        other => panic!("wrong variant: {other:?}"),
    }
}

#[test]
fn v6_net_carries_address_and_mask() {
    let addr = v6([0x20, 0x01, 0x0d, 0xb8, 0, 0, 0, 0, 0, 0, 0, 0, 0, 0, 0, 0]);
    let n = IpNet::V6 { addr, prefix: 32 };
    match net_to_wire(n).net {
        Some(NetVariant::Ipv6net(inner)) => {
            assert_eq!(inner.address, Some(ipv6_to_wire(addr)));
            assert_eq!(inner.netmask0, i64::from_le_bytes([255, 255, 255, 255, 0, 0, 0, 0]));
            assert_eq!(inner.netmask1, 0);
        }
        other => panic!("wrong variant: {other:?}"),
    }
}

#[test]
fn net_or_address_wraps_a_net() {
    let n = IpNet::V4 { addr: v4([10, 0, 0, 0]), prefix: 8 };
    let wrapped = net_or_address_from_net(n);
    match wrapped.net_or_address {
        Some(NetOrAddressVariant::Net(net)) => assert_eq!(net, net_to_wire(n)),
        other => panic!("wrong variant: {other:?}"),
    }
}

#[test]
fn ipv6_wire_full_mask_is_all_ones() {
    let n = IpNet::V6 { addr: 1, prefix: 128 };
    match net_to_wire(n).net {
        Some(NetVariant::Ipv6net(inner)) => {
            assert_eq!(inner.netmask0, -1);
            assert_eq!(inner.netmask1, -1);
        }
        other => panic!("wrong variant: {other:?}"),
    }
}
