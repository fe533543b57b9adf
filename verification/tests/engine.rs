//! End-to-end tests of the dissection engine: registration, the driver
//! loop, error reporting, and identifier display.

use scalpel::Error;
use scalpel::layers::Layer;
use scalpel::layers::ethernet::{register_defaults, register_ethertype};
use scalpel::packet::Packet;
use scalpel::registry::{LayerKind, RegistryTable};
use scalpel::types::{ENCAP_TYPE_ETH, EtherType, MACAddress};

/// A fourteen-byte Ethernet header followed by `payload`.
fn eth_frame(ethertype: u16, payload: &[u8]) -> Vec<u8> {
    let mut b = vec![
        0x52, 0x54, 0x00, 0xbd, 0x1c, 0x70, // destination
        0xfe, 0x54, 0x00, 0x3e, 0x00, 0x96, // source
    ];
    b.push((ethertype >> 8) as u8);
    b.push((ethertype & 0xff) as u8);
    b.extend_from_slice(payload);
    b
}

#[test]
fn identifier_hex_round_trip() {
    assert_eq!(EtherType(0x0800).hex_string(), "0x0800");
}

#[test]
fn identifier_hex_uppercase_padded() {
    assert_eq!(EtherType(0x86dd).hex_string(), "0x86DD");
    assert_eq!(EtherType(0x0042).hex_string(), "0x0042");
    assert_eq!(EtherType(0x0000).hex_string(), "0x0000");
    assert_eq!(EtherType(0xffff).hex_string(), "0xFFFF");
}

#[test]
fn mac_address_display() {
    let mac = MACAddress { b0: 0x52, b1: 0x54, b2: 0x00, b3: 0xbd, b4: 0x1c, b5: 0x70 };
    assert_eq!(mac.hex_string(), "52:54:00:bd:1c:70");
}

#[test]
fn blank_layer_before_decode() {
    let eth = scalpel::layers::ethernet::Ethernet::creator();
    assert_eq!(eth.ethertype, EtherType::default());
    assert_eq!(eth.ethertype.hex_string(), "0x0000");
    assert_eq!(eth.dst_mac, MACAddress::default());
    assert_eq!(eth.dst_mac.hex_string(), "00:00:00:00:00:00");
    assert_eq!(eth.src_mac.hex_string(), "00:00:00:00:00:00");
}

#[test]
fn register_twice_same_domain() {
    let mut table = RegistryTable::new();
    assert_eq!(register_ethertype(&mut table, EtherType(0x1234), LayerKind::IPv4), Ok(()));
    assert_eq!(
        register_ethertype(&mut table, EtherType(0x1234), LayerKind::IPv6),
        Err(Error::RegisterError)
    );
    // The first registration is intact.
    assert_eq!(table.ethertypes.lookup(0x1234), Some(LayerKind::IPv4));
}

#[test]
fn register_defaults_then_again() {
    let mut table = RegistryTable::new();
    assert_eq!(register_defaults(&mut table), Ok(()));
    assert_eq!(table.ethertypes.lookup(0x0800), Some(LayerKind::IPv4));
    assert_eq!(table.ethertypes.lookup(0x86dd), Some(LayerKind::IPv6));
    // A second bootstrap surfaces the duplicate registration.
    assert_eq!(register_defaults(&mut table), Err(Error::RegisterError));
    assert_eq!(table.ethertypes.lookup(0x0800), Some(LayerKind::IPv4));
}

#[test]
fn two_layer_packet_no_trailing() {
    let mut table = RegistryTable::new();
    assert_eq!(register_ethertype(&mut table, EtherType(0x0800), LayerKind::IPv4), Ok(()));
    let bytes = eth_frame(0x0800, &[0u8; 20]);
    let p = Packet::from_bytes(&bytes, ENCAP_TYPE_ETH, &table).unwrap();
    assert_eq!(p.layers.len(), 2);
    assert_eq!(p.layers[0].name(), "Ethernet");
    assert_eq!(p.layers[1].name(), "IPv4");
    assert_eq!(p.consumed, 34);
    assert!(p.trailing.is_empty());
}

#[test]
fn unknown_ethertype_single_layer() {
    let mut table = RegistryTable::new();
    assert_eq!(register_defaults(&mut table), Ok(()));
    let bytes = eth_frame(0x9999, &[0xaa, 0xbb, 0xcc]);
    let p = Packet::from_bytes(&bytes, ENCAP_TYPE_ETH, &table).unwrap();
    assert_eq!(p.layers.len(), 1);
    assert_eq!(p.layers[0].name(), "Ethernet");
    assert_eq!(p.consumed, 14);
    assert_eq!(p.trailing, vec![0xaa, 0xbb, 0xcc]);
}

#[test]
fn short_buffer_is_too_short() {
    let table = RegistryTable::new();
    let bytes = vec![0u8; 10];
    assert_eq!(Packet::from_bytes(&bytes, ENCAP_TYPE_ETH, &table), Err(Error::TooShort));
}

#[test]
fn empty_buffer_is_too_short() {
    let table = RegistryTable::new();
    let bytes: Vec<u8> = Vec::new();
    assert_eq!(Packet::from_bytes(&bytes, ENCAP_TYPE_ETH, &table), Err(Error::TooShort));
}

#[test]
fn truncated_second_layer_fails_whole_packet() {
    let mut table = RegistryTable::new();
    assert_eq!(register_defaults(&mut table), Ok(()));
    // IPv4 needs twenty bytes; only six follow the Ethernet header.
    let bytes = eth_frame(0x0800, &[0u8; 6]);
    assert_eq!(Packet::from_bytes(&bytes, ENCAP_TYPE_ETH, &table), Err(Error::TooShort));
}

#[test]
fn unknown_encapsulation_is_refused() {
    let mut table = RegistryTable::new();
    assert_eq!(register_defaults(&mut table), Ok(()));
    let bytes = eth_frame(0x0800, &[0u8; 20]);
    assert_eq!(Packet::from_bytes(&bytes, 99, &table), Err(Error::UnknownEncapsulation));
}

#[test]
fn ipv6_two_layer_packet() {
    let mut table = RegistryTable::new();
    assert_eq!(register_defaults(&mut table), Ok(()));
    let bytes = eth_frame(0x86dd, &[0u8; 40]);
    let p = Packet::from_bytes(&bytes, ENCAP_TYPE_ETH, &table).unwrap();
    assert_eq!(p.layers.len(), 2);
    assert_eq!(p.layers[1].name(), "IPv6");
    assert_eq!(p.layers[1].short_name(), "ip6");
    assert_eq!(p.consumed, 54);
    assert!(p.trailing.is_empty());
}

#[test]
fn trailing_bytes_after_terminal_layer() {
    let mut table = RegistryTable::new();
    assert_eq!(register_defaults(&mut table), Ok(()));
    let mut payload = vec![0u8; 20];
    payload.extend_from_slice(&[1, 2, 3, 4]);
    let bytes = eth_frame(0x0800, &payload);
    let p = Packet::from_bytes(&bytes, ENCAP_TYPE_ETH, &table).unwrap();
    assert_eq!(p.layers.len(), 2);
    assert_eq!(p.consumed, 34);
    assert_eq!(p.trailing, vec![1, 2, 3, 4]);
}

#[test]
fn worked_ethernet_example() {
    let mut table = RegistryTable::new();
    assert_eq!(register_defaults(&mut table), Ok(()));
    let bytes = eth_frame(0x0800, &[0u8; 20]);
    let p = Packet::from_bytes(&bytes, ENCAP_TYPE_ETH, &table).unwrap();
    match &p.layers[0] {
        Layer::Ethernet(eth) => {
            assert_eq!(eth.dst_mac.hex_string(), "52:54:00:bd:1c:70");
            assert_eq!(eth.src_mac.hex_string(), "fe:54:00:3e:00:96");
            assert_eq!(eth.ethertype, EtherType(0x0800));
            assert_eq!(eth.ethertype.hex_string(), "0x0800");
        }
        other => panic!("expected an Ethernet layer, got {:?}", other),
    }
}

#[test]
fn repeated_dissection_is_identical() {
    let mut table = RegistryTable::new();
    assert_eq!(register_defaults(&mut table), Ok(()));
    let bytes = eth_frame(0x0800, &[7u8; 25]);
    let p1 = Packet::from_bytes(&bytes, ENCAP_TYPE_ETH, &table).unwrap();
    let p2 = Packet::from_bytes(&bytes, ENCAP_TYPE_ETH, &table).unwrap();
    assert_eq!(p1, p2);
}

#[test]
fn registration_after_first_dissection_is_visible() {
    let mut table = RegistryTable::new();
    let bytes = eth_frame(0x0800, &[0u8; 20]);
    let before = Packet::from_bytes(&bytes, ENCAP_TYPE_ETH, &table).unwrap();
    assert_eq!(before.layers.len(), 1);
    assert_eq!(register_ethertype(&mut table, EtherType(0x0800), LayerKind::IPv4), Ok(()));
    let after = Packet::from_bytes(&bytes, ENCAP_TYPE_ETH, &table).unwrap();
    assert_eq!(after.layers.len(), 2);
}

#[test]
fn layer_names_are_stable() {
    let mut table = RegistryTable::new();
    assert_eq!(register_defaults(&mut table), Ok(()));
    let bytes = eth_frame(0x0800, &[0u8; 20]);
    let p = Packet::from_bytes(&bytes, ENCAP_TYPE_ETH, &table).unwrap();
    assert_eq!(p.layers[0].name(), "Ethernet");
    assert_eq!(p.layers[0].short_name(), "eth");
    assert_eq!(p.layers[1].name(), "IPv4");
    assert_eq!(p.layers[1].short_name(), "ip");
}
