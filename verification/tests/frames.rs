use arp_poison::builder::{build_arp_reply, create_arp_packet};
use arp_poison::wire::{
    ARP_HARDWARE_ETHERNET, ARP_MESSAGE_LEN, ARP_OPERATION_REPLY, ARP_OPERATION_REQUEST,
    ETHERNET_HEADER_LEN, ETHERTYPE_ARP, ETHERTYPE_IPV4, IPV4_HEADER_LEN, MIN_FRAME_LEN,
};
use arp_poison::{Ipv4Addr, MacAddr};
use pnet::packet::arp::{ArpHardwareTypes, ArpOperations, ArpPacket};
use pnet::packet::ethernet::{EtherTypes, EthernetPacket};
use pnet::packet::Packet;

fn host() -> MacAddr {
    MacAddr::new(0xCC, 0xCC, 0xCC, 0xCC, 0xCC, 0x03)
}

fn gateway() -> MacAddr {
    MacAddr::new(0xBB, 0xBB, 0xBB, 0xBB, 0xBB, 0x02)
}

#[test]
fn arp_reply_has_the_exact_wire_bytes() {
    let frame = build_arp_reply(
        MacAddr::new(0x11, 0x22, 0x33, 0x44, 0x55, 0x66),
        Ipv4Addr::new(192, 168, 1, 77),
        MacAddr::new(0xA1, 0xB2, 0xC3, 0xD4, 0xE5, 0xF6),
        Ipv4Addr::new(172, 16, 254, 9),
    );
    let mut expected: Vec<u8> = vec![
        0xA1, 0xB2, 0xC3, 0xD4, 0xE5, 0xF6, // destination
        0x11, 0x22, 0x33, 0x44, 0x55, 0x66, // source
        0x08, 0x06, // ethertype
        0x00, 0x01, // hardware type
        0x08, 0x00, // protocol type
        0x06, 0x04, // address lengths
        0x00, 0x02, // operation
        0x11, 0x22, 0x33, 0x44, 0x55, 0x66, // sender hardware address
        192, 168, 1, 77, // sender protocol address
        0xA1, 0xB2, 0xC3, 0xD4, 0xE5, 0xF6, // target hardware address
        172, 16, 254, 9, // target protocol address
    ];
    expected.resize(60, 0);
    assert_eq!(frame, expected);
}

#[test]
fn arp_reply_is_sixty_bytes() {
    let frame = build_arp_reply(host(), Ipv4Addr::new(10, 0, 0, 5), gateway(), Ipv4Addr::new(10, 0, 0, 1));
    assert_eq!(frame.len(), 60);
    assert_eq!(frame.len(), MIN_FRAME_LEN);
    let zero = build_arp_reply(
        MacAddr::new(0, 0, 0, 0, 0, 0),
        Ipv4Addr::new(0, 0, 0, 0),
        MacAddr::new(0, 0, 0, 0, 0, 0),
        Ipv4Addr::new(0, 0, 0, 0),
    );
    assert_eq!(zero.len(), 60);
    let ones = build_arp_reply(
        MacAddr::new(255, 255, 255, 255, 255, 255),
        Ipv4Addr::new(255, 255, 255, 255),
        MacAddr::new(255, 255, 255, 255, 255, 255),
        Ipv4Addr::new(255, 255, 255, 255),
    );
    assert_eq!(ones.len(), 60);
}

#[test]
fn arp_reply_parses_back_to_its_inputs() {
    let frame = build_arp_reply(host(), Ipv4Addr::new(10, 0, 0, 5), gateway(), Ipv4Addr::new(10, 0, 0, 1));
    let ethernet = EthernetPacket::new(&frame).unwrap();
    assert_eq!(ethernet.get_ethertype(), EtherTypes::Arp);
    assert_eq!(ethernet.get_source(), pnet::util::MacAddr::new(0xCC, 0xCC, 0xCC, 0xCC, 0xCC, 0x03));
    assert_eq!(
        ethernet.get_destination(),
        pnet::util::MacAddr::new(0xBB, 0xBB, 0xBB, 0xBB, 0xBB, 0x02)
    );
    let arp = ArpPacket::new(ethernet.payload()).unwrap();
    assert_eq!(arp.get_hardware_type(), ArpHardwareTypes::Ethernet);
    assert_eq!(arp.get_protocol_type(), EtherTypes::Ipv4);
    assert_eq!(arp.get_hw_addr_len(), 6);
    assert_eq!(arp.get_proto_addr_len(), 4);
    assert_eq!(arp.get_operation(), ArpOperations::Reply);
    assert_eq!(
        arp.get_sender_hw_addr(),
        pnet::util::MacAddr::new(0xCC, 0xCC, 0xCC, 0xCC, 0xCC, 0x03)
    );
    assert_eq!(arp.get_sender_proto_addr().octets(), [10, 0, 0, 5]);
    assert_eq!(
        arp.get_target_hw_addr(),
        pnet::util::MacAddr::new(0xBB, 0xBB, 0xBB, 0xBB, 0xBB, 0x02)
    );
    assert_eq!(arp.get_target_proto_addr().octets(), [10, 0, 0, 1]);
}

#[test]
fn arp_padding_is_zero() {
    let frame = build_arp_reply(host(), Ipv4Addr::new(1, 2, 3, 4), gateway(), Ipv4Addr::new(5, 6, 7, 8));
    assert!(frame[ETHERNET_HEADER_LEN + ARP_MESSAGE_LEN..].iter().all(|b| *b == 0));
    assert_eq!(frame[ETHERNET_HEADER_LEN + ARP_MESSAGE_LEN..].len(), 18);
}

#[test]
fn arp_request_differs_from_reply_in_the_operation_only() {
    let request = create_arp_packet(
        host(),
        Ipv4Addr::new(10, 0, 0, 5),
        gateway(),
        Ipv4Addr::new(10, 0, 0, 1),
        ARP_OPERATION_REQUEST,
    );
    let reply = create_arp_packet(
        host(),
        Ipv4Addr::new(10, 0, 0, 5),
        gateway(),
        Ipv4Addr::new(10, 0, 0, 1),
        ARP_OPERATION_REPLY,
    );
    assert_eq!(request.len(), 60);
    assert_eq!(&request[20..22], &[0, 1]);
    assert_eq!(&reply[20..22], &[0, 2]);
    assert_eq!(&request[..20], &reply[..20]);
    assert_eq!(&request[22..], &reply[22..]);
}

#[test]
fn arp_operation_is_written_high_byte_first() {
    let frame = create_arp_packet(
        host(),
        Ipv4Addr::new(10, 0, 0, 5),
        gateway(),
        Ipv4Addr::new(10, 0, 0, 1),
        0xABCD,
    );
    assert_eq!(&frame[20..22], &[0xAB, 0xCD]);
}

#[test]
fn build_arp_reply_is_create_arp_packet_with_reply() {
    let a = build_arp_reply(host(), Ipv4Addr::new(9, 8, 7, 6), gateway(), Ipv4Addr::new(1, 2, 3, 4));
    let b = create_arp_packet(
        host(),
        Ipv4Addr::new(9, 8, 7, 6),
        gateway(),
        Ipv4Addr::new(1, 2, 3, 4),
        ARP_OPERATION_REPLY,
    );
    assert_eq!(a, b);
}

#[test]
fn protocol_numbers_are_those_of_the_packet_crate() {
    assert_eq!(ETHERTYPE_ARP, EtherTypes::Arp.0);
    assert_eq!(ETHERTYPE_IPV4, EtherTypes::Ipv4.0);
    assert_eq!(ARP_HARDWARE_ETHERNET, ArpHardwareTypes::Ethernet.0);
    assert_eq!(ARP_OPERATION_REPLY, ArpOperations::Reply.0);
    assert_eq!(ARP_OPERATION_REQUEST, ArpOperations::Request.0);
    assert_eq!(ETHERNET_HEADER_LEN, EthernetPacket::minimum_packet_size());
    assert_eq!(ARP_MESSAGE_LEN, ArpPacket::minimum_packet_size());
    assert_eq!(IPV4_HEADER_LEN, pnet::packet::ipv4::Ipv4Packet::minimum_packet_size());
}
