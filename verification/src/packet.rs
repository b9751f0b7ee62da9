//! The packet accessors of `pnet` that the library builds and reads frames
//! with, each behind a contract over the wire layout.
//!
//! Nothing here is proved: every contract restates, for one accessor, the
//! offsets that follow from the field order of `pnet`'s packet definitions.

use vstd::prelude::*;
use pnet::packet::arp::{ArpHardwareType, ArpOperation, MutableArpPacket};
use pnet::packet::ethernet::{EtherType, EthernetPacket, MutableEthernetPacket};
use pnet::packet::ipv4::Ipv4Packet;
use pnet::packet::{MutablePacket, Packet};
use crate::addr::{Ipv4Addr, MacAddr};
use crate::wire::{
    be16, eth_ethertype, eth_payload, eth_source, ipv4_destination, store, ARP_MESSAGE_LEN,
    ETHERNET_HEADER_LEN, IPV4_HEADER_LEN,
};

verus! {

/// `MutableEthernetPacket::set_destination`: writes the six octets of the
/// address over bytes 0 to 5 of the frame and leaves the other bytes as they
/// are.
#[verifier::external_body]
pub(crate) fn ethernet_set_destination(buf: &mut Vec<u8>, destination: MacAddr)
    requires
        old(buf)@.len() >= ETHERNET_HEADER_LEN,
    ensures
        final(buf)@ == store(old(buf)@, 0, destination.octets()),
{
    let mut packet = MutableEthernetPacket::new(buf.as_mut_slice()).unwrap();
    packet.set_destination(pnet::util::MacAddr::new(
        destination.0,
        destination.1,
        destination.2,
        destination.3,
        destination.4,
        destination.5,
    ));
}

/// `MutableEthernetPacket::set_source`: writes the six octets of the address
/// over bytes 6 to 11 of the frame and leaves the other bytes as they are.
#[verifier::external_body]
pub(crate) fn ethernet_set_source(buf: &mut Vec<u8>, source: MacAddr)
    requires
        old(buf)@.len() >= ETHERNET_HEADER_LEN,
    ensures
        final(buf)@ == store(old(buf)@, 6, source.octets()),
{
    let mut packet = MutableEthernetPacket::new(buf.as_mut_slice()).unwrap();
    packet.set_source(pnet::util::MacAddr::new(
        source.0,
        source.1,
        source.2,
        source.3,
        source.4,
        source.5,
    ));
}

/// `MutableEthernetPacket::set_ethertype`: writes the ethertype, most
/// significant byte first, over bytes 12 and 13 of the frame and leaves the
/// other bytes as they are.
#[verifier::external_body]
pub(crate) fn ethernet_set_ethertype(buf: &mut Vec<u8>, ethertype: u16)
    requires
        old(buf)@.len() >= ETHERNET_HEADER_LEN,
    ensures
        final(buf)@ == store(old(buf)@, 12, be16(ethertype)),
{
    let mut packet = MutableEthernetPacket::new(buf.as_mut_slice()).unwrap();
    packet.set_ethertype(EtherType::new(ethertype));
}

/// `MutableEthernetPacket::set_payload`: copies `payload` into the frame from
/// byte 14 on and leaves the other bytes as they are. The payload has to fit.
#[verifier::external_body]
pub(crate) fn ethernet_set_payload(buf: &mut Vec<u8>, payload: &[u8])
    requires
        old(buf)@.len() >= ETHERNET_HEADER_LEN + payload@.len(),
    ensures
        final(buf)@ == store(old(buf)@, ETHERNET_HEADER_LEN as int, payload@),
{
    let mut packet = MutableEthernetPacket::new(buf.as_mut_slice()).unwrap();
    packet.set_payload(payload);
}

/// `MutablePacket::clone_from` on a `MutableEthernetPacket`: copies the whole
/// of `other` over the first bytes of the frame and leaves what follows as it
/// is. The frame has to be at least as long as `other`.
#[verifier::external_body]
pub(crate) fn ethernet_clone_from(buf: &mut Vec<u8>, other: &[u8])
    requires
        other@.len() >= ETHERNET_HEADER_LEN,
        old(buf)@.len() >= other@.len(),
    ensures
        final(buf)@ == store(old(buf)@, 0, other@),
{
    let mut packet = MutableEthernetPacket::new(buf.as_mut_slice()).unwrap();
    let source = EthernetPacket::new(other).unwrap();
    MutablePacket::clone_from(&mut packet, &source);
}

/// `EthernetPacket::get_source`: the address that bytes 6 to 11 of the frame
/// spell.
#[verifier::external_body]
pub(crate) fn ethernet_source(frame: &[u8]) -> (source: MacAddr)
    requires
        frame@.len() >= ETHERNET_HEADER_LEN,
    ensures
        source == eth_source(frame@),
{
    let mac = EthernetPacket::new(frame).unwrap().get_source();
    MacAddr(mac.0, mac.1, mac.2, mac.3, mac.4, mac.5)
}

/// `EthernetPacket::get_ethertype`: the number that bytes 12 and 13 of the
/// frame spell, most significant byte first.
#[verifier::external_body]
pub(crate) fn ethernet_ethertype(frame: &[u8]) -> (ethertype: u16)
    requires
        frame@.len() >= ETHERNET_HEADER_LEN,
    ensures
        ethertype == eth_ethertype(frame@),
{
    EthernetPacket::new(frame).unwrap().get_ethertype().0
}

/// `Packet::payload` on an `EthernetPacket`: the bytes of the frame from
/// byte 14 on, copied out; none where the frame ends with its header.
#[verifier::external_body]
pub(crate) fn ethernet_payload(frame: &[u8]) -> (payload: Vec<u8>)
    requires
        frame@.len() >= ETHERNET_HEADER_LEN,
    ensures
        payload@ == eth_payload(frame@),
{
    let packet = EthernetPacket::new(frame).unwrap();
    Packet::payload(&packet).to_vec()
}

/// `Ipv4Packet::get_destination`: the address that bytes 16 to 19 of an IPv4
/// header spell.
#[verifier::external_body]
pub(crate) fn ipv4_packet_destination(packet: &[u8]) -> (destination: Ipv4Addr)
    requires
        packet@.len() >= IPV4_HEADER_LEN,
    ensures
        destination == ipv4_destination(packet@),
{
    let ip = Ipv4Packet::new(packet).unwrap().get_destination().octets();
    Ipv4Addr(ip[0], ip[1], ip[2], ip[3])
}

/// `MutableArpPacket::set_hardware_type`: writes the hardware type, most significant byte first,
/// over bytes 0 and 1 of the message and leaves the other bytes as they are.
#[verifier::external_body]
pub(crate) fn arp_set_hardware_type(buf: &mut Vec<u8>, hardware_type: u16)
    requires
        old(buf)@.len() >= ARP_MESSAGE_LEN,
    ensures
        final(buf)@ == store(old(buf)@, 0, be16(hardware_type)),
{
    let mut packet = MutableArpPacket::new(buf.as_mut_slice()).unwrap();
    packet.set_hardware_type(ArpHardwareType::new(hardware_type));
}

/// `MutableArpPacket::set_protocol_type`: writes the protocol type, most significant byte first,
/// over bytes 2 and 3 of the message and leaves the other bytes as they are.
#[verifier::external_body]
pub(crate) fn arp_set_protocol_type(buf: &mut Vec<u8>, protocol_type: u16)
    requires
        old(buf)@.len() >= ARP_MESSAGE_LEN,
    ensures
        final(buf)@ == store(old(buf)@, 2, be16(protocol_type)),
{
    let mut packet = MutableArpPacket::new(buf.as_mut_slice()).unwrap();
    packet.set_protocol_type(EtherType::new(protocol_type));
}

/// `MutableArpPacket::set_hw_addr_len`: writes the length over byte 4 of the message and leaves
/// the other bytes as they are.
#[verifier::external_body]
pub(crate) fn arp_set_hw_addr_len(buf: &mut Vec<u8>, len: u8)
    requires
        old(buf)@.len() >= ARP_MESSAGE_LEN,
    ensures
        final(buf)@ == store(old(buf)@, 4, seq![len]),
{
    let mut packet = MutableArpPacket::new(buf.as_mut_slice()).unwrap();
    packet.set_hw_addr_len(len);
}

/// `MutableArpPacket::set_proto_addr_len`: writes the length over byte 5 of the message and
/// leaves the other bytes as they are.
#[verifier::external_body]
pub(crate) fn arp_set_proto_addr_len(buf: &mut Vec<u8>, len: u8)
    requires
        old(buf)@.len() >= ARP_MESSAGE_LEN,
    ensures
        final(buf)@ == store(old(buf)@, 5, seq![len]),
{
    let mut packet = MutableArpPacket::new(buf.as_mut_slice()).unwrap();
    packet.set_proto_addr_len(len);
}

/// `MutableArpPacket::set_operation`: writes the operation, most significant byte first, over
/// bytes 6 and 7 of the message and leaves the other bytes as they are.
#[verifier::external_body]
pub(crate) fn arp_set_operation(buf: &mut Vec<u8>, operation: u16)
    requires
        old(buf)@.len() >= ARP_MESSAGE_LEN,
    ensures
        final(buf)@ == store(old(buf)@, 6, be16(operation)),
{
    let mut packet = MutableArpPacket::new(buf.as_mut_slice()).unwrap();
    packet.set_operation(ArpOperation::new(operation));
}

/// `MutableArpPacket::set_sender_hw_addr`: writes the six octets of the address over bytes 8
/// to 13 of the message and leaves the other bytes as they are.
#[verifier::external_body]
pub(crate) fn arp_set_sender_hw_addr(buf: &mut Vec<u8>, addr: MacAddr)
    requires
        old(buf)@.len() >= ARP_MESSAGE_LEN,
    ensures
        final(buf)@ == store(old(buf)@, 8, addr.octets()),
{
    let mut packet = MutableArpPacket::new(buf.as_mut_slice()).unwrap();
    packet.set_sender_hw_addr(pnet::util::MacAddr::new(
        addr.0,
        addr.1,
        addr.2,
        addr.3,
        addr.4,
        addr.5,
    ));
}

/// `MutableArpPacket::set_sender_proto_addr`: writes the four octets of the address over
/// bytes 14 to 17 of the message and leaves the other bytes as they are.
#[verifier::external_body]
pub(crate) fn arp_set_sender_proto_addr(buf: &mut Vec<u8>, addr: Ipv4Addr)
    requires
        old(buf)@.len() >= ARP_MESSAGE_LEN,
    ensures
        final(buf)@ == store(old(buf)@, 14, addr.octets()),
{
    let mut packet = MutableArpPacket::new(buf.as_mut_slice()).unwrap();
    packet.set_sender_proto_addr(pnet::util::core_net::Ipv4Addr::new(
        addr.0,
        addr.1,
        addr.2,
        addr.3,
    ));
}

/// `MutableArpPacket::set_target_hw_addr`: writes the six octets of the address over bytes 18
/// to 23 of the message and leaves the other bytes as they are.
#[verifier::external_body]
pub(crate) fn arp_set_target_hw_addr(buf: &mut Vec<u8>, addr: MacAddr)
    requires
        old(buf)@.len() >= ARP_MESSAGE_LEN,
    ensures
        final(buf)@ == store(old(buf)@, 18, addr.octets()),
{
    let mut packet = MutableArpPacket::new(buf.as_mut_slice()).unwrap();
    packet.set_target_hw_addr(pnet::util::MacAddr::new(
        addr.0,
        addr.1,
        addr.2,
        addr.3,
        addr.4,
        addr.5,
    ));
}

/// `MutableArpPacket::set_target_proto_addr`: writes the four octets of the address over
/// bytes 24 to 27 of the message and leaves the other bytes as they are.
#[verifier::external_body]
pub(crate) fn arp_set_target_proto_addr(buf: &mut Vec<u8>, addr: Ipv4Addr)
    requires
        old(buf)@.len() >= ARP_MESSAGE_LEN,
    ensures
        final(buf)@ == store(old(buf)@, 24, addr.octets()),
{
    let mut packet = MutableArpPacket::new(buf.as_mut_slice()).unwrap();
    packet.set_target_proto_addr(pnet::util::core_net::Ipv4Addr::new(
        addr.0,
        addr.1,
        addr.2,
        addr.3,
    ));
}

} // verus!
