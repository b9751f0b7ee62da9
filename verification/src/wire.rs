//! The byte layout of Ethernet II frames, ARP messages and the fixed part of
//! an IPv4 header, as mathematical functions on byte sequences.

use vstd::prelude::*;
use crate::addr::{Ipv4Addr, MacAddr};

verus! {

/// Length of the Ethernet II header: destination, source, ethertype.
pub const ETHERNET_HEADER_LEN: usize = 14;

/// Length of an ARP message for Ethernet and IPv4.
pub const ARP_MESSAGE_LEN: usize = 28;

/// Length of an IPv4 header without options.
pub const IPV4_HEADER_LEN: usize = 20;

/// The least length of an Ethernet frame, without its check sequence.
pub const MIN_FRAME_LEN: usize = 60;

pub const ETHERTYPE_IPV4: u16 = 0x0800;

pub const ETHERTYPE_ARP: u16 = 0x0806;

pub const ARP_HARDWARE_ETHERNET: u16 = 1;

pub const ARP_OPERATION_REQUEST: u16 = 1;

pub const ARP_OPERATION_REPLY: u16 = 2;

/// `buf` with the bytes from index `at` on replaced by `bytes`.
pub open spec fn store(buf: Seq<u8>, at: int, bytes: Seq<u8>) -> Seq<u8> {
    Seq::new(
        buf.len(),
        |i: int|
            if at <= i < at + bytes.len() {
                bytes[i - at]
            } else {
                buf[i]
            },
    )
}

/// The two bytes of `value`, most significant first.
pub open spec fn be16(value: u16) -> Seq<u8> {
    seq![(value / 256) as u8, (value % 256) as u8]
}

/// The number that two bytes spell, most significant first.
pub open spec fn from_be16(bytes: Seq<u8>) -> u16
    recommends
        bytes.len() == 2,
{
    (bytes[0] as int * 256 + bytes[1] as int) as u16
}

/// `count` zero bytes.
pub open spec fn zeros(count: nat) -> Seq<u8> {
    Seq::new(count, |i: int| 0u8)
}

/// An Ethernet II frame: header, then payload.
pub open spec fn ethernet_frame(
    destination: MacAddr,
    source: MacAddr,
    ethertype: u16,
    payload: Seq<u8>,
) -> Seq<u8> {
    destination.octets() + source.octets() + be16(ethertype) + payload
}

pub open spec fn eth_destination(frame: Seq<u8>) -> MacAddr
    recommends
        frame.len() >= ETHERNET_HEADER_LEN,
{
    MacAddr::from_octets(frame.subrange(0, 6))
}

pub open spec fn eth_source(frame: Seq<u8>) -> MacAddr
    recommends
        frame.len() >= ETHERNET_HEADER_LEN,
{
    MacAddr::from_octets(frame.subrange(6, 12))
}

pub open spec fn eth_ethertype(frame: Seq<u8>) -> u16
    recommends
        frame.len() >= ETHERNET_HEADER_LEN,
{
    from_be16(frame.subrange(12, 14))
}

/// What follows the header; empty where the frame holds no more than a header.
pub open spec fn eth_payload(frame: Seq<u8>) -> Seq<u8> {
    if frame.len() <= ETHERNET_HEADER_LEN {
        Seq::empty()
    } else {
        frame.subrange(ETHERNET_HEADER_LEN as int, frame.len() as int)
    }
}

/// The destination address field of an IPv4 header.
pub open spec fn ipv4_destination(packet: Seq<u8>) -> Ipv4Addr
    recommends
        packet.len() >= IPV4_HEADER_LEN,
{
    Ipv4Addr::from_octets(packet.subrange(16, 20))
}

/// The fields of an ARP message for Ethernet and IPv4.
pub struct ArpFields {
    pub hardware_type: u16,
    pub protocol_type: u16,
    pub hw_addr_len: u8,
    pub proto_addr_len: u8,
    pub operation: u16,
    pub sender_hw_addr: MacAddr,
    pub sender_proto_addr: Ipv4Addr,
    pub target_hw_addr: MacAddr,
    pub target_proto_addr: Ipv4Addr,
}

/// The 28 bytes of an ARP message.
pub open spec fn arp_message(fields: ArpFields) -> Seq<u8> {
    be16(fields.hardware_type) + be16(fields.protocol_type) + seq![
        fields.hw_addr_len,
        fields.proto_addr_len,
    ] + be16(fields.operation) + fields.sender_hw_addr.octets()
        + fields.sender_proto_addr.octets() + fields.target_hw_addr.octets()
        + fields.target_proto_addr.octets()
}

/// The fields that the first 28 bytes of `message` spell.
pub open spec fn arp_fields(message: Seq<u8>) -> ArpFields
    recommends
        message.len() >= ARP_MESSAGE_LEN,
{
    ArpFields {
        hardware_type: from_be16(message.subrange(0, 2)),
        protocol_type: from_be16(message.subrange(2, 4)),
        hw_addr_len: message[4],
        proto_addr_len: message[5],
        operation: from_be16(message.subrange(6, 8)),
        sender_hw_addr: MacAddr::from_octets(message.subrange(8, 14)),
        sender_proto_addr: Ipv4Addr::from_octets(message.subrange(14, 18)),
        target_hw_addr: MacAddr::from_octets(message.subrange(18, 24)),
        target_proto_addr: Ipv4Addr::from_octets(message.subrange(24, 28)),
    }
}

/// Splitting a number into two bytes and joining them again gives the number.
pub proof fn lemma_be16_round_trip(value: u16)
    ensures
        be16(value).len() == 2,
        from_be16(be16(value)) == value,
{
}

/// The header fields and the payload of a frame read back as they were
/// written.
pub proof fn lemma_ethernet_frame_fields(
    destination: MacAddr,
    source: MacAddr,
    ethertype: u16,
    payload: Seq<u8>,
)
    ensures
        ethernet_frame(destination, source, ethertype, payload).len() == ETHERNET_HEADER_LEN
            + payload.len(),
        eth_destination(ethernet_frame(destination, source, ethertype, payload)) == destination,
        eth_source(ethernet_frame(destination, source, ethertype, payload)) == source,
        eth_ethertype(ethernet_frame(destination, source, ethertype, payload)) == ethertype,
        eth_payload(ethernet_frame(destination, source, ethertype, payload)) == payload,
{
    let frame = ethernet_frame(destination, source, ethertype, payload);
    lemma_be16_round_trip(ethertype);
    assert(frame.subrange(12, 14) =~= be16(ethertype));
    assert(eth_payload(frame) =~= payload);
}

/// An ARP message has 28 bytes, and its fields read back as they were
/// written.
pub proof fn lemma_arp_message_fields(fields: ArpFields)
    ensures
        arp_message(fields).len() == ARP_MESSAGE_LEN,
        arp_fields(arp_message(fields)) == fields,
{
    let message = arp_message(fields);
    lemma_be16_round_trip(fields.hardware_type);
    lemma_be16_round_trip(fields.protocol_type);
    lemma_be16_round_trip(fields.operation);
    assert(message.subrange(0, 2) =~= be16(fields.hardware_type));
    assert(message.subrange(2, 4) =~= be16(fields.protocol_type));
    assert(message.subrange(6, 8) =~= be16(fields.operation));
}

/// Reading the ARP fields looks at the first 28 bytes only: what follows
/// them, such as padding, changes nothing.
pub proof fn lemma_arp_fields_ignore_tail(message: Seq<u8>, tail: Seq<u8>)
    requires
        message.len() >= ARP_MESSAGE_LEN,
    ensures
        arp_fields(message + tail) == arp_fields(message),
{
    let whole = message + tail;
    assert(whole.subrange(0, 2) =~= message.subrange(0, 2));
    assert(whole.subrange(2, 4) =~= message.subrange(2, 4));
    assert(whole.subrange(6, 8) =~= message.subrange(6, 8));
    assert(whole.subrange(8, 14) =~= message.subrange(8, 14));
    assert(whole.subrange(14, 18) =~= message.subrange(14, 18));
    assert(whole.subrange(18, 24) =~= message.subrange(18, 24));
    assert(whole.subrange(24, 28) =~= message.subrange(24, 28));
}

} // verus!
