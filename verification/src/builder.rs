//! Building ARP frames.

use vstd::prelude::*;
use crate::addr::{Ipv4Addr, MacAddr};
use crate::packet::{
    arp_set_hardware_type, arp_set_hw_addr_len, arp_set_operation, arp_set_proto_addr_len,
    arp_set_protocol_type, arp_set_sender_hw_addr, arp_set_sender_proto_addr,
    arp_set_target_hw_addr, arp_set_target_proto_addr, ethernet_set_destination,
    ethernet_set_ethertype, ethernet_set_payload, ethernet_set_source,
};
use crate::wire::{
    arp_fields, arp_message, eth_destination, eth_ethertype, eth_payload, eth_source,
    ethernet_frame, lemma_arp_fields_ignore_tail, lemma_arp_message_fields,
    lemma_ethernet_frame_fields, zeros, ArpFields, ARP_HARDWARE_ETHERNET, ARP_MESSAGE_LEN,
    ARP_OPERATION_REPLY, ETHERNET_HEADER_LEN, ETHERTYPE_ARP, ETHERTYPE_IPV4, MIN_FRAME_LEN,
};

verus! {

/// The fields of the ARP message, for Ethernet and IPv4, in which the sender
/// claims that `sender_proto_addr` is reached at `sender_hw_addr`.
pub open spec fn arp_claim(
    sender_hw_addr: MacAddr,
    sender_proto_addr: Ipv4Addr,
    target_hw_addr: MacAddr,
    target_proto_addr: Ipv4Addr,
    operation: u16,
) -> ArpFields {
    ArpFields {
        hardware_type: ARP_HARDWARE_ETHERNET,
        protocol_type: ETHERTYPE_IPV4,
        hw_addr_len: 6,
        proto_addr_len: 4,
        operation,
        sender_hw_addr,
        sender_proto_addr,
        target_hw_addr,
        target_proto_addr,
    }
}

/// The 60 bytes of an ARP frame: an Ethernet header from the sender to the
/// target with ethertype ARP, the ARP message, and zero padding up to the
/// least frame length.
#[verifier::opaque]
pub open spec fn arp_frame(
    sender_hw_addr: MacAddr,
    sender_proto_addr: Ipv4Addr,
    target_hw_addr: MacAddr,
    target_proto_addr: Ipv4Addr,
    operation: u16,
) -> Seq<u8> {
    ethernet_frame(
        target_hw_addr,
        sender_hw_addr,
        ETHERTYPE_ARP,
        arp_message(
            arp_claim(
                sender_hw_addr,
                sender_proto_addr,
                target_hw_addr,
                target_proto_addr,
                operation,
            ),
        ) + zeros(18),
    )
}

/// Whether every byte of `frame` from index `start` on is zero.
pub open spec fn zero_from(frame: Seq<u8>, start: int) -> bool {
    forall|i: int| start <= i < frame.len() ==> #[trigger] frame[i] == 0
}

/// The forged reply: an ARP frame whose operation is Reply.
pub open spec fn arp_reply_frame(
    sender_hw: MacAddr,
    sender_proto: Ipv4Addr,
    recipient_hw: MacAddr,
    recipient_proto: Ipv4Addr,
) -> Seq<u8> {
    arp_frame(sender_hw, sender_proto, recipient_hw, recipient_proto, ARP_OPERATION_REPLY)
}

/// An ARP frame has exactly 60 bytes, goes from the sender to the target
/// with ethertype ARP, and the ARP message in it reads back as Ethernet,
/// IPv4, the address lengths 6 and 4, the operation and the four addresses
/// that it was built from. What follows the message is zero.
pub proof fn lemma_arp_frame_parses_back(
    sender_hw_addr: MacAddr,
    sender_proto_addr: Ipv4Addr,
    target_hw_addr: MacAddr,
    target_proto_addr: Ipv4Addr,
    operation: u16,
)
    ensures
        ({
            let frame = arp_frame(
                sender_hw_addr,
                sender_proto_addr,
                target_hw_addr,
                target_proto_addr,
                operation,
            );
            &&& frame.len() == MIN_FRAME_LEN
            &&& eth_destination(frame) == target_hw_addr
            &&& eth_source(frame) == sender_hw_addr
            &&& eth_ethertype(frame) == ETHERTYPE_ARP
            &&& arp_fields(eth_payload(frame)) == arp_claim(
                sender_hw_addr,
                sender_proto_addr,
                target_hw_addr,
                target_proto_addr,
                operation,
            )
            &&& zero_from(frame, ETHERNET_HEADER_LEN + ARP_MESSAGE_LEN)
        }),
{
    let claim = arp_claim(
        sender_hw_addr,
        sender_proto_addr,
        target_hw_addr,
        target_proto_addr,
        operation,
    );
    let message = arp_message(claim);
    reveal(arp_frame);
    lemma_arp_message_fields(claim);
    lemma_ethernet_frame_fields(target_hw_addr, sender_hw_addr, ETHERTYPE_ARP, message + zeros(18));
    lemma_arp_fields_ignore_tail(message, zeros(18));
}

/// Builds the Ethernet frame that carries one ARP message for Ethernet and
/// IPv4 from `sender_hw_addr` to `target_hw_addr`.
pub fn create_arp_packet(
    sender_hw_addr: MacAddr,
    sender_proto_addr: Ipv4Addr,
    target_hw_addr: MacAddr,
    target_proto_addr: Ipv4Addr,
    operation: u16,
) -> (frame: Vec<u8>)
    ensures
        frame@ == arp_frame(
            sender_hw_addr,
            sender_proto_addr,
            target_hw_addr,
            target_proto_addr,
            operation,
        ),
        frame@.len() == MIN_FRAME_LEN,
        eth_destination(frame@) == target_hw_addr,
        eth_source(frame@) == sender_hw_addr,
        eth_ethertype(frame@) == ETHERTYPE_ARP,
        arp_fields(eth_payload(frame@)) == arp_claim(
            sender_hw_addr,
            sender_proto_addr,
            target_hw_addr,
            target_proto_addr,
            operation,
        ),
        zero_from(frame@, ETHERNET_HEADER_LEN + ARP_MESSAGE_LEN),
{
    let mut frame: Vec<u8> = vec![0u8; MIN_FRAME_LEN];
    ethernet_set_ethertype(&mut frame, ETHERTYPE_ARP);
    ethernet_set_source(&mut frame, sender_hw_addr);
    ethernet_set_destination(&mut frame, target_hw_addr);

    let mut message: Vec<u8> = vec![0u8; ARP_MESSAGE_LEN];
    arp_set_hardware_type(&mut message, ARP_HARDWARE_ETHERNET);
    arp_set_protocol_type(&mut message, ETHERTYPE_IPV4);
    arp_set_hw_addr_len(&mut message, 6);
    arp_set_proto_addr_len(&mut message, 4);
    arp_set_operation(&mut message, operation);
    arp_set_sender_hw_addr(&mut message, sender_hw_addr);
    arp_set_sender_proto_addr(&mut message, sender_proto_addr);
    arp_set_target_hw_addr(&mut message, target_hw_addr);
    arp_set_target_proto_addr(&mut message, target_proto_addr);
    proof {
        assert(message@ =~= arp_message(
            arp_claim(
                sender_hw_addr,
                sender_proto_addr,
                target_hw_addr,
                target_proto_addr,
                operation,
            ),
        ));
    }

    ethernet_set_payload(&mut frame, message.as_slice());
    proof {
        reveal(arp_frame);
        assert(frame@ =~= arp_frame(
            sender_hw_addr,
            sender_proto_addr,
            target_hw_addr,
            target_proto_addr,
            operation,
        ));
        lemma_arp_frame_parses_back(
            sender_hw_addr,
            sender_proto_addr,
            target_hw_addr,
            target_proto_addr,
            operation,
        );
    }
    frame
}

/// Builds the forged ARP reply in which `sender_hw` claims to own
/// `sender_proto`, addressed to `recipient_hw`.
pub fn build_arp_reply(
    sender_hw: MacAddr,
    sender_proto: Ipv4Addr,
    recipient_hw: MacAddr,
    recipient_proto: Ipv4Addr,
) -> (frame: Vec<u8>)
    ensures
        frame@ == arp_reply_frame(sender_hw, sender_proto, recipient_hw, recipient_proto),
        frame@.len() == MIN_FRAME_LEN,
        eth_destination(frame@) == recipient_hw,
        eth_source(frame@) == sender_hw,
        eth_ethertype(frame@) == ETHERTYPE_ARP,
        arp_fields(eth_payload(frame@)) == arp_claim(
            sender_hw,
            sender_proto,
            recipient_hw,
            recipient_proto,
            ARP_OPERATION_REPLY,
        ),
        zero_from(frame@, ETHERNET_HEADER_LEN + ARP_MESSAGE_LEN),
{
    create_arp_packet(sender_hw, sender_proto, recipient_hw, recipient_proto, ARP_OPERATION_REPLY)
}

} // verus!
