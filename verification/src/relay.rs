//! The relay engine: which captured frames are passed on, and how they are
//! re-addressed.

use vstd::prelude::*;
use crate::addr::{Ipv4Addr, MacAddr};
use crate::config::{AddressConfig, AddressConfigView};
use crate::packet::{
    ethernet_clone_from, ethernet_ethertype, ethernet_payload, ethernet_set_destination,
    ethernet_set_source, ethernet_source, ipv4_packet_destination,
};
use crate::wire::{
    eth_ethertype, eth_payload, eth_source, ethernet_frame, ipv4_destination,
    lemma_ethernet_frame_fields, ETHERNET_HEADER_LEN, ETHERTYPE_ARP, ETHERTYPE_IPV4,
    IPV4_HEADER_LEN,
};

verus! {

/// Whether a captured frame can be classified: it holds an Ethernet header
/// and enough payload for the fixed part of an IPv4 header. The payload is
/// read as such a header whatever the ethertype says.
pub open spec fn classifiable(frame: Seq<u8>) -> bool {
    frame.len() >= ETHERNET_HEADER_LEN + IPV4_HEADER_LEN
}

/// `frame` with its link-layer addresses replaced, ethertype and payload
/// untouched.
pub open spec fn readdressed(frame: Seq<u8>, source: MacAddr, destination: MacAddr) -> Seq<u8> {
    ethernet_frame(destination, source, eth_ethertype(frame), eth_payload(frame))
}

/// What the relay does with one captured frame: the frame to send on, or
/// `None` where the frame is dropped.
///
/// A frame from the target that is not ARP goes to the gateway. Otherwise a
/// frame from the gateway that is not ARP and whose IPv4 destination is the
/// target goes to the target. Either is sent with this host as its source.
/// Everything else is dropped, and so is a frame too short to classify.
pub open spec fn relay_decision(config: AddressConfigView, frame: Seq<u8>) -> Option<Seq<u8>> {
    if !classifiable(frame) {
        None
    } else if eth_source(frame) == config.target_mac && eth_ethertype(frame) != ETHERTYPE_ARP {
        Some(readdressed(frame, config.host_mac, config.gateway_mac))
    } else if eth_source(frame) == config.gateway_mac && ipv4_destination(eth_payload(frame))
        == config.target_ip && eth_ethertype(frame) != ETHERTYPE_ARP {
        Some(readdressed(frame, config.host_mac, config.target_mac))
    } else {
        None
    }
}

/// An IPv4 frame from the target, whatever its destination and payload, is
/// relayed from this host to the gateway with the payload unchanged, as long
/// as the payload can hold an IPv4 header.
pub proof fn lemma_relay_outward(
    config: AddressConfigView,
    destination: MacAddr,
    payload: Seq<u8>,
)
    requires
        payload.len() >= IPV4_HEADER_LEN,
    ensures
        relay_decision(
            config,
            ethernet_frame(destination, config.target_mac, ETHERTYPE_IPV4, payload),
        ) == Some(ethernet_frame(config.gateway_mac, config.host_mac, ETHERTYPE_IPV4, payload)),
{
    lemma_ethernet_frame_fields(destination, config.target_mac, ETHERTYPE_IPV4, payload);
}

/// An IPv4 frame from the gateway whose IPv4 destination is the target is
/// relayed from this host to the target with the payload unchanged.
pub proof fn lemma_relay_inward(config: AddressConfigView, destination: MacAddr, payload: Seq<u8>)
    requires
        payload.len() >= IPV4_HEADER_LEN,
        ipv4_destination(payload) == config.target_ip,
    ensures
        relay_decision(
            config,
            ethernet_frame(destination, config.gateway_mac, ETHERTYPE_IPV4, payload),
        ) == Some(ethernet_frame(config.target_mac, config.host_mac, ETHERTYPE_IPV4, payload)),
{
    lemma_ethernet_frame_fields(destination, config.gateway_mac, ETHERTYPE_IPV4, payload);
}

/// A frame that comes neither from the target nor from the gateway is never
/// forwarded.
pub proof fn lemma_relay_drops_strangers(config: AddressConfigView, frame: Seq<u8>)
    requires
        eth_source(frame) != config.target_mac,
        eth_source(frame) != config.gateway_mac,
    ensures
        relay_decision(config, frame) is None,
{
}

/// An ARP frame is never forwarded, whoever sent it and wherever it goes.
pub proof fn lemma_relay_drops_arp(config: AddressConfigView, frame: Seq<u8>)
    requires
        eth_ethertype(frame) == ETHERTYPE_ARP,
    ensures
        relay_decision(config, frame) is None,
{
}

/// A forwarded frame has the length of the captured one, this host as its
/// source, and the captured frame's ethertype and payload.
pub proof fn lemma_relay_keeps_payload(config: AddressConfigView, frame: Seq<u8>)
    requires
        relay_decision(config, frame) is Some,
    ensures
        relay_decision(config, frame).unwrap().len() == frame.len(),
        eth_source(relay_decision(config, frame).unwrap()) == config.host_mac,
        eth_ethertype(relay_decision(config, frame).unwrap()) == eth_ethertype(frame),
        eth_payload(relay_decision(config, frame).unwrap()) == eth_payload(frame),
{
    lemma_ethernet_frame_fields(
        config.gateway_mac,
        config.host_mac,
        eth_ethertype(frame),
        eth_payload(frame),
    );
    lemma_ethernet_frame_fields(
        config.target_mac,
        config.host_mac,
        eth_ethertype(frame),
        eth_payload(frame),
    );
}

/// A copy of `frame` with new link-layer addresses.
fn readdress(frame: &[u8], source: MacAddr, destination: MacAddr) -> (out: Vec<u8>)
    requires
        frame@.len() >= ETHERNET_HEADER_LEN,
    ensures
        out@ == readdressed(frame@, source, destination),
{
    let mut out: Vec<u8> = vec![0u8; frame.len()];
    ethernet_clone_from(&mut out, frame);
    ethernet_set_source(&mut out, source);
    ethernet_set_destination(&mut out, destination);
    proof {
        assert(out@ =~= readdressed(frame@, source, destination));
    }
    out
}

impl AddressConfig {
    /// Classifies one captured frame and gives the frame to send in its
    /// place, or `None` where nothing is to be sent.
    pub fn route_intercepted_packet(&self, frame: &[u8]) -> (out: Option<Vec<u8>>)
        ensures
            out is Some <==> relay_decision(self@, frame@) is Some,
            out is Some ==> out.unwrap()@ == relay_decision(self@, frame@).unwrap(),
    {
        if frame.len() < ETHERNET_HEADER_LEN + IPV4_HEADER_LEN {
            return None;
        }
        let source = ethernet_source(frame);
        let ethertype = ethernet_ethertype(frame);
        let payload = ethernet_payload(frame);
        let ip_destination = ipv4_packet_destination(payload.as_slice());
        if source == self.target_mac() && ethertype != ETHERTYPE_ARP {
            Some(readdress(frame, self.host_mac(), self.gateway_mac()))
        } else if source == self.gateway_mac() && ip_destination == self.target_ip() && ethertype
            != ETHERTYPE_ARP {
            Some(readdress(frame, self.host_mac(), self.target_mac()))
        } else {
            None
        }
    }
}

} // verus!
