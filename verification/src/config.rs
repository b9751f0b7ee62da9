//! The identity record: the addresses that both engines work from.

use vstd::prelude::*;
use crate::addr::{Ipv4Addr, MacAddr};

verus! {

/// What an `AddressConfig` holds, as plain values.
pub struct AddressConfigView {
    pub interface_name: Seq<char>,
    pub target_ip: Ipv4Addr,
    pub target_mac: MacAddr,
    pub gateway_ip: Ipv4Addr,
    pub gateway_mac: MacAddr,
    pub host_mac: MacAddr,
}

/// The resolved addresses of one interception: the interface to work on, the
/// target, its gateway, and this host's own hardware address on the
/// interface. It is built once and never changed; each engine gets a copy.
#[derive(Debug)]
pub struct AddressConfig {
    interface_name: String,
    target_mac: MacAddr,
    target_ip: Ipv4Addr,
    gateway_ip: Ipv4Addr,
    gateway_mac: MacAddr,
    host_mac: MacAddr,
}

impl View for AddressConfig {
    type V = AddressConfigView;

    closed spec fn view(&self) -> AddressConfigView {
        AddressConfigView {
            interface_name: self.interface_name@,
            target_ip: self.target_ip,
            target_mac: self.target_mac,
            gateway_ip: self.gateway_ip,
            gateway_mac: self.gateway_mac,
            host_mac: self.host_mac,
        }
    }
}

impl Clone for AddressConfig {
    /// A copy of the record for another engine, equal field by field.
    fn clone(&self) -> (copy: AddressConfig)
        ensures
            copy@ == self@,
    {
        AddressConfig {
            interface_name: self.interface_name.clone(),
            target_mac: self.target_mac,
            target_ip: self.target_ip,
            gateway_ip: self.gateway_ip,
            gateway_mac: self.gateway_mac,
            host_mac: self.host_mac,
        }
    }
}

impl AddressConfig {
    /// Puts the record together. `host_mac` is the hardware address of the
    /// interface named `interface_name`, as the system reports it.
    pub fn new(
        interface_name: &str,
        target_ip: Ipv4Addr,
        target_mac: MacAddr,
        gateway_ip: Ipv4Addr,
        gateway_mac: MacAddr,
        host_mac: MacAddr,
    ) -> (config: AddressConfig)
        ensures
            config@ == (AddressConfigView {
                interface_name: interface_name@,
                target_ip,
                target_mac,
                gateway_ip,
                gateway_mac,
                host_mac,
            }),
    {
        AddressConfig {
            interface_name: interface_name.to_owned(),
            target_mac,
            target_ip,
            gateway_ip,
            gateway_mac,
            host_mac,
        }
    }

    pub fn interface_name(&self) -> (name: &str)
        ensures
            name@ == self@.interface_name,
    {
        self.interface_name.as_str()
    }

    pub fn target_ip(&self) -> (ip: Ipv4Addr)
        ensures
            ip == self@.target_ip,
    {
        self.target_ip
    }

    pub fn target_mac(&self) -> (mac: MacAddr)
        ensures
            mac == self@.target_mac,
    {
        self.target_mac
    }

    pub fn gateway_ip(&self) -> (ip: Ipv4Addr)
        ensures
            ip == self@.gateway_ip,
    {
        self.gateway_ip
    }

    pub fn gateway_mac(&self) -> (mac: MacAddr)
        ensures
            mac == self@.gateway_mac,
    {
        self.gateway_mac
    }

    pub fn host_mac(&self) -> (mac: MacAddr)
        ensures
            mac == self@.host_mac,
    {
        self.host_mac
    }
}

} // verus!
