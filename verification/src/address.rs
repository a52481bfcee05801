use vstd::prelude::*;
use vstd::std_specs::cmp::PartialEqSpecImpl;
use vstd::std_specs::convert::FromSpecImpl;

use crate::artnet::PollReply;

verus! {

/// The Net and Sub-Net part of an Art-Net Port-Address: the part that
/// identifies a node on the network.
#[derive(Debug, Clone, Copy, PartialEq, Eq, PartialOrd, Ord, Hash, Structural)]
pub struct NetAddress {
    pub net: u8,
    pub sub_net: u8,
}

/// The Universe part of an Art-Net Port-Address.
#[derive(Debug, Clone, Copy, PartialEq, Eq, PartialOrd, Ord, Hash, Structural)]
pub struct Universe(pub u8);

/// A full Art-Net Port-Address: a node's Net and Sub-Net and one of its universes.
#[derive(Debug, Clone, Copy, PartialEq, Eq, PartialOrd, Ord, Hash, Structural)]
pub struct Address {
    pub net: NetAddress,
    pub universe: Universe,
}

/// The Net field (bits 8-14) of a 16-bit Port-Address.
pub open spec fn port_net_bits(value: u16) -> u8 {
    ((value / 256) % 128) as u8
}

/// The Sub-Net field (bits 4-7) of a 16-bit Port-Address.
pub open spec fn port_sub_net_bits(value: u16) -> u8 {
    ((value / 16) % 16) as u8
}

/// The Universe field (bits 0-3) of a 16-bit Port-Address.
pub open spec fn port_universe_bits(value: u16) -> u8 {
    (value % 16) as u8
}

/// The address that a 16-bit Port-Address denotes; bit 15 is ignored.
pub open spec fn address_from_port_bits(value: u16) -> Address {
    Address {
        net: NetAddress { net: port_net_bits(value), sub_net: port_sub_net_bits(value) },
        universe: Universe(port_universe_bits(value)),
    }
}

impl NetAddress {
    /// The node address with the given Net and Sub-Net.
    pub fn new(net: u8, sub_net: u8) -> (r: NetAddress)
        ensures
            r.net == net,
            r.sub_net == sub_net,
    {
        NetAddress { net, sub_net }
    }
}

impl Address {
    /// The address of universe `universe` of the node at `net`.
    pub fn new(net: NetAddress, universe: Universe) -> (r: Address)
        ensures
            r.net == net,
            r.universe == universe,
    {
        Address { net, universe }
    }
}

impl core::ops::Deref for Universe {
    type Target = u8;

    fn deref(&self) -> (r: &u8)
        ensures
            *r == self.0,
    {
        &self.0
    }
}

impl From<u8> for Universe {
    fn from(value: u8) -> (r: Universe) {
        Universe(value)
    }
}

impl FromSpecImpl<u8> for Universe {
    open spec fn obeys_from_spec() -> bool {
        true
    }

    open spec fn from_spec(v: u8) -> Universe {
        Universe(v)
    }
}

impl From<Universe> for u8 {
    fn from(value: Universe) -> (r: u8) {
        value.0
    }
}

impl FromSpecImpl<Universe> for u8 {
    open spec fn obeys_from_spec() -> bool {
        true
    }

    open spec fn from_spec(v: Universe) -> u8 {
        v.0
    }
}

impl From<(NetAddress, Universe)> for Address {
    fn from(value: (NetAddress, Universe)) -> (r: Address) {
        Address { net: value.0, universe: value.1 }
    }
}

impl FromSpecImpl<(NetAddress, Universe)> for Address {
    open spec fn obeys_from_spec() -> bool {
        true
    }

    open spec fn from_spec(v: (NetAddress, Universe)) -> Address {
        Address { net: v.0, universe: v.1 }
    }
}

impl From<Address> for (NetAddress, Universe) {
    fn from(value: Address) -> (r: (NetAddress, Universe)) {
        (value.net, value.universe)
    }
}

impl FromSpecImpl<Address> for (NetAddress, Universe) {
    open spec fn obeys_from_spec() -> bool {
        true
    }

    open spec fn from_spec(v: Address) -> (NetAddress, Universe) {
        (v.net, v.universe)
    }
}

impl From<u16> for Address {
    /// Splits a 16-bit Port-Address, laid out as
    /// `| 15: 0 | 14-8: Net | 7-4: Sub-Net | 3-0: Universe |`.
    fn from(value: u16) -> (r: Address) {
        let net: u8 = ((value >> 8u16) & 0x7Fu16) as u8;
        let sub_net: u8 = ((value >> 4u16) & 0x0Fu16) as u8;
        let universe: u8 = (value & 0x0Fu16) as u8;
        assert(((value >> 8u16) & 0x7Fu16) == (value / 256) % 128) by (bit_vector);
        assert(((value >> 4u16) & 0x0Fu16) == (value / 16) % 16) by (bit_vector);
        assert((value & 0x0Fu16) == value % 16) by (bit_vector);
        Address { net: NetAddress { net, sub_net }, universe: Universe(universe) }
    }
}

impl FromSpecImpl<u16> for Address {
    open spec fn obeys_from_spec() -> bool {
        true
    }

    open spec fn from_spec(v: u16) -> Address {
        address_from_port_bits(v)
    }
}

impl PartialEq<NetAddress> for Address {
    /// An address equals a Net/Sub-Net pair when its own Net and Sub-Net are that pair.
    fn eq(&self, other: &NetAddress) -> (r: bool) {
        self.net.net == other.net && self.net.sub_net == other.sub_net
    }
}

impl PartialEqSpecImpl<NetAddress> for Address {
    open spec fn obeys_eq_spec() -> bool {
        true
    }

    open spec fn eq_spec(&self, other: &NetAddress) -> bool {
        self.net == *other
    }
}

/// The address that a `tiny_artnet` Port-Address names.
pub open spec fn address_of_port(p: tiny_artnet::PortAddress) -> Address {
    Address { net: NetAddress { net: p.net, sub_net: p.sub_net }, universe: Universe(p.universe) }
}

/// The `tiny_artnet` Port-Address of an address.
pub open spec fn port_of_address(a: Address) -> tiny_artnet::PortAddress {
    tiny_artnet::PortAddress { net: a.net.net, sub_net: a.net.sub_net, universe: a.universe.0 }
}

impl From<tiny_artnet::PortAddress> for Address {
    fn from(value: tiny_artnet::PortAddress) -> (r: Address) {
        let net = NetAddress::new(value.net, value.sub_net);
        let universe = Universe(value.universe);
        Address { net, universe }
    }
}

impl FromSpecImpl<tiny_artnet::PortAddress> for Address {
    open spec fn obeys_from_spec() -> bool {
        true
    }

    open spec fn from_spec(v: tiny_artnet::PortAddress) -> Address {
        address_of_port(v)
    }
}

impl From<Address> for tiny_artnet::PortAddress {
    fn from(value: Address) -> (r: tiny_artnet::PortAddress) {
        tiny_artnet::PortAddress {
            sub_net: value.net.sub_net,
            net: value.net.net,
            universe: value.universe.0,
        }
    }
}

impl FromSpecImpl<Address> for tiny_artnet::PortAddress {
    open spec fn obeys_from_spec() -> bool {
        true
    }

    open spec fn from_spec(v: Address) -> tiny_artnet::PortAddress {
        port_of_address(v)
    }
}

impl From<PollReply> for NetAddress {
    /// The Net and Sub-Net that a node announces in its ArtPollReply.
    fn from(value: PollReply) -> (r: NetAddress) {
        let net = value.net_switch;
        let sub_net = value.sub_switch;
        NetAddress { net, sub_net }
    }
}

impl FromSpecImpl<PollReply> for NetAddress {
    open spec fn obeys_from_spec() -> bool {
        true
    }

    open spec fn from_spec(v: PollReply) -> NetAddress {
        NetAddress { net: v.net_switch, sub_net: v.sub_switch }
    }
}

} // verus!
