use std::collections::BTreeMap;

use vstd::prelude::*;
use vstd::std_specs::convert::FromSpecImpl;

use crate::address::{Address, NetAddress, address_of_port};
use crate::artnet::{
    ArtCommand, ArtCommandView, DmxPacket, PollReply, PollRequest, dmx_packet_view, has_id_and_op_code,
    is_dmx_packet,
    is_poll_packet, is_poll_reply_packet, poll_packet_request,
    is_truncated_packet, packet_view, parse_packet, poll_reply_packet_fields,
    poll_reply_bytes, lemma_poll_reply_bytes_read, serialize_poll_reply,
};
use crate::payload::{bytes_copy_from_slice, bytes_view};
use crate::ArtnetEvent;

verus! {

/// Whether an ArtDmx packet with sequence number `current` is newer than the last
/// one accepted for its universe (`previous`): none was accepted yet, or the
/// number went up, or it went down by more than half the range (it wrapped).
pub open spec fn sequence_accepted(previous: Option<u8>, current: u8) -> bool {
    match previous {
        None => true,
        Some(p) => current > p || p - current > 127,
    }
}

/// The key under which a receiver keeps the last sequence number of an address.
pub open spec fn address_key(a: Address) -> (u8, u8, u8) {
    (a.net.net, a.net.sub_net, a.universe.0)
}

/// The error a receiver stops with when its user has gone away.
#[derive(Debug)]
pub struct ArtnetReceiverError {
    message: String,
}

impl ArtnetReceiverError {
    /// The text of the error.
    pub closed spec fn text(&self) -> Seq<char> {
        self.message@
    }

    /// What went wrong.
    pub fn message(&self) -> (r: &str)
        ensures
            r@ == self.text(),
    {
        self.message.as_str()
    }
}

impl From<String> for ArtnetReceiverError {
    fn from(message: String) -> (r: ArtnetReceiverError)
        ensures
            r.text() == message@,
    {
        ArtnetReceiverError { message }
    }
}

impl FromSpecImpl<String> for ArtnetReceiverError {
    open spec fn obeys_from_spec() -> bool {
        true
    }

    closed spec fn from_spec(v: String) -> ArtnetReceiverError {
        ArtnetReceiverError { message: v }
    }
}

impl From<&str> for ArtnetReceiverError {
    fn from(message: &str) -> (r: ArtnetReceiverError)
        ensures
            r.text() == message@,
    {
        ArtnetReceiverError { message: message.to_owned() }
    }
}

impl FromSpecImpl<&str> for ArtnetReceiverError {
    /// Not given as a spec function: a `String` cannot be built from a `&str` in
    /// spec code; `from` itself states the text.
    closed spec fn obeys_from_spec() -> bool {
        false
    }

    closed spec fn from_spec(v: &str) -> ArtnetReceiverError {
        arbitrary()
    }
}

/// What a receiver asks its caller to do with a packet it was handed.
#[derive(Debug)]
pub enum ReceiverAction {
    /// Hand this event to the user, and once it has been delivered, record
    /// `sequence` as the last one of `address` with `record_delivered`.
    Forward { event: ArtnetEvent, address: Address, sequence: u8 },
    /// Send these bytes back to where the packet came from.
    Reply(Vec<u8>),
    /// An ArtDmx packet no newer than the last one accepted for its universe: dropped.
    OutOfOrder,
    /// An Art-Net packet that a receiver does not act on.
    Unhandled(ArtCommand),
    /// Not an Art-Net packet that this client reads.
    NotArtnet,
}

/// The state of an Art-Net node that receives DMX data: its own Net and Sub-Net,
/// and the last sequence number accepted for each universe.
pub struct ReceiverState {
    address: NetAddress,
    seq: BTreeMap<(u8, u8, u8), u8>,
}

impl View for ReceiverState {
    type V = Map<Address, u8>;

    /// The last sequence number accepted for each universe.
    closed spec fn view(&self) -> Map<Address, u8> {
        Map::new(
            |a: Address| self.seq@.contains_key(address_key(a)),
            |a: Address| self.seq@[address_key(a)],
        )
    }
}

/// The ArtPollReply with which a node at `address` answers an ArtPoll.
pub open spec fn poll_reply_for(address: NetAddress) -> Seq<u8> {
    poll_reply_bytes(address.net, address.sub_net)
}

/// How a receiver whose delivered sequence numbers are `old` handles an ArtDmx
/// packet: it forwards the data, with the sequence number to record once the
/// data is delivered, when the packet is newer than the last one delivered for
/// its universe, and drops it otherwise.
pub open spec fn dmx_handled(
    old: Map<Address, u8>,
    sequence: u8,
    port_address: tiny_artnet::PortAddress,
    data: Seq<u8>,
    action: ReceiverAction,
) -> bool {
    let address = address_of_port(port_address);
    if sequence_accepted(old.get(address), sequence) {
        &&& action matches ReceiverAction::Forward {
            event: ArtnetEvent::Data { address: a, data: d },
            address: to_record,
            sequence: s,
        }
        &&& a == address
        &&& to_record == address
        &&& s == sequence
        &&& bytes_view(d) == data
    } else {
        action is OutOfOrder
    }
}

/// The delivered sequence numbers after `action` was carried out: a forwarded
/// event, once delivered, records its sequence number; nothing else changes them.
pub open spec fn delivered(old: Map<Address, u8>, action: ReceiverAction) -> Map<Address, u8> {
    match action {
        ReceiverAction::Forward { address, sequence, .. } => old.insert(address, sequence),
        _ => old,
    }
}

/// How a receiver at `own` whose accepted sequence numbers are `old` handles a
/// packet that it has read as `command`.
pub open spec fn command_handled(
    own: NetAddress,
    old: Map<Address, u8>,
    command: ArtCommandView,
    action: ReceiverAction,
) -> bool {
    match command {
        ArtCommandView::Dmx { sequence, physical, port_address, data } => dmx_handled(
            old,
            sequence,
            port_address,
            data,
            action,
        ),
        ArtCommandView::Poll(_) => {
            &&& action matches ReceiverAction::Reply(b)
            &&& b@ == poll_reply_for(own)
        },
        _ => {
            &&& action matches ReceiverAction::Unhandled(c)
            &&& c@ == command
        },
    }
}

impl ReceiverState {
    /// A receiver for the node at `address` that has accepted no data yet.
    pub fn new(address: NetAddress) -> (r: ReceiverState)
        ensures
            r.address() == address,
            r@ == Map::<Address, u8>::empty(),
    {
        let r = ReceiverState { address, seq: BTreeMap::new() };
        assert(r@ =~= Map::<Address, u8>::empty());
        r
    }

    /// The Net and Sub-Net of this node.
    pub closed spec fn address(&self) -> NetAddress {
        self.address
    }

    /// The Net and Sub-Net of this node.
    pub fn net_address(&self) -> (r: NetAddress)
        ensures
            r == self.address(),
    {
        self.address
    }

    /// The last sequence number accepted for `address`, if any.
    pub fn last_sequence(&self, address: Address) -> (r: Option<u8>)
        ensures
            r == self@.get(address),
    {
        match self.seq.get(&(address.net.net, address.net.sub_net, address.universe.0)) {
            Some(s) => Some(*s),
            None => None,
        }
    }

    /// Handles an ArtDmx packet: forwards its data to the user when it is newer
    /// than the last packet delivered for its universe, and drops it otherwise.
    /// The receiver does not change: the caller records the sequence number
    /// with `record_delivered` once the data has been delivered.
    pub fn handle_dmx(&self, dmx: DmxPacket) -> (r: ReceiverAction)
        ensures
            dmx_handled(self@, dmx.sequence, dmx.port_address, dmx.data@, r),
    {
        let address = Address::from(dmx.port_address);
        let accept = match self.last_sequence(address) {
            Some(prev_seq) => {
                let curr_seq = dmx.sequence;
                // either the sequence has advanced, or wrapped around
                curr_seq > prev_seq || prev_seq - curr_seq > 127
            },
            // never seen the sequence before
            None => true,
        };
        if accept {
            let data = bytes_copy_from_slice(dmx.data.as_slice());
            ReceiverAction::Forward {
                event: ArtnetEvent::Data { address, data },
                address,
                sequence: dmx.sequence,
            }
        } else {
            ReceiverAction::OutOfOrder
        }
    }

    /// Records `sequence` as the last sequence number delivered for `address`.
    pub fn record_delivered(&mut self, address: Address, sequence: u8)
        ensures
            final(self).address() == old(self).address(),
            final(self)@ == old(self)@.insert(address, sequence),
    {
        let key = (address.net.net, address.net.sub_net, address.universe.0);
        let ghost before = self@;
        self.seq.insert(key, sequence);
        assert(self@ =~= before.insert(address, sequence)) by {
            assert forall|a: Address| #![auto] address_key(a) == key implies a == address by {}
        }
    }

    /// Handles an ArtPoll: answers with an ArtPollReply that announces this
    /// node's Net and Sub-Net.
    pub fn handle_poll(&self, _poll: &PollRequest) -> (r: Vec<u8>)
        ensures
            r@ == poll_reply_for(self.address()),
            is_poll_reply_packet(r@),
            packet_view(r@) == Some(
                ArtCommandView::PollReply(
                    PollReply { net_switch: self.address().net, sub_switch: self.address().sub_net },
                ),
            ),
    {
        let r = serialize_poll_reply(self.address.net, self.address.sub_net);
        proof {
            lemma_poll_reply_bytes_read(self.address.net, self.address.sub_net);
        }
        r
    }

    /// Handles a packet that has been read as `command`.
    pub fn handle_command(&self, command: ArtCommand) -> (r: ReceiverAction)
        ensures
            command_handled(self.address(), self@, command@, r),
    {
        match command {
            ArtCommand::Dmx(dmx) => self.handle_dmx(dmx),
            ArtCommand::Poll(poll) => ReceiverAction::Reply(self.handle_poll(&poll)),
            command => ReceiverAction::Unhandled(command),
        }
    }

    /// Handles a packet as it came off the network.
    pub fn handle_packet(&self, data: &[u8]) -> (r: ReceiverAction)
        requires
            !is_truncated_packet(data@),
        ensures
            packet_view(data@) is None ==> r is NotArtnet,
            !has_id_and_op_code(data@) ==> r is NotArtnet,
            packet_view(data@) matches Some(c) ==> command_handled(self.address(), self@, c, r),
            is_dmx_packet(data@) ==> command_handled(
                self.address(),
                self@,
                dmx_packet_view(data@),
                r,
            ),
            is_poll_packet(data@) ==> command_handled(
                self.address(),
                self@,
                ArtCommandView::Poll(poll_packet_request(data@)),
                r,
            ),
    {
        match parse_packet(data) {
            Ok(command) => self.handle_command(command),
            Err(_) => ReceiverAction::NotArtnet,
        }
    }
}

} // verus!
