use std::collections::BTreeMap;

use vstd::prelude::*;

use crate::address::{Address, NetAddress, port_of_address};
use crate::artnet::{
    ArtCommand, ArtCommandView, PollReply, dmx_packet_bytes, has_id_and_op_code,
    is_truncated_packet, packet_result, parse_packet, poll_packet_bytes, serialize_dmx,
    serialize_poll,
};
use crate::payload::{bytes_as_slice, bytes_view};

verus! {

/// The size of the buffer that one outgoing packet is written into.
pub const PACKET_BUFFER_LEN: usize = 1024;

/// The size of the ArtDmx header that precedes the channel data.
pub const DMX_HEADER_LEN: usize = 18;

/// The sequence number that follows `s`; after 255 comes 0.
pub open spec fn next_sequence(s: u8) -> u8 {
    if s == 255 {
        0
    } else {
        (s + 1) as u8
    }
}

/// The sequence number a producer starts from when it learns of a node; the
/// first packet it sends there carries the next one.
pub const FIRST_SEQUENCE: u8 = 1;

/// The key under which a producer keeps what it knows of a node.
pub open spec fn net_key(n: NetAddress) -> (u8, u8) {
    (n.net, n.sub_net)
}

/// The error a producer stops with: a packet it could not read.
#[derive(Debug)]
pub struct ProducerError {
    message: String,
}

impl ProducerError {
    /// The text of the error.
    pub closed spec fn text(&self) -> Seq<char> {
        self.message@
    }

    /// What went wrong.
    pub fn message(&self) -> (r: &str)
        ensures
            r@ == self.text(),
    {
        self.message.as_str()
    }

    /// The error for a packet that `tiny_artnet` could not read, given the text
    /// of why (the `Debug` text of its error).
    fn from_artnet_error(text: String) -> (r: ProducerError)
        ensures
            r.text() == text@,
    {
        ProducerError { message: text }
    }
}

/// What a producer knows of a node: the last sequence number it sent there, and
/// where the node answered from.
#[derive(Debug, Clone, Copy)]
struct AddressInfo<A> {
    seq: u8,
    addr: A,
}

/// What a producer asks its caller to send.
#[derive(Debug)]
pub enum ProducerAction<A> {
    /// Send this ArtDmx packet to the node at `to`.
    Send { to: A, packet: Vec<u8> },
    /// The node of the universe is not known yet: broadcast this ArtPoll to find it.
    Broadcast { packet: Vec<u8> },
}

/// The state of an Art-Net controller that sends DMX data: for each node it has
/// heard from, the last sequence number it sent there and the node's address.
pub struct ProducerState<A> {
    addresses: BTreeMap<(u8, u8), AddressInfo<A>>,
}

impl<A> View for ProducerState<A> {
    type V = Map<NetAddress, (u8, A)>;

    /// For each known node: the last sequence number sent there and where it answered from.
    closed spec fn view(&self) -> Map<NetAddress, (u8, A)> {
        Map::new(
            |n: NetAddress| self.addresses@.contains_key(net_key(n)),
            |n: NetAddress|
                (self.addresses@[net_key(n)].seq, self.addresses@[net_key(n)].addr),
        )
    }
}

/// What a producer knows after node `reply` answered from `from`: the node's
/// address is (re)set, and its sequence number is kept, or starts at
/// `FIRST_SEQUENCE` for a node not known before.
pub open spec fn node_learned<A>(
    old: Map<NetAddress, (u8, A)>,
    reply: PollReply,
    from: A,
) -> Map<NetAddress, (u8, A)> {
    let net = NetAddress { net: reply.net_switch, sub_net: reply.sub_switch };
    let seq = if old.contains_key(net) {
        old[net].0
    } else {
        FIRST_SEQUENCE
    };
    old.insert(net, (seq, from))
}

/// How a producer whose knowledge is `old` sends `data` to `address`: to a known
/// node, as an ArtDmx packet with the next sequence number, which it
/// remembers; to an unknown one, by broadcasting an ArtPoll instead.
pub open spec fn send_handled<A>(
    old: Map<NetAddress, (u8, A)>,
    address: Address,
    data: Seq<u8>,
    new: Map<NetAddress, (u8, A)>,
    action: ProducerAction<A>,
) -> bool {
    match old.get(address.net) {
        Some((seq, addr)) => {
            let next = next_sequence(seq);
            &&& new == old.insert(address.net, (next, addr))
            &&& action matches ProducerAction::Send { to, packet }
            &&& to == addr
            &&& packet@ == dmx_packet_bytes(next, 0, port_of_address(address), data)
        },
        None => {
            &&& new == old
            &&& action matches ProducerAction::Broadcast { packet }
            &&& packet@ == poll_packet_bytes()
        },
    }
}

/// How a producer whose knowledge is `old` handles a packet from `from` that it
/// read as `packet`: an ArtPollReply teaches it where the node is, another
/// Art-Net packet is handed back unhandled, and an unreadable one is an error
/// that carries the text of why.
pub open spec fn packet_handled<A>(
    old: Map<NetAddress, (u8, A)>,
    packet: Result<ArtCommandView, Seq<char>>,
    from: A,
    new: Map<NetAddress, (u8, A)>,
    outcome: Result<Option<ArtCommand>, ProducerError>,
) -> bool {
    match packet {
        Err(text) => {
            &&& new == old
            &&& outcome matches Err(e)
            &&& e.text() == text
        },
        Ok(ArtCommandView::PollReply(reply)) => {
            &&& new == node_learned(old, reply, from)
            &&& outcome matches Ok(None)
        },
        Ok(c) => {
            &&& new == old
            &&& outcome matches Ok(Some(u))
            &&& u@ == c
        },
    }
}

impl<A: Copy> ProducerState<A> {
    /// A producer that knows no node yet.
    pub fn new() -> (r: ProducerState<A>)
        ensures
            r@ == Map::<NetAddress, (u8, A)>::empty(),
    {
        let r = ProducerState { addresses: BTreeMap::new() };
        assert(r@ =~= Map::<NetAddress, (u8, A)>::empty());
        r
    }

    /// What the producer knows of the node at `net`: the last sequence number
    /// sent there and where it answered from.
    pub fn node(&self, net: NetAddress) -> (r: Option<(u8, A)>)
        ensures
            r == self@.get(net),
    {
        match self.addresses.get(&(net.net, net.sub_net)) {
            Some(info) => Some((info.seq, info.addr)),
            None => None,
        }
    }

    /// Records that the node `reply` announces answered from `from`.
    pub fn handle_poll_reply(&mut self, reply: PollReply, from: A)
        ensures
            final(self)@ == node_learned(old(self)@, reply, from),
    {
        let address = NetAddress::from(reply);
        let key = (address.net, address.sub_net);
        let ghost before = self@;
        let seq = match self.addresses.get(&key) {
            Some(info) => info.seq,
            None => FIRST_SEQUENCE,
        };
        self.addresses.insert(key, AddressInfo { seq, addr: from });
        assert(self@ =~= node_learned(before, reply, from)) by {
            assert forall|n: NetAddress| #![auto] net_key(n) == key implies n == address by {}
        }
    }

    /// Handles a packet from `from` that has been read as `command`: an
    /// ArtPollReply teaches the producer where that node is; any other packet is
    /// handed back unhandled.
    pub fn handle_command(&mut self, command: ArtCommand, from: A) -> (r: Option<ArtCommand>)
        ensures
            packet_handled(
                old(self)@,
                Ok::<ArtCommandView, Seq<char>>(command@),
                from,
                final(self)@,
                Ok::<Option<ArtCommand>, ProducerError>(r),
            ),
    {
        match command {
            ArtCommand::PollReply(reply) => {
                self.handle_poll_reply(reply, from);
                None
            },
            command => Some(command),
        }
    }

    /// Handles a packet that came in from `from`: an ArtPollReply teaches the
    /// producer where that node is; any other Art-Net packet is handed back
    /// unhandled; a packet that cannot be read is an error.
    pub fn handle_socket_recv(&mut self, buffer: &[u8], from: A) -> (r: Result<
        Option<ArtCommand>,
        ProducerError,
    >)
        requires
            !is_truncated_packet(buffer@),
        ensures
            packet_handled(old(self)@, packet_result(buffer@), from, final(self)@, r),
            !has_id_and_op_code(buffer@) ==> r is Err && final(self)@ == old(self)@,
    {
        match parse_packet(buffer) {
            Ok(command) => Ok(self.handle_command(command, from)),
            Err(text) => Err(ProducerError::from_artnet_error(text)),
        }
    }

    /// Handles channel data `data` for the universe at `address`. For a known
    /// node the ArtDmx packet is written into a buffer of `PACKET_BUFFER_LEN`
    /// bytes, so the data must fit behind its header; for an unknown node the
    /// data is not sent and may be of any size.
    pub fn handle_send_data(&mut self, address: Address, data: &bytes::Bytes) -> (r:
        ProducerAction<A>)
        requires
            old(self)@.contains_key(address.net) ==> DMX_HEADER_LEN + bytes_view(*data).len()
                <= PACKET_BUFFER_LEN,
        ensures
            send_handled(old(self)@, address, bytes_view(*data), final(self)@, r),
    {
        let key = (address.net.net, address.net.sub_net);
        match self.addresses.get(&key) {
            Some(info) => {
                let info = *info;
                // increment the sequence
                let seq = info.seq.wrapping_add(1);
                let ghost before = self@;
                self.addresses.insert(key, AddressInfo { seq, addr: info.addr });
                assert(self@ =~= before.insert(address.net, (seq, info.addr))) by {
                    assert forall|n: NetAddress| #![auto] net_key(n) == key implies n
                        == address.net by {}
                }
                let port_address = tiny_artnet::PortAddress::from(address);
                let packet = serialize_dmx(seq, 0, &port_address, bytes_as_slice(data));
                ProducerAction::Send { to: info.addr, packet }
            },
            None => {
                // the node of this universe is not known: look for it
                ProducerAction::Broadcast { packet: serialize_poll() }
            },
        }
    }
}

} // verus!
