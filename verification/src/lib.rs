//! Art-Net client: addressing, the Art-Net wire messages this client exchanges,
//! and the decisions of a DMX producer (a controller that sends channel data to
//! the nodes it finds) and of a DMX receiver (a node that hands the data it
//! receives to its user), with the network left to the caller.

pub mod address;
pub mod artnet;
pub mod laws;
pub mod payload;
pub mod producer;
pub mod receiver;
pub mod text;

pub use address::{Address, NetAddress, Universe};
pub use artnet::{ArtCommand, ArtCommandView, CommandPacket, DmxPacket, PollReply, PollRequest};
pub use producer::{ProducerAction, ProducerError, ProducerState};
pub use receiver::{ArtnetReceiverError, ReceiverAction, ReceiverState};

use vstd::prelude::*;

use crate::payload::{bytes_view, payload_len};
use crate::text::{decimal, push_decimal};
use vstd::string::StringExecFns;

verus! {

/// The sending end of an `async_channel` channel.
#[verifier::external_type_specification]
#[verifier::external_body]
#[verifier::reject_recursive_types(T)]
pub struct ExSender<T>(async_channel::Sender<T>);

/// The receiving end of an `async_channel` channel.
#[verifier::external_type_specification]
#[verifier::external_body]
#[verifier::reject_recursive_types(T)]
pub struct ExReceiver<T>(async_channel::Receiver<T>);

/// The number of events that a channel, seen from its sending end, can hold.
pub uninterp spec fn sender_capacity(tx: async_channel::Sender<ArtnetEvent>) -> Option<usize>;

/// The number of events that a channel, seen from its receiving end, can hold.
pub uninterp spec fn receiver_capacity(rx: async_channel::Receiver<ArtnetEvent>) -> Option<usize>;

/// Whether a sending end and a receiving end belong to one channel: what is sent
/// on the one is received on the other. This holds for the life of the ends.
pub uninterp spec fn one_channel(
    tx: async_channel::Sender<ArtnetEvent>,
    rx: async_channel::Receiver<ArtnetEvent>,
) -> bool;

/// Makes a channel of events with `async_channel::bounded`.
///
/// Trusted: the two ends share one channel, and both report the capacity the
/// channel was made with. Not stated: that the channel starts empty (whether a
/// channel is empty changes as events pass, so it is no function of its ends).
/// `bounded` panics on a capacity of zero, so that is left out.
#[verifier::external_body]
fn bounded_event_channel(cap: usize) -> (r: (
    async_channel::Sender<ArtnetEvent>,
    async_channel::Receiver<ArtnetEvent>,
))
    requires
        cap > 0,
    ensures
        one_channel(r.0, r.1),
        sender_capacity(r.0) == Some(cap),
        receiver_capacity(r.1) == Some(cap),
{
    async_channel::bounded(cap)
}

/// How many events the channel between a producer or receiver and its user holds.
pub const EVENT_BUFFER: usize = 1;

/// What a receiver hands to its user and what a producer takes from its user.
///
/// The derived `Debug` prints the data bytes; `debug_text` gives the shorter
/// text that names only how many bytes there are.
#[derive(Debug)]
pub enum ArtnetEvent {
    /// The channel values `data` of the universe at `address`.
    Data { address: Address, data: bytes::Bytes },
}

/// The text that the derived `Debug` of `Address` writes.
pub open spec fn address_debug_text(a: Address) -> Seq<char> {
    "Address { net: NetAddress { net: "@ + decimal(a.net.net as nat) + ", sub_net: "@ + decimal(
        a.net.sub_net as nat,
    ) + " }, universe: Universe("@ + decimal(a.universe.0 as nat) + ") }"@
}

/// The debugging text of an event: its address, and how many bytes of data it
/// carries (not the data itself).
pub open spec fn event_debug_text(address: Address, data_len: nat) -> Seq<char> {
    "Data { address: "@ + address_debug_text(address) + ", data.len: "@ + decimal(data_len)
        + " }"@
}

impl ArtnetEvent {
    /// The debugging text of this event: its address, and the length of its data
    /// rather than the data.
    pub fn debug_text(&self) -> (r: String)
        ensures
            match self {
                ArtnetEvent::Data { address, data } => r@ == event_debug_text(
                    *address,
                    bytes_view(*data).len(),
                ),
            },
    {
        match self {
            ArtnetEvent::Data { address, data } => {
                let mut s = String::new();
                s.append("Data { address: ");
                s.append("Address { net: NetAddress { net: ");
                push_decimal(&mut s, address.net.net as usize);
                s.append(", sub_net: ");
                push_decimal(&mut s, address.net.sub_net as usize);
                s.append(" }, universe: Universe(");
                push_decimal(&mut s, address.universe.0 as usize);
                s.append(") }");
                s.append(", data.len: ");
                push_decimal(&mut s, payload_len(data));
                s.append(" }");
                s
            },
        }
    }

    /// A channel of events with room for one event.
    pub fn channel() -> (r: (async_channel::Sender<ArtnetEvent>, async_channel::Receiver<ArtnetEvent>))
        ensures
            one_channel(r.0, r.1),
            sender_capacity(r.0) == Some(EVENT_BUFFER),
            receiver_capacity(r.1) == Some(EVENT_BUFFER),
    {
        bounded_event_channel(EVENT_BUFFER)
    }
}

} // verus!
