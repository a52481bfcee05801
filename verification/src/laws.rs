use vstd::prelude::*;
use vstd::std_specs::convert::FromSpec;

use crate::address::{
    Address, NetAddress, Universe, address_from_port_bits, address_of_port, port_of_address,
};
use crate::artnet::{
    ArtCommandView, PollReply, PollRequest, dmx_packet_bytes, dmx_packet_view, is_dmx_packet,
    is_poll_packet, is_poll_reply_packet, is_truncated_packet, poll_packet_bytes,
    poll_packet_request,
};
use crate::producer::{next_sequence, node_learned, packet_handled, send_handled};
use crate::payload::bytes_view;
use crate::receiver::{command_handled, delivered, dmx_handled, sequence_accepted};
use crate::{ArtnetEvent, ProducerAction, ReceiverAction};
use crate::producer::ProducerError;
use crate::artnet::ArtCommand;
use crate::text::{decimal, digit_text};

verus! {

/// An address whose Net fits in seven bits and whose Sub-Net and Universe fit in
/// four: one that a 15-bit Port-Address can carry.
pub open spec fn is_port_address(a: Address) -> bool {
    a.net.net < 128 && a.net.sub_net < 16 && a.universe.0 < 16
}

/// The 15-bit Port-Address of an address: Net, Sub-Net, Universe from the top.
pub open spec fn port_bits_of(a: Address) -> u16 {
    (a.net.net * 256 + a.net.sub_net * 16 + a.universe.0) as u16
}

/// Splitting a 16-bit Port-Address gives a Net below 128 and a Sub-Net and
/// Universe below 16, and bit 15 plays no part.
pub proof fn lemma_port_bits_fields(value: u16)
    ensures
        is_port_address(address_from_port_bits(value)),
        address_from_port_bits(value) == address_from_port_bits((value % 0x8000) as u16),
{
    let w: u16 = value % 0x8000;
    assert(w / 256 % 128 == value / 256 % 128) by (bit_vector)
        requires
            w == value % 0x8000,
    ;
    assert(w / 16 % 16 == value / 16 % 16) by (bit_vector)
        requires
            w == value % 0x8000,
    ;
    assert(w % 16 == value % 16) by (bit_vector)
        requires
            w == value % 0x8000,
    ;
}

/// Every address that a Port-Address can carry is the split of its own
/// 15-bit Port-Address.
pub proof fn lemma_port_bits_round_trip(a: Address)
    requires
        is_port_address(a),
    ensures
        address_from_port_bits(port_bits_of(a)) == a,
{
    let v = port_bits_of(a);
    assert(v / 256 == a.net.net) by (nonlinear_arith)
        requires
            v == a.net.net * 256 + a.net.sub_net * 16 + a.universe.0,
            a.net.sub_net < 16,
            a.universe.0 < 16,
    ;
    assert(v / 16 == a.net.net * 16 + a.net.sub_net) by (nonlinear_arith)
        requires
            v == a.net.net * 256 + a.net.sub_net * 16 + a.universe.0,
            a.universe.0 < 16,
    ;
    assert((a.net.net * 16 + a.net.sub_net) % 16 == a.net.sub_net) by (nonlinear_arith)
        requires
            a.net.sub_net < 16,
    ;
    assert(v % 16 == a.universe.0) by (nonlinear_arith)
        requires
            v == a.net.net * 256 + a.net.sub_net * 16 + a.universe.0,
            a.universe.0 < 16,
    ;
}

/// Converting an address to a `tiny_artnet` Port-Address and back gives the same
/// address, and the other way round.
pub proof fn lemma_port_address_round_trip(a: Address, p: tiny_artnet::PortAddress)
    ensures
        address_of_port(port_of_address(a)) == a,
        port_of_address(address_of_port(p)) == p,
{
}

/// A receiver accepts the packet that follows the last one it accepted for a
/// universe, also across the wrap from 255 to 0.
pub proof fn lemma_next_sequence_accepted(previous: u8)
    ensures
        sequence_accepted(Some(previous), next_sequence(previous)),
{
}

/// A packet with the same sequence number as the last one accepted for its
/// universe is dropped.
pub proof fn lemma_repeated_sequence_dropped(s: u8)
    ensures
        !sequence_accepted(Some(s), s),
{
}

/// The same ArtDmx packet handed to a receiver twice reaches the user once:
/// once the first is delivered, the second is dropped and nothing changes.
pub proof fn lemma_replayed_dmx_dropped(
    before: Map<Address, u8>,
    sequence: u8,
    port_address: tiny_artnet::PortAddress,
    data: Seq<u8>,
    first: ReceiverAction,
    second: ReceiverAction,
)
    requires
        dmx_handled(before, sequence, port_address, data, first),
        dmx_handled(delivered(before, first), sequence, port_address, data, second),
    ensures
        second is OutOfOrder,
        delivered(delivered(before, first), second) == delivered(before, first),
{
    let address = address_of_port(port_address);
    if sequence_accepted(before.get(address), sequence) {
        assert(delivered(before, first).get(address) == Some(sequence));
    }
}

/// The ArtDmx packet a producer writes is one that a receiver reads back whole:
/// it is well formed, not truncated, and carries the same sequence number,
/// physical port, data and (for an address that a Port-Address can carry) address.
pub proof fn lemma_dmx_packet_round_trip(
    sequence: u8,
    physical: u8,
    address: Address,
    data: Seq<u8>,
)
    requires
        is_port_address(address),
        data.len() <= 0xffff,
    ensures
        ({
            let b = dmx_packet_bytes(sequence, physical, port_of_address(address), data);
            &&& is_dmx_packet(b)
            &&& !is_truncated_packet(b)
            &&& !is_poll_reply_packet(b)
            &&& dmx_packet_view(b) == (ArtCommandView::Dmx {
                sequence,
                physical,
                port_address: port_of_address(address),
                data,
            })
        }),
{
    let b = dmx_packet_bytes(sequence, physical, port_of_address(address), data);
    let p = port_of_address(address);
    let n = data.len();
    assert(b[14] == p.sub_net * 16 + p.universe);
    assert(b[14] / 16 == p.sub_net && b[14] % 16 == p.universe) by (nonlinear_arith)
        requires
            b[14] == p.sub_net * 16 + p.universe,
            p.universe < 16,
    ;
    assert((n / 256) as u8 * 256 + (n % 256) as u8 == n) by (nonlinear_arith)
        requires
            0 <= n <= 0xffff,
    ;
    assert(b.subrange(0, 8) =~= crate::artnet::artnet_id());
    assert(b.subrange(18, 18 + n as int) =~= data);
}

/// The ArtPoll a producer broadcasts is one that a receiver reads as an ArtPoll
/// for every Port-Address.
pub proof fn lemma_poll_packet_read()
    ensures
        is_poll_packet(poll_packet_bytes()),
        !is_truncated_packet(poll_packet_bytes()),
        !is_poll_reply_packet(poll_packet_bytes()),
        poll_packet_request(poll_packet_bytes()) == (PollRequest {
            flags: 0,
            min_diagnostic_priority: 0,
            target_top: 0,
            target_bottom: 0xffff,
        }),
{
    assert(poll_packet_bytes().subrange(0, 8) =~= crate::artnet::artnet_id());
}

/// A producer that reads a node's ArtPollReply from `from` afterwards sends that
/// node's data to `from`, whatever it knew before.
pub proof fn lemma_reply_teaches_node<A>(
    before: Map<NetAddress, (u8, A)>,
    node: NetAddress,
    reply_bytes: Seq<u8>,
    from: A,
    after: Map<NetAddress, (u8, A)>,
    outcome: Result<Option<ArtCommand>, ProducerError>,
)
    requires
        crate::artnet::packet_result(reply_bytes) == Ok::<ArtCommandView, Seq<char>>(
            ArtCommandView::PollReply(PollReply { net_switch: node.net, sub_switch: node.sub_net }),
        ),
        packet_handled(before, crate::artnet::packet_result(reply_bytes), from, after, outcome),
    ensures
        outcome matches Ok(None),
        after.contains_key(node),
        after[node].1 == from,
        before.contains_key(node) ==> after[node].0 == before[node].0,
{
}

/// The packets a producer sends to one node carry sequence numbers that a
/// receiver accepts one after the other: each send moves the node's number to
/// the next one, which is accepted after the one before.
pub proof fn lemma_sends_accepted_in_order<A>(
    before: Map<NetAddress, (u8, A)>,
    address: Address,
    data: Seq<u8>,
    after: Map<NetAddress, (u8, A)>,
    action: crate::ProducerAction<A>,
)
    requires
        before.contains_key(address.net),
        send_handled(before, address, data, after, action),
    ensures
        after[address.net].0 == next_sequence(before[address.net].0),
        sequence_accepted(Some(before[address.net].0), after[address.net].0),
{
}

/// A node that answers again keeps its place in the sequence: only where it
/// answered from changes.
pub proof fn lemma_repeated_reply_keeps_sequence<A>(
    before: Map<NetAddress, (u8, A)>,
    reply: PollReply,
    from: A,
)
    ensures
        ({
            let node = NetAddress::from_spec(reply);
            let after = node_learned(before, reply, from);
            &&& after.contains_key(node)
            &&& after[node].1 == from
            &&& before.contains_key(node) ==> after[node].0 == before[node].0
            &&& !before.contains_key(node) ==> after[node].0 == crate::producer::FIRST_SEQUENCE
            &&& forall|n: NetAddress| n != node ==> #[trigger] after.get(n) == before.get(n)
        }),
{
}

/// What a producer sends to a node, a receiver that has delivered nothing newer
/// from that universe (nothing at all, or the producer's previous packet) hands
/// to its user whole: the same address and the same data, and once that is
/// delivered it holds the producer's new sequence number.
pub proof fn lemma_producer_data_reaches_receiver<A>(
    producer_before: Map<NetAddress, (u8, A)>,
    address: Address,
    data: Seq<u8>,
    producer_after: Map<NetAddress, (u8, A)>,
    sent: ProducerAction<A>,
    node: NetAddress,
    receiver_before: Map<Address, u8>,
    handed: ReceiverAction,
)
    requires
        is_port_address(address),
        data.len() <= 0xffff,
        producer_before.contains_key(address.net),
        receiver_before.get(address) is None || receiver_before.get(address) == Some(
            producer_before[address.net].0,
        ),
        send_handled(producer_before, address, data, producer_after, sent),
        sent matches ProducerAction::Send { packet, .. } && command_handled(
            node,
            receiver_before,
            dmx_packet_view(packet@),
            handed,
        ),
    ensures
        handed matches ReceiverAction::Forward {
            event: ArtnetEvent::Data { address: a, data: d },
            address: r,
            sequence: s,
        } && a == address && r == address && s == producer_after[address.net].0 && bytes_view(d)
            == data,
        delivered(receiver_before, handed).get(address) == Some(producer_after[address.net].0),
{
    let next = producer_after[address.net].0;
    lemma_dmx_packet_round_trip(next, 0, address, data);
    lemma_port_address_round_trip(address, port_of_address(address));
    lemma_next_sequence_accepted(producer_before[address.net].0);
}

/// The sequence number that a receiver which started from `first` holds for
/// `address` after it handled `packets` (sequence number, Port-Address, data)
/// with the outcomes `actions`: that of the last packet for `address` that it
/// forwarded, or what `first` held if it forwarded none.
pub open spec fn last_forwarded(
    first: Map<Address, u8>,
    packets: Seq<(u8, tiny_artnet::PortAddress, Seq<u8>)>,
    actions: Seq<ReceiverAction>,
    address: Address,
) -> Option<u8>
    decreases packets.len(),
{
    if packets.len() == 0 {
        first.get(address)
    } else {
        let i = packets.len() - 1;
        if actions[i] is Forward && address_of_port(packets[i].1) == address {
            Some(packets[i].0)
        } else {
            last_forwarded(first, packets.drop_last(), actions.drop_last(), address)
        }
    }
}

/// After any run of ArtDmx packets, each forwarded event delivered as it came,
/// a receiver has forwarded exactly the packets that were newer than the last
/// one delivered for their universe, each as one event, and it holds, for each
/// universe, the sequence number of the last packet it forwarded there
/// (starting from an empty receiver: a number exactly for the universes it
/// forwarded data of).
pub proof fn lemma_receiver_keeps_last_forwarded(
    states: Seq<Map<Address, u8>>,
    packets: Seq<(u8, tiny_artnet::PortAddress, Seq<u8>)>,
    actions: Seq<ReceiverAction>,
)
    requires
        states.len() == packets.len() + 1,
        actions.len() == packets.len(),
        forall|i: int|
            0 <= i < packets.len() ==> dmx_handled(
                #[trigger] states[i],
                packets[i].0,
                packets[i].1,
                packets[i].2,
                actions[i],
            ),
        forall|i: int|
            0 <= i < packets.len() ==> states[i + 1] == delivered(#[trigger] states[i], actions[i]),
    ensures
        forall|a: Address| #[trigger]
            states.last().get(a) == last_forwarded(states[0], packets, actions, a),
        forall|i: int|
            0 <= i < packets.len() ==> (#[trigger] actions[i] is Forward <==> sequence_accepted(
                states[i].get(address_of_port(packets[i].1)),
                packets[i].0,
            )),
    decreases packets.len(),
{
    let n = packets.len();
    if n > 0 {
        let i = n - 1;
        let pre_states = states.drop_last();
        let pre_packets = packets.drop_last();
        let pre_actions = actions.drop_last();
        assert forall|k: int| 0 <= k < pre_packets.len() implies dmx_handled(
            #[trigger] pre_states[k],
            pre_packets[k].0,
            pre_packets[k].1,
            pre_packets[k].2,
            pre_actions[k],
        ) && pre_states[k + 1] == delivered(pre_states[k], pre_actions[k]) by {
            assert(states[k] == pre_states[k]);
        }
        lemma_receiver_keeps_last_forwarded(pre_states, pre_packets, pre_actions);
        assert(dmx_handled(states[i], packets[i].0, packets[i].1, packets[i].2, actions[i]));
        assert(states[i + 1] == delivered(states[i], actions[i]));
        assert forall|a: Address| #[trigger]
            states.last().get(a) == last_forwarded(states[0], packets, actions, a) by {
            assert(pre_states.last() == states[i]);
            assert(pre_states[0] == states[0]);
        }
        assert forall|k: int|
            0 <= k < packets.len() implies (#[trigger] actions[k] is Forward <==> sequence_accepted(
                states[k].get(address_of_port(packets[k].1)),
                packets[k].0,
            )) by {
            if k < i {
                assert(pre_actions[k] == actions[k]);
                assert(pre_states[k] == states[k]);
                assert(pre_packets[k] == packets[k]);
            }
        }
    }
}

/// Two sends to universes of one node, with nothing heard from the node in
/// between, carry the two sequence numbers that follow the node's last one: the
/// node has one counter, shared by all its universes, that goes from 255 to 0.
pub proof fn lemma_two_sends_successive<A>(
    before: Map<NetAddress, (u8, A)>,
    first_address: Address,
    first_data: Seq<u8>,
    middle: Map<NetAddress, (u8, A)>,
    first: ProducerAction<A>,
    second_address: Address,
    second_data: Seq<u8>,
    after: Map<NetAddress, (u8, A)>,
    second: ProducerAction<A>,
)
    requires
        before.contains_key(first_address.net),
        second_address.net == first_address.net,
        send_handled(before, first_address, first_data, middle, first),
        send_handled(middle, second_address, second_data, after, second),
    ensures
        ({
            let s = before[first_address.net].0;
            &&& first matches ProducerAction::Send { to, packet } && to == before[first_address.net].1
                && packet@ == dmx_packet_bytes(
                next_sequence(s),
                0,
                port_of_address(first_address),
                first_data,
            )
            &&& second matches ProducerAction::Send { to, packet } && to
                == before[first_address.net].1 && packet@ == dmx_packet_bytes(
                next_sequence(next_sequence(s)),
                0,
                port_of_address(second_address),
                second_data,
            )
            &&& after[first_address.net].0 == next_sequence(next_sequence(s))
        }),
{
    assert(middle.contains_key(first_address.net));
}

/// The sequence numbers a receiver accepts after it delivered `previous`:
/// exactly those above it (the sequence advanced) and those more than 127
/// below it (the sequence wrapped around); every other one, `previous` itself
/// included, is dropped.
pub proof fn lemma_accepted_sequences(previous: u8, current: u8)
    ensures
        sequence_accepted(Some(previous), current) <==> (current > previous || previous as int
            - current as int > 127),
        current > previous ==> sequence_accepted(Some(previous), current),
        current <= previous && previous - current <= 127 ==> !sequence_accepted(
            Some(previous),
            current,
        ),
        sequence_accepted(None, current),
{
}

/// An ArtDmx packet whose sequence number is above the last one delivered for
/// its universe, or more than 127 below it, or for a universe with nothing
/// delivered yet, is forwarded to the user with its address, data and sequence
/// number; any other is dropped.
pub proof fn lemma_dmx_forwarded_when_newer(
    delivered_so_far: Map<Address, u8>,
    sequence: u8,
    port_address: tiny_artnet::PortAddress,
    data: Seq<u8>,
    action: ReceiverAction,
)
    requires
        dmx_handled(delivered_so_far, sequence, port_address, data, action),
    ensures
        ({
            let address = address_of_port(port_address);
            match delivered_so_far.get(address) {
                None => action is Forward,
                Some(p) => (action is Forward <==> (sequence > p || p as int - sequence as int
                    > 127)) && (!(action is Forward) ==> action is OutOfOrder),
            }
        }),
        action matches ReceiverAction::Forward { event, address, sequence: s } ==> s == sequence
            && address == address_of_port(port_address),
{
}

/// The sequence number that follows `s` is its successor modulo 256.
pub proof fn lemma_next_sequence_successor(s: u8)
    ensures
        next_sequence(s) as int == (s as int + 1) % 256,
{
}

/// A send to a known node moves the node's counter from `s` to `(s + 1) % 256`
/// and the ArtDmx packet carries that number (byte 12); the node's address is kept.
pub proof fn lemma_send_advances_counter<A>(
    before: Map<NetAddress, (u8, A)>,
    address: Address,
    data: Seq<u8>,
    after: Map<NetAddress, (u8, A)>,
    action: ProducerAction<A>,
)
    requires
        before.contains_key(address.net),
        send_handled(before, address, data, after, action),
    ensures
        after[address.net].0 as int == (before[address.net].0 as int + 1) % 256,
        after[address.net].1 == before[address.net].1,
        action matches ProducerAction::Send { to, packet } ==> to == before[address.net].1
            && packet@.len() >= 13 && packet@[12] as int == (before[address.net].0 as int + 1)
            % 256,
        action is Send,
{
}

/// The value of a text of decimal digits, most significant first.
pub open spec fn numeral_value(t: Seq<char>) -> int
    decreases t.len(),
{
    if t.len() == 0 {
        0
    } else {
        numeral_value(t.drop_last()) * 10 + (t.last() as int - '0' as int)
    }
}

/// Every character of the text is a decimal digit.
pub open spec fn all_digits(t: Seq<char>) -> bool {
    forall|i: int| 0 <= i < t.len() ==> '0' <= #[trigger] t[i] <= '9'
}

/// The text of a decimal digit is that one digit character.
pub proof fn lemma_digit_text(d: nat)
    requires
        d < 10,
    ensures
        digit_text(d).len() == 1,
        digit_text(d)[0] as int == '0' as int + d,
{
    reveal_strlit("0");
    reveal_strlit("1");
    reveal_strlit("2");
    reveal_strlit("3");
    reveal_strlit("4");
    reveal_strlit("5");
    reveal_strlit("6");
    reveal_strlit("7");
    reveal_strlit("8");
    reveal_strlit("9");
}

/// A number written in decimal is its base-10 numeral: digits only, no leading
/// zero, and read back as a number it is the number.
pub proof fn lemma_decimal_is_numeral(n: nat)
    ensures
        decimal(n).len() >= 1,
        n < 10 <==> decimal(n).len() == 1,
        all_digits(decimal(n)),
        numeral_value(decimal(n)) == n,
        decimal(n).len() > 1 ==> decimal(n)[0] != '0',
    decreases n,
{
    if n < 10 {
        lemma_digit_text(n);
        let t = decimal(n);
        assert(t.drop_last().len() == 0);
        assert(numeral_value(t.drop_last()) == 0);
        assert(t.last() == t[0]);
        assert(t[0] as int == '0' as int + n);
        assert(numeral_value(t) == n);
        assert forall|i: int| 0 <= i < t.len() implies '0' <= #[trigger] t[i] <= '9' by {
            assert(i == 0);
        }
    } else {
        lemma_decimal_is_numeral(n / 10);
        lemma_digit_text(n % 10);
        let head = decimal(n / 10);
        let last = digit_text(n % 10);
        let t = decimal(n);
        assert(t == head + last);
        assert(t.drop_last() =~= head);
        assert(t.last() == last[0]);
        assert(last[0] as int == '0' as int + n % 10);
        assert(numeral_value(t) == numeral_value(head) * 10 + (t.last() as int - '0' as int));
        assert(n == (n / 10) * 10 + n % 10);
        assert(numeral_value(t) == n);
        assert forall|i: int| 0 <= i < t.len() implies '0' <= #[trigger] t[i] <= '9' by {
            if i < head.len() {
                assert(t[i] == head[i]);
            } else {
                assert(i == head.len());
                assert(t[i] == last[0]);
            }
        }
        assert(t[0] == head[0]);
        if n / 10 < 10 {
            lemma_digit_text(n / 10);
            assert(head[0] as int == '0' as int + n / 10);
        }
    }
}

/// The ArtPollReply of any node is read as that node's Net and Sub-Net
/// switches (bytes 18 and 19), whatever its IP address, port and firmware
/// version (bytes 10 to 17): every packet of at least 207 bytes that starts with
/// the Art-Net identifier and the ArtPollReply op code.
pub proof fn lemma_any_poll_reply_read(s: Seq<u8>)
    requires
        s.len() >= 207,
        s.subrange(0, 8) == crate::artnet::artnet_id(),
        s[8] == 0x00,
        s[9] == 0x21,
    ensures
        crate::artnet::packet_result(s) == Ok::<ArtCommandView, Seq<char>>(
            ArtCommandView::PollReply(PollReply { net_switch: s[18], sub_switch: s[19] }),
        ),
        !is_truncated_packet(s),
{
}

/// A producer that reads any node's ArtPollReply from `from` afterwards knows
/// that node at `from`, keeping the node's counter if it knew it already.
pub proof fn lemma_any_poll_reply_teaches<A>(
    s: Seq<u8>,
    before: Map<NetAddress, (u8, A)>,
    from: A,
    after: Map<NetAddress, (u8, A)>,
    outcome: Result<Option<ArtCommand>, ProducerError>,
)
    requires
        s.len() >= 207,
        s.subrange(0, 8) == crate::artnet::artnet_id(),
        s[8] == 0x00,
        s[9] == 0x21,
        packet_handled(before, crate::artnet::packet_result(s), from, after, outcome),
    ensures
        outcome matches Ok(None),
        after.contains_key(NetAddress { net: s[18], sub_net: s[19] }),
        after[NetAddress { net: s[18], sub_net: s[19] }].1 == from,
        after[NetAddress { net: s[18], sub_net: s[19] }].0 == (if before.contains_key(
            NetAddress { net: s[18], sub_net: s[19] },
        ) {
            before[NetAddress { net: s[18], sub_net: s[19] }].0
        } else {
            1
        }),
{
    lemma_any_poll_reply_read(s);
}

} // verus!
