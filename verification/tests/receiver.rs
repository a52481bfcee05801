use artnet_client::artnet::{parse_poll_reply, serialize_dmx, serialize_poll};
use artnet_client::{
    Address, ArtCommand, ArtnetEvent, ArtnetReceiverError, DmxPacket, NetAddress, PollReply,
    PollRequest, ReceiverAction, ReceiverState, Universe,
};

fn dmx(sequence: u8, universe: u8, data: &[u8]) -> DmxPacket {
    DmxPacket {
        sequence,
        physical: 0,
        port_address: tiny_artnet::PortAddress { net: 0, sub_net: 0, universe },
        data: data.to_vec(),
    }
}

/// Handles a packet and, when it is forwarded, delivers it at once.
fn step(receiver: &mut ReceiverState, packet: DmxPacket) -> ReceiverAction {
    let action = receiver.handle_dmx(packet);
    if let ReceiverAction::Forward { address, sequence, .. } = &action {
        receiver.record_delivered(*address, *sequence);
    }
    action
}

/// Handles bytes off the network and, when they are forwarded, delivers them at once.
fn step_packet(receiver: &mut ReceiverState, packet: &[u8]) -> ReceiverAction {
    let action = receiver.handle_packet(packet);
    if let ReceiverAction::Forward { address, sequence, .. } = &action {
        receiver.record_delivered(*address, *sequence);
    }
    action
}

fn universe(u: u8) -> Address {
    Address::new(NetAddress::new(0, 0), Universe(u))
}

#[test]
fn first_packet_of_a_universe_is_forwarded() {
    let mut receiver = ReceiverState::new(NetAddress::new(0, 0));
    match step(&mut receiver, dmx(9, 1, &[1, 2, 3])) {
        ReceiverAction::Forward { event: ArtnetEvent::Data { address, data }, .. } => {
            assert_eq!(address, universe(1));
            assert_eq!(data.as_ref(), &[1, 2, 3]);
        }
        other => panic!("not forwarded: {other:?}"),
    }
    assert_eq!(receiver.last_sequence(universe(1)), Some(9));
    assert_eq!(receiver.last_sequence(universe(2)), None);
}

#[test]
fn advancing_sequence_is_forwarded() {
    let mut receiver = ReceiverState::new(NetAddress::new(0, 0));
    step(&mut receiver, dmx(10, 1, &[1]));
    assert!(matches!(step(&mut receiver, dmx(11, 1, &[2])), ReceiverAction::Forward { .. }));
    assert_eq!(receiver.last_sequence(universe(1)), Some(11));
}

#[test]
fn older_sequence_is_dropped() {
    let mut receiver = ReceiverState::new(NetAddress::new(0, 0));
    step(&mut receiver, dmx(50, 1, &[1]));
    assert!(matches!(step(&mut receiver, dmx(49, 1, &[2])), ReceiverAction::OutOfOrder));
    // a step back of exactly half the range is still too old
    assert!(matches!(step(&mut receiver, dmx(50 + 128 - 1 - 127, 1, &[2])), ReceiverAction::OutOfOrder));
    assert_eq!(receiver.last_sequence(universe(1)), Some(50));
}

#[test]
fn repeated_sequence_is_dropped() {
    let mut receiver = ReceiverState::new(NetAddress::new(0, 0));
    assert!(matches!(step(&mut receiver, dmx(7, 1, &[1])), ReceiverAction::Forward { .. }));
    assert!(matches!(step(&mut receiver, dmx(7, 1, &[1])), ReceiverAction::OutOfOrder));
    assert_eq!(receiver.last_sequence(universe(1)), Some(7));
}

#[test]
fn wrapped_sequence_is_forwarded() {
    let mut receiver = ReceiverState::new(NetAddress::new(0, 0));
    step(&mut receiver, dmx(255, 1, &[1]));
    assert!(matches!(step(&mut receiver, dmx(0, 1, &[2])), ReceiverAction::Forward { .. }));
    assert_eq!(receiver.last_sequence(universe(1)), Some(0));
    // 200 back to 60 is a step back of 140: taken as a wrap
    step(&mut receiver, dmx(200, 1, &[1]));
    assert!(matches!(step(&mut receiver, dmx(60, 1, &[2])), ReceiverAction::Forward { .. }));
    // 200 back to 73 is a step back of 127: too old
    step(&mut receiver, dmx(200, 1, &[1]));
    assert!(matches!(step(&mut receiver, dmx(73, 1, &[2])), ReceiverAction::OutOfOrder));
}

#[test]
fn universes_are_sequenced_apart() {
    let mut receiver = ReceiverState::new(NetAddress::new(0, 0));
    step(&mut receiver, dmx(100, 1, &[1]));
    assert!(matches!(step(&mut receiver, dmx(5, 2, &[2])), ReceiverAction::Forward { .. }));
    assert_eq!(receiver.last_sequence(universe(1)), Some(100));
    assert_eq!(receiver.last_sequence(universe(2)), Some(5));
}

#[test]
fn undelivered_data_is_not_recorded() {
    let receiver = ReceiverState::new(NetAddress::new(0, 0));
    match receiver.handle_dmx(dmx(9, 1, &[1])) {
        ReceiverAction::Forward { address, sequence, .. } => {
            assert_eq!(address, universe(1));
            assert_eq!(sequence, 9);
        }
        other => panic!("not forwarded: {other:?}"),
    }
    // the event was never delivered: the same packet is forwarded again
    assert_eq!(receiver.last_sequence(universe(1)), None);
    assert!(matches!(receiver.handle_dmx(dmx(9, 1, &[1])), ReceiverAction::Forward { .. }));
}

#[test]
fn delivered_sequence_is_recorded() {
    let mut receiver = ReceiverState::new(NetAddress::new(0, 0));
    receiver.record_delivered(universe(3), 40);
    assert_eq!(receiver.last_sequence(universe(3)), Some(40));
    receiver.record_delivered(universe(3), 41);
    assert_eq!(receiver.last_sequence(universe(3)), Some(41));
    assert_eq!(receiver.last_sequence(universe(4)), None);
    assert!(matches!(receiver.handle_dmx(dmx(41, 3, &[1])), ReceiverAction::OutOfOrder));
}

#[test]
fn poll_is_answered_with_own_address() {
    let receiver = ReceiverState::new(NetAddress::new(3, 4));
    let poll = PollRequest { flags: 0, min_diagnostic_priority: 0, target_top: 0, target_bottom: 0xFFFF };
    let reply = receiver.handle_poll(&poll);
    assert_eq!(reply.len(), 239);
    assert_eq!(&reply[0..8], b"Art-Net\0");
    assert_eq!(reply[8], 0x00);
    assert_eq!(reply[9], 0x21);
    assert_eq!(parse_poll_reply(&reply), Some(PollReply { net_switch: 3, sub_switch: 4 }));
}

#[test]
fn packets_from_the_network() {
    let mut receiver = ReceiverState::new(NetAddress::new(1, 2));
    let port = tiny_artnet::PortAddress { net: 1, sub_net: 2, universe: 3 };
    let packet = serialize_dmx(2, 0, &port, &[5, 6]);
    match step_packet(&mut receiver, &packet) {
        ReceiverAction::Forward { event: ArtnetEvent::Data { address, data }, .. } => {
            assert_eq!(address, Address::new(NetAddress::new(1, 2), Universe(3)));
            assert_eq!(data.as_ref(), &[5, 6]);
        }
        other => panic!("not forwarded: {other:?}"),
    }
    assert!(matches!(step_packet(&mut receiver, &packet), ReceiverAction::OutOfOrder));
    match step_packet(&mut receiver, &serialize_poll()) {
        ReceiverAction::Reply(reply) => {
            assert_eq!(parse_poll_reply(&reply), Some(PollReply { net_switch: 1, sub_switch: 2 }))
        }
        other => panic!("not answered: {other:?}"),
    }
    assert!(matches!(step_packet(&mut receiver, b"not art-net"), ReceiverAction::NotArtnet));
    let mut sync = b"Art-Net\0".to_vec();
    sync.extend_from_slice(&[0x00, 0x52, 0x00, 14, 0, 0]);
    assert!(matches!(step_packet(&mut receiver, &sync), ReceiverAction::Unhandled(ArtCommand::Sync)));
    assert_eq!(receiver.net_address(), NetAddress::new(1, 2));
}

#[test]
fn receiver_error_keeps_its_message() {
    let error = ArtnetReceiverError::from(String::from("receiving end closed"));
    assert_eq!(error.message(), "receiving end closed");
}

#[test]
fn event_channel_holds_one_event() {
    let (tx, rx) = ArtnetEvent::channel();
    assert_eq!(tx.capacity(), Some(1));
    assert_eq!(rx.capacity(), Some(1));
    let event = ArtnetEvent::Data { address: Address::from(0x0001), data: bytes::Bytes::copy_from_slice(&[1]) };
    assert!(tx.try_send(event).is_ok());
    let event = ArtnetEvent::Data { address: Address::from(0x0001), data: bytes::Bytes::copy_from_slice(&[2]) };
    assert!(tx.try_send(event).is_err());
    match rx.try_recv() {
        Ok(ArtnetEvent::Data { data, .. }) => assert_eq!(data.as_ref(), &[1]),
        Err(e) => panic!("no event: {e:?}"),
    }
}

#[test]
fn receiver_error_from_str() {
    let error = ArtnetReceiverError::from("channel closed");
    assert_eq!(error.message(), "channel closed");
}

#[test]
fn event_debug_text_shows_length_not_data() {
    let address = Address::new(NetAddress::new(12, 3), Universe(10));
    let event = ArtnetEvent::Data { address, data: bytes::Bytes::from(vec![7u8; 512]) };
    assert_eq!(
        event.debug_text(),
        "Data { address: Address { net: NetAddress { net: 12, sub_net: 3 }, universe: Universe(10) }, data.len: 512 }"
    );
    assert_eq!(event.debug_text(), format!("Data {{ address: {address:?}, data.len: 512 }}"));
    let empty = ArtnetEvent::Data { address: Address::from(0x0000), data: bytes::Bytes::new() };
    assert!(empty.debug_text().ends_with("universe: Universe(0) }, data.len: 0 }"));
}
