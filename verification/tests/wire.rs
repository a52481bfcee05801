use artnet_client::artnet::{
    has_artnet_id, is_truncated, parse_packet, parse_poll_reply, serialize_dmx, serialize_poll,
};
use artnet_client::{ArtCommand, PollReply};

const ID: [u8; 8] = *b"Art-Net\0";

fn header(op_code: u16) -> Vec<u8> {
    let mut v = ID.to_vec();
    v.push((op_code & 0xff) as u8);
    v.push((op_code >> 8) as u8);
    v
}

#[test]
fn dmx_packet_layout() {
    let port = tiny_artnet::PortAddress { net: 0x12, sub_net: 0x3, universe: 0x4 };
    let packet = serialize_dmx(7, 1, &port, &[10, 20, 30]);
    let mut expected = header(0x5000);
    expected.extend_from_slice(&[0x00, 14, 7, 1, 0x34, 0x12, 0x00, 3, 10, 20, 30]);
    assert_eq!(packet, expected);
}

#[test]
fn dmx_packet_long_length_field() {
    let port = tiny_artnet::PortAddress { net: 0, sub_net: 0, universe: 0 };
    let data = vec![0xAAu8; 512];
    let packet = serialize_dmx(1, 0, &port, &data);
    assert_eq!(packet.len(), 18 + 512);
    assert_eq!(packet[16], 0x02);
    assert_eq!(packet[17], 0x00);
}

#[test]
fn dmx_packet_masks_port_fields() {
    let port = tiny_artnet::PortAddress { net: 0xFF, sub_net: 0x1F, universe: 0x2E };
    let packet = serialize_dmx(0, 0, &port, &[]);
    assert_eq!(packet[14], 0xFE);
    assert_eq!(packet[15], 0x7F);
}

#[test]
fn poll_packet_layout() {
    let mut expected = header(0x2000);
    expected.extend_from_slice(&[0x00, 14, 0, 0]);
    assert_eq!(serialize_poll(), expected);
}

#[test]
fn dmx_packet_reads_back() {
    let port = tiny_artnet::PortAddress { net: 0x05, sub_net: 0x6, universe: 0x7 };
    let packet = serialize_dmx(42, 3, &port, &[1, 2, 3, 4]);
    assert!(!is_truncated(&packet));
    match parse_packet(&packet) {
        Ok(ArtCommand::Dmx(dmx)) => {
            assert_eq!(dmx.sequence, 42);
            assert_eq!(dmx.physical, 3);
            assert_eq!(dmx.port_address.net, 5);
            assert_eq!(dmx.port_address.sub_net, 6);
            assert_eq!(dmx.port_address.universe, 7);
            assert_eq!(dmx.data, vec![1, 2, 3, 4]);
        }
        other => panic!("not read as ArtDmx: {other:?}"),
    }
}

#[test]
fn poll_packet_reads_back() {
    let packet = serialize_poll();
    match parse_packet(&packet) {
        Ok(ArtCommand::Poll(poll)) => {
            assert_eq!(poll.flags, 0);
            assert_eq!(poll.min_diagnostic_priority, 0);
            assert_eq!(poll.target_top, 0);
            assert_eq!(poll.target_bottom, 0xFFFF);
        }
        other => panic!("not read as ArtPoll: {other:?}"),
    }
}

#[test]
fn poll_with_target_range() {
    let mut packet = header(0x2000);
    packet.extend_from_slice(&[0x00, 14, 2, 3, 0x00, 0x10, 0x00, 0x20]);
    match parse_packet(&packet) {
        Ok(ArtCommand::Poll(poll)) => {
            assert_eq!(poll.flags, 2);
            assert_eq!(poll.min_diagnostic_priority, 3);
            assert_eq!(poll.target_top, 0x10);
            assert_eq!(poll.target_bottom, 0x20);
        }
        other => panic!("not read as ArtPoll: {other:?}"),
    }
}

#[test]
fn sync_packet_reads_back() {
    let mut packet = header(0x5200);
    packet.extend_from_slice(&[0x00, 14, 0, 0]);
    assert!(matches!(parse_packet(&packet), Ok(ArtCommand::Sync)));
}

#[test]
fn command_packet_reads_back() {
    let mut packet = header(0x2400);
    packet.extend_from_slice(&[0x00, 14, b'A', b'B', 2, 0, 9, 8, 7]);
    match parse_packet(&packet) {
        Ok(ArtCommand::Command(command)) => {
            assert_eq!(command.esta_manufacturer_code, ('A', 'B'));
            assert_eq!(command.data, vec![9, 8]);
        }
        other => panic!("not read as ArtCommand: {other:?}"),
    }
}

#[test]
fn newer_protocol_version_is_refused() {
    let mut packet = header(0x5000);
    packet.extend_from_slice(&[0x00, 15, 1, 0, 0, 0, 0, 0]);
    assert!(parse_packet(&packet).is_err());
}

#[test]
fn unknown_op_code_is_refused() {
    let mut packet = header(0x9900);
    packet.extend_from_slice(&[0x00, 14]);
    assert!(parse_packet(&packet).is_err());
}

#[test]
fn not_artnet_is_refused() {
    assert!(parse_packet(b"hello, world").is_err());
    assert!(parse_packet(&[]).is_err());
    assert!(!has_artnet_id(b"hello, world"));
    assert!(has_artnet_id(&header(0x5000)));
    assert!(!has_artnet_id(&ID));
}

#[test]
fn truncated_packets_are_detected() {
    let mut packet = header(0x5000);
    packet.extend_from_slice(&[0x00, 14, 1, 0, 0, 0, 0x00, 4, 1, 2]);
    assert!(is_truncated(&packet));
    packet.extend_from_slice(&[3, 4]);
    assert!(!is_truncated(&packet));

    let mut command = header(0x2400);
    command.extend_from_slice(&[0x00, 14, b'A', b'B', 5, 0, 1]);
    assert!(is_truncated(&command));

    let mut newer = header(0x5000);
    newer.extend_from_slice(&[0x00, 15, 1, 0, 0, 0, 0x00, 4]);
    assert!(!is_truncated(&newer));
    assert!(!is_truncated(b"Art-Net"));
}

#[test]
fn poll_reply_fields_are_read() {
    let mut packet = header(0x2100);
    packet.resize(239, 0);
    packet[18] = 0x11;
    packet[19] = 0x02;
    assert_eq!(parse_poll_reply(&packet), Some(PollReply { net_switch: 0x11, sub_switch: 0x02 }));
    assert!(matches!(
        parse_packet(&packet),
        Ok(ArtCommand::PollReply(PollReply { net_switch: 0x11, sub_switch: 0x02 }))
    ));
}

#[test]
fn short_poll_reply_is_not_read() {
    let mut packet = header(0x2100);
    packet.resize(206, 0);
    assert_eq!(parse_poll_reply(&packet), None);
    assert!(parse_packet(&packet).is_err());
    packet.push(0);
    assert!(parse_poll_reply(&packet).is_some());
}

#[test]
fn poll_reply_layout() {
    let receiver = artnet_client::ReceiverState::new(artnet_client::NetAddress::new(0x12, 0x03));
    let poll = artnet_client::PollRequest {
        flags: 0,
        min_diagnostic_priority: 0,
        target_top: 0,
        target_bottom: 0xFFFF,
    };
    let reply = receiver.handle_poll(&poll);
    let mut expected = header(0x2100);
    expected.extend_from_slice(&[0; 8]);
    expected.extend_from_slice(&[0x12, 0x03, 0, 0, 0, 0xC0]);
    expected.resize(239, 0);
    assert_eq!(reply, expected);
}

#[test]
fn short_packets_are_parser_errors() {
    let mut dmx = header(0x5000);
    dmx.extend_from_slice(&[0x00, 14, 1, 0, 0]);
    let mut poll = header(0x2000);
    poll.extend_from_slice(&[0x00, 14, 0, 0, 0]);
    let mut command = header(0x2400);
    command.extend_from_slice(&[0x00, 14, b'A']);
    let mut sync = header(0x5200);
    sync.extend_from_slice(&[0x00, 14, 0]);
    for packet in [dmx, poll, command, sync, b"Art-Net\0".to_vec(), b"junk".to_vec()] {
        match parse_packet(&packet) {
            Err(text) => assert!(text.starts_with("ParserError(") && text.ends_with(')'), "{text}"),
            Ok(other) => panic!("short packet read as {other:?}"),
        }
    }
}

#[test]
fn error_texts_name_the_cause() {
    let mut newer = header(0x5000);
    newer.extend_from_slice(&[0x00, 15]);
    assert_eq!(parse_packet(&newer).unwrap_err(), "UnsupportedProtocolVersion(15)");
    let mut unknown = header(0x9900);
    unknown.extend_from_slice(&[0x00, 14]);
    assert_eq!(parse_packet(&unknown).unwrap_err(), "UnsupportedOpCode(39168)");
}

#[test]
fn payload_constructor_and_length() {
    let data = artnet_client::payload::payload_from_slice(&[4, 5, 6]);
    assert_eq!(data.as_ref(), &[4, 5, 6]);
    assert_eq!(artnet_client::payload::payload_len(&data), 3);
}
