use tiny_artnet::Art;
use vstd::prelude::*;

verus! {

/// The Art-Net Port-Address as `tiny_artnet` hands it out: Net, Sub-Net and
/// Universe as separate bytes. Declared with its fields, which are its three
/// public `u8` fields `net`, `sub_net` and `universe`, so that verified code
/// reads and builds it.
#[verifier::external_type_specification]
pub struct ExPortAddress(tiny_artnet::PortAddress);

/// Op code of an ArtPoll packet.
pub const OP_POLL: u16 = 0x2000;

/// Op code of an ArtPollReply packet.
pub const OP_POLL_REPLY: u16 = 0x2100;

/// Op code of an ArtCommand packet.
pub const OP_COMMAND: u16 = 0x2400;

/// Op code of an ArtDmx packet.
pub const OP_DMX: u16 = 0x5000;

/// Op code of an ArtSync packet.
pub const OP_SYNC: u16 = 0x5200;

/// The Art-Net protocol revision this client speaks.
pub const PROTOCOL_VERSION: u16 = 14;

/// The fewest bytes that an ArtPollReply may have and still be read.
pub const POLL_REPLY_MIN_LEN: usize = 207;

/// The packet identifier that starts every Art-Net packet: `"Art-Net\0"`.
pub open spec fn artnet_id() -> Seq<u8> {
    seq![0x41u8, 0x72u8, 0x74u8, 0x2du8, 0x4eu8, 0x65u8, 0x74u8, 0x00u8]
}

/// A 16-bit number sent low byte first.
pub open spec fn u16_le(lo: u8, hi: u8) -> int {
    lo + hi * 256
}

/// A 16-bit number sent high byte first.
pub open spec fn u16_be(hi: u8, lo: u8) -> int {
    hi * 256 + lo
}

/// The packet starts with the Art-Net identifier and holds an op code.
pub open spec fn has_id_and_op_code(s: Seq<u8>) -> bool {
    s.len() >= 10 && s.subrange(0, 8) == artnet_id()
}

/// The op code of a packet (bytes 8 and 9, low byte first).
pub open spec fn op_code_of(s: Seq<u8>) -> int {
    u16_le(s[8], s[9])
}

/// The packet starts with the Art-Net identifier, an op code and a protocol
/// version that this client accepts.
pub open spec fn has_supported_header(s: Seq<u8>) -> bool {
    &&& s.len() >= 12
    &&& has_id_and_op_code(s)
    &&& u16_be(s[10], s[11]) <= PROTOCOL_VERSION
}

/// An ArtDmx or ArtCommand packet whose length field announces more data than
/// the packet holds.
pub open spec fn is_truncated_packet(s: Seq<u8>) -> bool {
    &&& has_supported_header(s)
    &&& {
        ||| (op_code_of(s) == OP_DMX && s.len() >= 18 && u16_be(s[16], s[17]) > s.len() - 18)
        ||| (op_code_of(s) == OP_COMMAND && s.len() >= 16 && u16_le(s[14], s[15]) > s.len()
            - 16)
    }
}

/// An ArtPoll request.
#[derive(Debug, Clone, Copy, PartialEq, Eq, Structural)]
pub struct PollRequest {
    pub flags: u8,
    pub min_diagnostic_priority: u8,
    /// The lowest Port-Address whose nodes should answer.
    pub target_top: u16,
    /// The highest Port-Address whose nodes should answer.
    pub target_bottom: u16,
}

/// What this client reads of an ArtPollReply: the node's Net and Sub-Net switches.
#[derive(Debug, Clone, Copy, PartialEq, Eq, Structural)]
pub struct PollReply {
    pub net_switch: u8,
    pub sub_switch: u8,
}

/// An ArtCommand packet.
#[derive(Debug)]
pub struct CommandPacket {
    pub esta_manufacturer_code: (char, char),
    pub data: Vec<u8>,
}

/// An ArtDmx packet: the channel values of one universe.
#[derive(Debug)]
pub struct DmxPacket {
    pub sequence: u8,
    pub physical: u8,
    pub port_address: tiny_artnet::PortAddress,
    pub data: Vec<u8>,
}

/// An Art-Net packet that this client reads.
#[derive(Debug)]
pub enum ArtCommand {
    Poll(PollRequest),
    PollReply(PollReply),
    Command(CommandPacket),
    Dmx(DmxPacket),
    Sync,
}

/// The mathematical value of an `ArtCommand`: the same, with sequences for the data.
pub enum ArtCommandView {
    Poll(PollRequest),
    PollReply(PollReply),
    Command { esta_manufacturer_code: (char, char), data: Seq<u8> },
    Dmx { sequence: u8, physical: u8, port_address: tiny_artnet::PortAddress, data: Seq<u8> },
    Sync,
}

impl View for ArtCommand {
    type V = ArtCommandView;

    open spec fn view(&self) -> ArtCommandView {
        match self {
            ArtCommand::Poll(p) => ArtCommandView::Poll(*p),
            ArtCommand::PollReply(r) => ArtCommandView::PollReply(*r),
            ArtCommand::Command(c) => ArtCommandView::Command {
                esta_manufacturer_code: c.esta_manufacturer_code,
                data: c.data@,
            },
            ArtCommand::Dmx(d) => ArtCommandView::Dmx {
                sequence: d.sequence,
                physical: d.physical,
                port_address: d.port_address,
                data: d.data@,
            },
            ArtCommand::Sync => ArtCommandView::Sync,
        }
    }
}

/// What `tiny_artnet::from_slice` makes of a packet; an error is given by the
/// text that the error's `Debug` writes.
pub uninterp spec fn artnet_from_slice_result(bytes: Seq<u8>) -> Result<ArtCommandView, Seq<char>>;

/// A well-formed ArtPoll packet: a supported header, the ArtPoll op code, the
/// flags and the priority, and either nothing more or a target range.
pub open spec fn is_poll_packet(s: Seq<u8>) -> bool {
    &&& has_supported_header(s)
    &&& op_code_of(s) == OP_POLL
    &&& (s.len() == 14 || s.len() >= 18)
}

/// The request that a well-formed ArtPoll packet carries.
pub open spec fn poll_packet_request(s: Seq<u8>) -> PollRequest {
    PollRequest {
        flags: s[12],
        min_diagnostic_priority: s[13],
        target_top: if s.len() == 14 {
            0
        } else {
            u16_be(s[14], s[15]) as u16
        },
        target_bottom: if s.len() == 14 {
            0xffff
        } else {
            u16_be(s[16], s[17]) as u16
        },
    }
}

/// A well-formed ArtDmx packet: a supported header, the ArtDmx op code, and at
/// least as much data as its length field announces.
pub open spec fn is_dmx_packet(s: Seq<u8>) -> bool {
    &&& has_supported_header(s)
    &&& op_code_of(s) == OP_DMX
    &&& s.len() >= 18
    &&& u16_be(s[16], s[17]) <= s.len() - 18
}

/// The Port-Address of an ArtDmx packet: Sub-Net and Universe share byte 14,
/// the Net is the low seven bits of byte 15.
pub open spec fn dmx_packet_port_address(s: Seq<u8>) -> tiny_artnet::PortAddress {
    tiny_artnet::PortAddress { net: s[15] % 128, sub_net: s[14] / 16, universe: s[14] % 16 }
}

/// The data of a well-formed ArtDmx packet.
pub open spec fn dmx_packet_data(s: Seq<u8>) -> Seq<u8> {
    s.subrange(18, 18 + u16_be(s[16], s[17]))
}

/// What a well-formed ArtDmx packet carries.
pub open spec fn dmx_packet_view(s: Seq<u8>) -> ArtCommandView {
    ArtCommandView::Dmx {
        sequence: s[12],
        physical: s[13],
        port_address: dmx_packet_port_address(s),
        data: dmx_packet_data(s),
    }
}

/// An op code that `tiny_artnet` reads: ArtPoll, ArtCommand, ArtDmx or ArtSync.
pub open spec fn is_known_op_code(op_code: int) -> bool {
    op_code == OP_POLL || op_code == OP_COMMAND || op_code == OP_DMX || op_code == OP_SYNC
}

/// The packet starts with the Art-Net identifier and an op code, but its
/// protocol version is newer than this client's.
pub open spec fn has_unsupported_version(s: Seq<u8>) -> bool {
    &&& s.len() >= 12
    &&& has_id_and_op_code(s)
    &&& u16_be(s[10], s[11]) > PROTOCOL_VERSION
}

/// A packet with a supported header and a known op code that is too short to
/// hold the fields of its kind.
pub open spec fn is_short_packet(s: Seq<u8>) -> bool {
    &&& has_supported_header(s)
    &&& {
        ||| (op_code_of(s) == OP_POLL && !(s.len() == 14 || s.len() >= 18))
        ||| (op_code_of(s) == OP_COMMAND && s.len() < 16)
        ||| (op_code_of(s) == OP_DMX && s.len() < 18)
        ||| (op_code_of(s) == OP_SYNC && s.len() < 14)
    }
}

/// A well-formed ArtCommand packet: a supported header, the ArtCommand op code,
/// and at least as much data as its length field announces.
pub open spec fn is_command_packet(s: Seq<u8>) -> bool {
    &&& has_supported_header(s)
    &&& op_code_of(s) == OP_COMMAND
    &&& s.len() >= 16
    &&& u16_le(s[14], s[15]) <= s.len() - 16
}

/// What a well-formed ArtCommand packet carries: the ESTA manufacturer code
/// (bytes 12 and 13, each read as a character) and the data.
pub open spec fn command_packet_view(s: Seq<u8>) -> ArtCommandView {
    ArtCommandView::Command {
        esta_manufacturer_code: (s[12] as char, s[13] as char),
        data: s.subrange(16, 16 + u16_le(s[14], s[15])),
    }
}

/// The text that the derived `Debug` of `tiny_artnet::Error` writes: the name of
/// one of its three variants, then the variant's field in parentheses.
pub open spec fn is_artnet_error_text(t: Seq<char>) -> bool {
    &&& t.len() > 0
    &&& t.last() == ')'
    &&& {
        ||| "UnsupportedProtocolVersion("@.is_prefix_of(t)
        ||| "UnsupportedOpCode("@.is_prefix_of(t)
        ||| "ParserError("@.is_prefix_of(t)
    }
}

/// Reads an Art-Net packet with `tiny_artnet::from_slice`; an error comes back
/// as the text that its `Debug` writes.
///
/// Trusted: the result is the one `artnet_from_slice_result` names for these
/// bytes. As the crate's parser and its derived `Debug` have it: a packet
/// without the Art-Net identifier and a complete header, or too short for the
/// fields of its kind, is a `ParserError`; a newer protocol version is an
/// `UnsupportedProtocolVersion`; another op code than ArtPoll, ArtCommand,
/// ArtDmx and ArtSync is an `UnsupportedOpCode`; every other packet is read
/// field by field. Not stated: the rest of an error's text (the number or the
/// parser's error in parentheses). `from_slice` panics on a packet that
/// announces more data than it holds, so such packets are left out.
#[verifier::external_body]
fn artnet_from_slice(s: &[u8]) -> (r: Result<ArtCommand, String>)
    requires
        !is_truncated_packet(s@),
    ensures
        r is Ok <==> artnet_from_slice_result(s@) is Ok,
        r matches Ok(c) ==> artnet_from_slice_result(s@)->Ok_0 == c@,
        r matches Err(t) ==> artnet_from_slice_result(s@)->Err_0 == t@,
        r matches Err(t) ==> is_artnet_error_text(t@),
        !(s@.len() >= 12 && has_id_and_op_code(s@)) ==> r is Err
            && "ParserError("@.is_prefix_of(r->Err_0@),
        has_unsupported_version(s@) ==> r is Err
            && "UnsupportedProtocolVersion("@.is_prefix_of(r->Err_0@),
        has_supported_header(s@) && !is_known_op_code(op_code_of(s@)) ==> r is Err
            && "UnsupportedOpCode("@.is_prefix_of(r->Err_0@),
        is_short_packet(s@) ==> r is Err && "ParserError("@.is_prefix_of(r->Err_0@),
        has_supported_header(s@) && op_code_of(s@) == OP_SYNC && s@.len() >= 14 ==> r is Ok
            && r->Ok_0@ == ArtCommandView::Sync,
        is_poll_packet(s@) ==> r is Ok && r->Ok_0@ == ArtCommandView::Poll(poll_packet_request(s@)),
        is_command_packet(s@) ==> r is Ok && r->Ok_0@ == command_packet_view(s@),
        is_dmx_packet(s@) ==> r is Ok && r->Ok_0@ == dmx_packet_view(s@),
{
    Ok(match tiny_artnet::from_slice(s).map_err(|e| format!("{e:?}"))? {
        Art::Poll(p) => ArtCommand::Poll(PollRequest { flags: p.flags, min_diagnostic_priority: p.min_diagnostic_priority, target_top: *p.target_port_addresses.start(), target_bottom: *p.target_port_addresses.end() }),
        Art::Command(c) => ArtCommand::Command(CommandPacket { esta_manufacturer_code: c.esta_manufacturer_code, data: c.data.to_vec() }),
        Art::Dmx(d) => ArtCommand::Dmx(DmxPacket { sequence: d.sequence, physical: d.physical, port_address: d.port_address, data: d.data.to_vec() }),
        Art::Sync => ArtCommand::Sync,
    })
}

/// The Art-Net packet identifier followed by an op code, low byte first.
fn push_id_and_op_code(buf: &mut Vec<u8>, op_code: u16)
    ensures
        final(buf)@ == old(buf)@ + artnet_id() + seq![(op_code % 256) as u8, (op_code / 256) as u8],
{
    buf.push(0x41u8);
    buf.push(0x72u8);
    buf.push(0x74u8);
    buf.push(0x2du8);
    buf.push(0x4eu8);
    buf.push(0x65u8);
    buf.push(0x74u8);
    buf.push(0x00u8);
    buf.push((op_code % 256) as u8);
    buf.push((op_code / 256) as u8);
    assert(buf@ =~= old(buf)@ + artnet_id() + seq![(op_code % 256) as u8, (op_code / 256) as u8]);
}

/// Reads a 16-bit number sent high byte first.
fn read_u16_be(s: &[u8], at: usize) -> (r: u16)
    requires
        at + 1 < s@.len(),
    ensures
        r == u16_be(s@[at as int], s@[at + 1]),
{
    (s[at] as u16) * 256 + (s[at + 1] as u16)
}

/// Reads a 16-bit number sent low byte first.
fn read_u16_le(s: &[u8], at: usize) -> (r: u16)
    requires
        at + 1 < s@.len(),
    ensures
        r == u16_le(s@[at as int], s@[at + 1]),
{
    (s[at] as u16) + (s[at + 1] as u16) * 256
}

/// Whether a packet starts with the Art-Net identifier and holds an op code.
pub fn has_artnet_id(s: &[u8]) -> (r: bool)
    ensures
        r == has_id_and_op_code(s@),
{
    if s.len() < 10 {
        return false;
    }
    let r = s[0] == 0x41 && s[1] == 0x72 && s[2] == 0x74 && s[3] == 0x2d && s[4] == 0x4e && s[5]
        == 0x65 && s[6] == 0x74 && s[7] == 0x00;
    if r {
        assert(s@.subrange(0, 8) =~= artnet_id());
    } else {
        assert(forall|i: int| 0 <= i < 8 ==> s@.subrange(0, 8)[i] == s@[i]);
    }
    r
}

/// Whether a packet is an ArtDmx or ArtCommand packet whose length field
/// announces more data than the packet holds. `tiny_artnet` cannot read such a
/// packet (it panics), so it must be turned away before it is read.
pub fn is_truncated(s: &[u8]) -> (r: bool)
    ensures
        r == is_truncated_packet(s@),
{
    if s.len() < 12 || !has_artnet_id(s) || read_u16_be(s, 10) > PROTOCOL_VERSION {
        return false;
    }
    let op_code = read_u16_le(s, 8);
    if op_code == OP_DMX && s.len() >= 18 {
        (read_u16_be(s, 16) as usize) > s.len() - 18
    } else if op_code == OP_COMMAND && s.len() >= 16 {
        (read_u16_le(s, 14) as usize) > s.len() - 16
    } else {
        false
    }
}

/// An ArtPollReply packet long enough to be read.
pub open spec fn is_poll_reply_packet(s: Seq<u8>) -> bool {
    &&& has_id_and_op_code(s)
    &&& op_code_of(s) == OP_POLL_REPLY
    &&& s.len() >= POLL_REPLY_MIN_LEN
}

/// The Net and Sub-Net switches of an ArtPollReply (bytes 18 and 19).
pub open spec fn poll_reply_packet_fields(s: Seq<u8>) -> PollReply {
    PollReply { net_switch: s[18], sub_switch: s[19] }
}

/// Reads the Net and Sub-Net switches out of an ArtPollReply packet.
pub fn parse_poll_reply(s: &[u8]) -> (r: Option<PollReply>)
    ensures
        r == (if is_poll_reply_packet(s@) {
            Some(poll_reply_packet_fields(s@))
        } else {
            None
        }),
{
    if s.len() >= POLL_REPLY_MIN_LEN && has_artnet_id(s) && read_u16_le(s, 8) == OP_POLL_REPLY {
        Some(PollReply { net_switch: s[18], sub_switch: s[19] })
    } else {
        None
    }
}

/// What a packet reads as: an ArtPollReply that this client reads itself, or what
/// `tiny_artnet` makes of it (an error, given by its text, for a packet that is
/// not an Art-Net packet this client reads).
pub open spec fn packet_result(s: Seq<u8>) -> Result<ArtCommandView, Seq<char>> {
    if is_poll_reply_packet(s) {
        Ok(ArtCommandView::PollReply(poll_reply_packet_fields(s)))
    } else {
        artnet_from_slice_result(s)
    }
}

/// What a packet reads as, if it reads at all.
pub open spec fn packet_view(s: Seq<u8>) -> Option<ArtCommandView> {
    match packet_result(s) {
        Ok(c) => Some(c),
        Err(_) => None,
    }
}

/// Reads an Art-Net packet; an error is the text of why it could not be read.
pub fn parse_packet(s: &[u8]) -> (r: Result<ArtCommand, String>)
    requires
        !is_truncated_packet(s@),
    ensures
        r is Ok <==> packet_result(s@) is Ok,
        r matches Ok(c) ==> packet_result(s@)->Ok_0 == c@,
        r matches Err(t) ==> packet_result(s@)->Err_0 == t@,
        r matches Err(t) ==> is_artnet_error_text(t@),
        !has_id_and_op_code(s@) ==> r is Err && "ParserError("@.is_prefix_of(r->Err_0@),
        is_poll_packet(s@) ==> r is Ok && r->Ok_0@ == ArtCommandView::Poll(poll_packet_request(s@)),
        is_dmx_packet(s@) ==> r is Ok && r->Ok_0@ == dmx_packet_view(s@),
{
    match parse_poll_reply(s) {
        Some(reply) => Ok(ArtCommand::PollReply(reply)),
        None => artnet_from_slice(s),
    }
}

/// The Sub-Net and Universe of a Port-Address packed into one byte.
pub open spec fn sub_uni_byte(port: tiny_artnet::PortAddress) -> u8 {
    ((port.sub_net % 16) * 16 + port.universe % 16) as u8
}

/// The ArtDmx packet that carries `data` for `port` with the given sequence
/// number and physical port.
pub open spec fn dmx_packet_bytes(
    sequence: u8,
    physical: u8,
    port: tiny_artnet::PortAddress,
    data: Seq<u8>,
) -> Seq<u8> {
    artnet_id() + seq![
        0x00u8,
        0x50u8,
        0x00u8,
        14u8,
        sequence,
        physical,
        sub_uni_byte(port),
        (port.net % 128) as u8,
        (data.len() / 256) as u8,
        (data.len() % 256) as u8,
    ] + data
}

/// Writes an ArtDmx packet.
pub fn serialize_dmx(
    sequence: u8,
    physical: u8,
    port_address: &tiny_artnet::PortAddress,
    data: &[u8],
) -> (r: Vec<u8>)
    requires
        data@.len() <= 0xffff,
    ensures
        r@ == dmx_packet_bytes(sequence, physical, *port_address, data@),
{
    let mut buf: Vec<u8> = Vec::new();
    push_id_and_op_code(&mut buf, OP_DMX);
    buf.push(0x00u8);
    buf.push(14u8);
    buf.push(sequence);
    buf.push(physical);
    buf.push((port_address.sub_net % 16) * 16 + port_address.universe % 16);
    buf.push(port_address.net % 128);
    let len = data.len();
    buf.push((len / 256) as u8);
    buf.push((len % 256) as u8);
    let ghost before = buf@;
    buf.extend_from_slice(data);
    assert(buf@ =~= before + data@);
    assert(buf@ =~= dmx_packet_bytes(sequence, physical, *port_address, data@));
    buf
}

/// The ArtPoll packet that this client broadcasts: no flags, the lowest
/// diagnostics priority, every Port-Address.
pub open spec fn poll_packet_bytes() -> Seq<u8> {
    artnet_id() + seq![0x00u8, 0x20u8, 0x00u8, 14u8, 0x00u8, 0x00u8]
}

/// Writes an ArtPoll packet.
pub fn serialize_poll() -> (r: Vec<u8>)
    ensures
        r@ == poll_packet_bytes(),
{
    let mut buf: Vec<u8> = Vec::new();
    push_id_and_op_code(&mut buf, OP_POLL);
    buf.push(0x00u8);
    buf.push(14u8);
    buf.push(0x00u8);
    buf.push(0x00u8);
    assert(buf@ =~= poll_packet_bytes());
    buf
}

/// The length of the ArtPollReply packet that `tiny_artnet` writes.
pub const POLL_REPLY_LEN: usize = 239;

/// The ArtPollReply packet that `tiny_artnet::PollReply::serialize` writes for a
/// node with the given Net and Sub-Net switches and every other field at its
/// default: the identifier and op code, eight zero bytes (IP address, port,
/// firmware version), the two switches, four zero bytes (OEM code, UBEA
/// version), the status byte 0xC0 (indicators in normal mode), and zeros to the
/// end (names, report, ports, MAC and bind addresses, filler).
pub open spec fn poll_reply_bytes(net_switch: u8, sub_switch: u8) -> Seq<u8> {
    artnet_id() + seq![0x00u8, 0x21u8] + Seq::new(8, |i: int| 0u8) + seq![
        net_switch,
        sub_switch,
        0x00u8,
        0x00u8,
        0x00u8,
        0xC0u8,
    ] + Seq::new(215, |i: int| 0u8)
}

/// The ArtPollReply that a node writes is one that reads back as its two switches.
pub proof fn lemma_poll_reply_bytes_read(net_switch: u8, sub_switch: u8)
    ensures
        poll_reply_bytes(net_switch, sub_switch).len() == POLL_REPLY_LEN,
        is_poll_reply_packet(poll_reply_bytes(net_switch, sub_switch)),
        poll_reply_packet_fields(poll_reply_bytes(net_switch, sub_switch)) == (PollReply {
            net_switch,
            sub_switch,
        }),
{
    let b = poll_reply_bytes(net_switch, sub_switch);
    assert(b.subrange(0, 8) =~= artnet_id());
}

/// Writes an ArtPollReply with `tiny_artnet::PollReply::serialize`, every field
/// but the Net and Sub-Net switches at its default.
///
/// Trusted: the bytes are `poll_reply_bytes`, as the crate's `serialize` writes
/// the fields of `PollReply::default()` with the two switches set.
#[verifier::external_body]
pub(crate) fn serialize_poll_reply(net_switch: u8, sub_switch: u8) -> (r: Vec<u8>)
    ensures
        r@ == poll_reply_bytes(net_switch, sub_switch),
{
    let reply = tiny_artnet::PollReply { net_switch, sub_switch, ..Default::default() };
    let mut buffer = [0u8; 1024];
    let len = reply.serialize(&mut buffer[..]);
    buffer[..len].to_vec()
}

} // verus!
