//! Complete radio packets and the helpers that build them.
use crate::protocol::checksum;
use crate::protocol::checksum::compute_checksum;
use crate::protocol::message::{CarStatus, MessageType, RadioHeader};
use crate::protocol::payload::{MotionPayload, ResponsePayload, TelemetryPayload};
use crate::protocol::{MAX_PACKET_SIZE, MAX_PAYLOAD_SIZE, PROTOCOL_VERSION};
use vstd::prelude::*;

verus! {

/// A sequence of `n` zero bytes.
pub open spec fn zeros(n: nat) -> Seq<u8> {
    Seq::new(n, |i: int| 0u8)
}

/// Complete radio packet.
///
/// On the wire: `[header: 4][payload: 0-27][checksum: 1]`, the checksum being
/// the exclusive or of header and payload.
#[derive(Debug)]
pub struct RadioPacket {
    /// Packet header.
    pub header: RadioHeader,
    /// Payload buffer, of which only the front is in use.
    pub payload: [u8; MAX_PAYLOAD_SIZE],
    /// Number of payload bytes in use.
    pub(crate) payload_len: u8,
}

impl RadioPacket {
    /// The number of payload bytes in use.
    pub open(crate) spec fn size(self) -> nat {
        self.payload_len as nat
    }

    /// The packet header.
    pub open(crate) spec fn head(self) -> RadioHeader {
        self.header
    }

    /// The whole payload buffer.
    pub open(crate) spec fn buffer(self) -> Seq<u8> {
        self.payload@
    }

    /// The bytes in use fit the buffer.
    pub open spec fn wf(self) -> bool {
        self.size() <= MAX_PAYLOAD_SIZE
    }

    /// The payload bytes in use.
    pub open spec fn data(self) -> Seq<u8> {
        self.buffer().take(self.size() as int)
    }

    /// Header and payload, the part that the checksum covers.
    pub open spec fn body(self) -> Seq<u8> {
        self.head().wire() + self.data()
    }

    /// The bytes that go on air.
    pub open spec fn frame(self) -> Seq<u8> {
        self.body().push(checksum::xor_all(self.body()))
    }

    /// The header speaks of this packet: it has the current version and the
    /// length of the payload in use.
    pub open spec fn consistent(self) -> bool {
        &&& self.wf()
        &&& self.head().version == PROTOCOL_VERSION
        &&& self.head().payload_len == self.size()
    }

    /// A packet of the current version that carries exactly `data`, with the
    /// rest of the buffer zero.
    pub open spec fn carries(self, msg_type: MessageType, seq: u8, data: Seq<u8>) -> bool {
        &&& self.wf()
        &&& self.head() == (RadioHeader {
            version: PROTOCOL_VERSION,
            msg_type,
            seq,
            payload_len: data.len() as u8,
        })
        &&& self.size() == data.len()
        &&& self.buffer() == data + zeros((MAX_PAYLOAD_SIZE - data.len()) as nat)
    }

    /// The length of the frame that the header at the front of `bytes`
    /// announces.
    pub open spec fn announced_len(bytes: Seq<u8>) -> int {
        RadioHeader::SIZE + bytes[3] + 1
    }

    /// `bytes` start with a valid frame: a header of the current version, all
    /// the payload it announces, and the right checksum behind it.
    pub open spec fn accepts(bytes: Seq<u8>) -> bool {
        &&& RadioHeader::parse(bytes) is Some
        &&& bytes[0] == PROTOCOL_VERSION
        &&& bytes.len() >= Self::announced_len(bytes)
        &&& bytes[Self::announced_len(bytes) - 1] == checksum::xor_all(
            bytes.take(Self::announced_len(bytes) - 1),
        )
    }

    /// This packet is what the frame at the front of `bytes` holds.
    pub open spec fn read_from(self, bytes: Seq<u8>) -> bool {
        &&& Self::accepts(bytes)
        &&& self.carries(
            RadioHeader::parse(bytes)->0.msg_type,
            bytes[2],
            bytes.subrange(RadioHeader::SIZE as int, Self::announced_len(bytes) - 1),
        )
    }

    /// Creates a packet without payload.
    pub fn new(msg_type: MessageType, seq: u8) -> (packet: Self)
        ensures
            packet.carries(msg_type, seq, Seq::empty()),
    {
        let packet = RadioPacket {
            header: RadioHeader { version: PROTOCOL_VERSION, msg_type, seq, payload_len: 0 },
            payload: [0u8; MAX_PAYLOAD_SIZE],
            payload_len: 0,
        };
        assert(packet.payload@ =~= Seq::<u8>::empty() + zeros(MAX_PAYLOAD_SIZE as nat));
        packet
    }

    /// Sets the payload. Data that does not fit is refused and changes
    /// nothing; buffer bytes behind the data keep their old values.
    pub fn set_payload(&mut self, data: &[u8]) -> (result: Result<(), ()>)
        ensures
            result is Ok <==> data@.len() <= MAX_PAYLOAD_SIZE,
            result is Err ==> *final(self) == *old(self),
            result is Ok ==> {
                &&& final(self).wf()
                &&& final(self).size() == data@.len()
                &&& final(self).data() == data@
                &&& final(self).buffer() == data@ + old(self).buffer().skip(data@.len() as int)
                &&& final(self).head() == (RadioHeader {
                    payload_len: data@.len() as u8,
                    ..old(self).head()
                })
            },
    {
        let n: usize = data.len();
        if n > MAX_PAYLOAD_SIZE {
            return Err(());
        }
        for i in 0..n
            invariant
                n == data@.len(),
                n <= MAX_PAYLOAD_SIZE,
                self.header == old(self).header,
                self.payload@ =~= data@.take(i as int) + old(self).payload@.skip(i as int),
        {
            self.payload[i] = data[i];
        }
        self.payload_len = n as u8;
        self.header.payload_len = n as u8;
        assert(data@.take(n as int) =~= data@);
        assert(self.data() =~= data@);
        Ok(())
    }

    /// The payload bytes in use.
    pub fn get_payload(&self) -> (data: &[u8])
        requires
            self.wf(),
        ensures
            data@ == self.data(),
    {
        &self.payload[0..self.payload_len as usize]
    }

    /// Number of bytes that go on air: header, payload and checksum.
    pub fn actual_size(&self) -> (size: usize)
        requires
            self.wf(),
        ensures
            size == self.frame().len(),
            size == RadioHeader::SIZE + self.size() + 1,
    {
        RadioHeader::SIZE + self.payload_len as usize + 1
    }

    /// Serializes the packet into a transmit buffer. The frame fills the front
    /// of the buffer, zeros the rest; its length comes with it.
    pub fn to_bytes(&self) -> (result: ([u8; MAX_PACKET_SIZE], usize))
        requires
            self.wf(),
        ensures
            result.1 == self.frame().len(),
            result.1 <= MAX_PACKET_SIZE,
            result.0@ == self.frame() + zeros((MAX_PACKET_SIZE - result.1) as nat),
    {
        let mut buf: [u8; MAX_PACKET_SIZE] = [0u8; MAX_PACKET_SIZE];
        let header_bytes = self.header.to_bytes();
        let n: usize = self.payload_len as usize;
        for i in 0..RadioHeader::SIZE
            invariant
                header_bytes@ == self.header.wire(),
                buf@ =~= self.header.wire().take(i as int) + zeros((MAX_PACKET_SIZE - i) as nat),
        {
            buf[i] = header_bytes[i];
        }
        assert(self.header.wire().take(4) =~= self.header.wire());
        for i in 0..n
            invariant
                n == self.size(),
                self.wf(),
                n == self.payload_len,
                buf@ =~= self.header.wire() + self.data().take(i as int) + zeros(
                    (MAX_PACKET_SIZE - 4 - i) as nat,
                ),
        {
            buf[RadioHeader::SIZE + i] = self.payload[i];
        }
        let payload_end: usize = RadioHeader::SIZE + n;
        assert(self.data().take(n as int) =~= self.data());
        let sum: u8 = compute_checksum(&buf[0..payload_end]);
        assert(buf@.subrange(0, payload_end as int) =~= self.body());
        buf[payload_end] = sum;
        let total_len: usize = payload_end + 1;
        assert(buf@ =~= self.frame() + zeros((MAX_PACKET_SIZE - total_len) as nat));
        (buf, total_len)
    }

    /// Deserializes the frame at the front of received bytes. Checks version,
    /// payload length and checksum; bytes behind the frame are ignored.
    pub fn from_bytes(bytes: &[u8]) -> (result: Option<Self>)
        ensures
            result is Some <==> Self::accepts(bytes@),
            result matches Some(packet) ==> packet.read_from(bytes@),
    {
        if bytes.len() < RadioHeader::SIZE + 1 {
            return None;
        }
        let header = match RadioHeader::from_bytes(bytes) {
            Some(header) => header,
            None => {
                return None;
            },
        };
        if header.version != PROTOCOL_VERSION {
            return None;
        }
        let payload_len: usize = header.payload_len as usize;
        let expected_total: usize = RadioHeader::SIZE + payload_len + 1;
        if bytes.len() < expected_total {
            return None;
        }
        let data_end: usize = RadioHeader::SIZE + payload_len;
        let expected_checksum: u8 = compute_checksum(&bytes[0..data_end]);
        let received_checksum: u8 = bytes[data_end];
        assert(bytes@.subrange(0, data_end as int) =~= bytes@.take(data_end as int));
        if expected_checksum != received_checksum {
            return None;
        }
        let mut packet = RadioPacket::new(header.msg_type, header.seq);
        let ghost before = packet.payload@;
        match packet.set_payload(&bytes[RadioHeader::SIZE..data_end]) {
            Ok(()) => {},
            Err(()) => {
                return None;
            },
        }
        assert(before.skip(payload_len as int) =~= zeros((MAX_PAYLOAD_SIZE - payload_len) as nat));
        Some(packet)
    }
}

/// Creates a packet that carries `data`.
fn packet_with(msg_type: MessageType, seq: u8, data: &[u8]) -> (packet: RadioPacket)
    requires
        data@.len() <= MAX_PAYLOAD_SIZE,
    ensures
        packet.carries(msg_type, seq, data@),
{
    let mut packet = RadioPacket::new(msg_type, seq);
    let ghost before = packet.payload@;
    let _ = packet.set_payload(data);
    assert(before.skip(data@.len() as int) =~= zeros((MAX_PAYLOAD_SIZE - data@.len()) as nat));
    packet
}

/// Creates a motion command packet; the components are clamped to
/// `-100..=100`.
pub fn create_motion_packet(seq: u8, vx: i8, vy: i8, omega: i8) -> (packet: RadioPacket)
    ensures
        packet.carries(
            MessageType::Motion,
            seq,
            (MotionPayload { vx, vy, omega }).limited().wire(),
        ),
{
    let motion = MotionPayload { vx, vy, omega }.clamped();
    packet_with(MessageType::Motion, seq, &motion.to_bytes())
}

/// Creates an emergency stop packet, without payload.
pub fn create_emergency_stop_packet(seq: u8) -> (packet: RadioPacket)
    ensures
        packet.carries(MessageType::EmergencyStop, seq, Seq::empty()),
{
    RadioPacket::new(MessageType::EmergencyStop, seq)
}

/// Creates a response packet.
pub fn create_response_packet(seq: u8, status: CarStatus, info: u8) -> (packet: RadioPacket)
    ensures
        packet.carries(MessageType::Response, seq, (ResponsePayload { status, info }).wire()),
{
    let response = ResponsePayload { status, info };
    packet_with(MessageType::Response, seq, &response.to_bytes())
}

/// Creates a heartbeat packet, without payload.
pub fn create_heartbeat_packet(seq: u8) -> (packet: RadioPacket)
    ensures
        packet.carries(MessageType::Heartbeat, seq, Seq::empty()),
{
    RadioPacket::new(MessageType::Heartbeat, seq)
}

/// Creates a telemetry packet.
pub fn create_telemetry_packet(seq: u8, telemetry: TelemetryPayload) -> (packet: RadioPacket)
    ensures
        packet.carries(MessageType::Telemetry, seq, telemetry.wire()),
{
    packet_with(MessageType::Telemetry, seq, &telemetry.to_bytes())
}

/// A packet that carries `data` has a header that fits it, and its frame fits
/// the radio.
pub proof fn law_carried_packet(packet: RadioPacket, msg_type: MessageType, seq: u8, data: Seq<u8>)
    requires
        packet.carries(msg_type, seq, data),
    ensures
        packet.consistent(),
        packet.data() == data,
        packet.frame().len() == RadioHeader::SIZE + data.len() + 1,
        packet.frame().len() <= MAX_PACKET_SIZE,
{
    assert(packet.data() =~= data);
}

/// A transmitted frame is valid, and a receiver finds the header and the payload
/// of the sender in it. Bytes behind the frame do not matter.
pub proof fn law_frame_is_understood(sent: RadioPacket, rest: Seq<u8>)
    requires
        sent.consistent(),
    ensures
        RadioPacket::accepts(sent.frame() + rest),
        RadioHeader::parse(sent.frame() + rest) == Some(sent.head()),
        (sent.frame() + rest).subrange(
            RadioHeader::SIZE as int,
            RadioPacket::announced_len(sent.frame() + rest) - 1,
        ) == sent.data(),
{
    let bytes = sent.frame() + rest;
    let n = sent.size() as int;
    assert(bytes =~= sent.head().wire() + (sent.data().push(checksum::xor_all(sent.body()))
        + rest));
    assert(bytes.take(4 + n) =~= sent.body());
    assert(bytes.subrange(4, 4 + n) =~= sent.data());
}

/// What a receiver reads out of a transmitted frame is the packet that was
/// sent: same header, same payload.
pub proof fn law_packet_round_trip(sent: RadioPacket, rest: Seq<u8>)
    requires
        sent.consistent(),
    ensures
        RadioPacket::accepts(sent.frame() + rest),
        forall|received: RadioPacket| #[trigger]
            received.read_from(sent.frame() + rest) ==> {
                &&& received.head() == sent.head()
                &&& received.data() == sent.data()
            },
{
    let bytes = sent.frame() + rest;
    law_frame_is_understood(sent, rest);
    assert forall|received: RadioPacket| #[trigger] received.read_from(bytes) implies {
        &&& received.head() == sent.head()
        &&& received.data() == sent.data()
    } by {
        assert(received.data() =~= sent.data());
    }
}

/// Sending a received packet again reproduces the received frame byte for
/// byte.
pub proof fn law_packet_parse_is_faithful(received: RadioPacket, bytes: Seq<u8>)
    requires
        received.read_from(bytes),
    ensures
        received.consistent(),
        received.frame() == bytes.take(RadioPacket::announced_len(bytes)),
{
    let total = RadioPacket::announced_len(bytes);
    let data = bytes.subrange(4, total - 1);
    law_carried_packet(received, RadioHeader::parse(bytes)->0.msg_type, bytes[2], data);
    assert(received.body() =~= bytes.take(total - 1));
    assert(received.frame() =~= bytes.take(total));
}

/// A frame that lost its tail is rejected.
pub proof fn law_truncated_frame_is_rejected(bytes: Seq<u8>, k: int)
    requires
        RadioPacket::accepts(bytes),
        0 <= k < RadioPacket::announced_len(bytes),
    ensures
        !RadioPacket::accepts(bytes.take(k)),
{
}

/// A frame of another protocol version is rejected.
pub proof fn law_other_version_is_rejected(bytes: Seq<u8>)
    requires
        bytes.len() > 0,
        bytes[0] != PROTOCOL_VERSION,
    ensures
        !RadioPacket::accepts(bytes),
{
}

/// A valid frame is rejected once any one of its bytes has changed, the length
/// byte excepted: a changed length moves the place where the checksum is
/// looked for.
pub proof fn law_corrupted_frame_is_rejected(bytes: Seq<u8>, i: int, byte: u8)
    requires
        RadioPacket::accepts(bytes),
        0 <= i < RadioPacket::announced_len(bytes),
        i != 3,
        byte != bytes[i],
    ensures
        !RadioPacket::accepts(bytes.update(i, byte)),
{
    let changed = bytes.update(i, byte);
    let end = RadioPacket::announced_len(bytes) - 1;
    if RadioPacket::accepts(changed) {
        if i < end {
            assert(changed.take(end) =~= bytes.take(end).update(i, byte));
            checksum::law_single_byte_error_is_detected(bytes.take(end), i, byte);
        } else {
            assert(changed.take(end) =~= bytes.take(end));
        }
        assert(false);
    }
}

/// A motion command that was sent arrives as the clamped motion.
pub proof fn law_motion_command_arrives(packet: RadioPacket, seq: u8, motion: MotionPayload)
    requires
        packet.carries(MessageType::Motion, seq, motion.limited().wire()),
    ensures
        MotionPayload::parse(packet.data()) == Some(motion.limited()),
        motion.limited().in_range(),
{
    law_carried_packet(packet, MessageType::Motion, seq, motion.limited().wire());
    assert(packet.data() =~= motion.limited().wire() + Seq::<u8>::empty());
}

/// Bytes are accepted just if they start with a whole frame: version 2, a known type,
/// a length of 27 at most, that many bytes of payload, and a checksum that makes the
/// exclusive or of all of it zero.
pub proof fn law_what_is_accepted(bytes: Seq<u8>)
    ensures
        RadioPacket::accepts(bytes) <==> {
            &&& bytes.len() >= 4
            &&& bytes[0] == 2
            &&& bytes[1] <= 4
            &&& bytes[3] <= 27
            &&& bytes.len() >= 5 + bytes[3]
            &&& checksum::xor_all(bytes.take(5 + bytes[3])) == 0
        },
{
    if bytes.len() >= 5 + bytes[3] && bytes.len() >= 4 {
        let end = 4 + bytes[3];
        let sum: u8 = checksum::xor_all(bytes.take(end));
        let last: u8 = bytes[end];
        assert(bytes.take(end + 1) =~= bytes.take(end).push(last));
        checksum::law_checksum_of_parts(bytes.take(end), Seq::empty(), last);
        assert((sum ^ last == 0u8) == (last == sum)) by (bit_vector);
    }
}

/// A frame is the four bytes of the header, the payload and one byte that makes the
/// exclusive or of all of it zero.
pub proof fn law_frame_bytes(packet: RadioPacket)
    requires
        packet.wf(),
    ensures
        packet.frame().len() == 5 + packet.data().len(),
        packet.frame().take(4) == packet.head().wire(),
        packet.frame().subrange(4, 4 + packet.data().len() as int) == packet.data(),
        checksum::xor_all(packet.frame()) == 0,
{
    checksum::law_checksum_cancels(packet.body());
    assert(packet.frame().take(4) =~= packet.head().wire());
    assert(packet.frame().subrange(4, 4 + packet.data().len() as int) =~= packet.data());
}

/// What is read out of a frame is its type, its sequence number and the payload that
/// its length byte announces.
pub proof fn law_what_is_read(packet: RadioPacket, bytes: Seq<u8>)
    requires
        packet.read_from(bytes),
    ensures
        packet.head().version == 2,
        packet.head().msg_type.code() == bytes[1],
        packet.head().seq == bytes[2],
        packet.head().payload_len == bytes[3],
        packet.data() == bytes.subrange(4, 4 + bytes[3]),
{
    law_carried_packet(
        packet,
        RadioHeader::parse(bytes)->0.msg_type,
        bytes[2],
        bytes.subrange(4, 4 + bytes[3]),
    );
}

/// A packet that carries data is of the current version and has the type, the
/// sequence number and the payload that it was made with, and zeros behind them.
pub proof fn law_what_is_carried(packet: RadioPacket, msg_type: MessageType, seq: u8, data: Seq<u8>)
    requires
        packet.carries(msg_type, seq, data),
    ensures
        packet.head().version == 2,
        packet.head().msg_type == msg_type,
        packet.head().seq == seq,
        packet.head().payload_len == data.len(),
        packet.data() == data,
        forall|i: int| data.len() <= i < 27 ==> #[trigger] packet.buffer()[i] == 0,
{
    law_carried_packet(packet, msg_type, seq, data);
}

/// The payload in use is the front of the buffer, and what fills a buffer up is zero.
pub proof fn law_payload_is_in_front(packet: RadioPacket, n: nat, i: int)
    requires
        packet.wf(),
    ensures
        packet.data().len() == packet.size(),
        0 <= i < packet.size() ==> packet.data()[i] == packet.buffer()[i],
        zeros(n).len() == n,
        0 <= i < n ==> zeros(n)[i] == 0,
{
}

} // verus!
