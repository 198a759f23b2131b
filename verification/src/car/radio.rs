//! The radio side of the car: what each packet from the controller leads to.
use crate::clock;
use crate::protocol::message::{CarStatus, MessageType, RadioHeader};
use crate::protocol::packet;
use crate::protocol::packet::{
    create_heartbeat_packet, create_response_packet, create_telemetry_packet, RadioPacket,
};
use crate::protocol::payload;
use crate::protocol::payload::{MotionPayload, ResponsePayload, TelemetryPayload};
use crate::radio_core::next_seq;
use vstd::prelude::*;

verus! {

/// Time after which an idle receive is started afresh (ms).
pub const RX_ATTEMPT_TIMEOUT_MS: u64 = 1000;

/// What a packet leads to.
#[derive(Debug)]
pub enum CarAction {
    /// Nothing.
    Ignore,
    /// Hand the command to the drive loop.
    Drive(MotionPayload),
    /// Raise the emergency stop, hand the command to the drive loop and send the
    /// reply.
    EmergencyStop { motion: MotionPayload, reply: RadioPacket },
    /// Send the reply.
    Reply(RadioPacket),
}

/// The radio state of the car.
#[derive(Clone, Copy, PartialEq, Eq, Structural, Debug)]
pub struct CarRadio {
    /// Next sequence number to send with.
    pub seq: u8,
    /// When the last valid packet came, in milliseconds since power-up on a
    /// clock that wraps at 32 bits; zero before the first.
    pub last_rx_ms: u32,
}

/// The action that a packet calls for, of a car that replies with `seq`.
/// Telemetry and responses are not for the car, and neither is a motion packet
/// whose payload is too short; motion is not acknowledged.
pub open spec fn answers(
    msg_type: MessageType,
    data: Seq<u8>,
    seq: u8,
    action: CarAction,
) -> bool {
    match msg_type {
        MessageType::Motion => match MotionPayload::parse(data) {
            Some(motion) => action == CarAction::Drive(motion),
            None => action is Ignore,
        },
        MessageType::EmergencyStop => {
            &&& action matches CarAction::EmergencyStop { motion, reply }
            &&& motion.is_stop()
            &&& reply.carries(
                MessageType::Response,
                seq,
                (ResponsePayload { status: CarStatus::Stopped, info: 0 }).wire(),
            )
        },
        MessageType::Heartbeat => {
            &&& action matches CarAction::Reply(reply)
            &&& reply.carries(MessageType::Heartbeat, seq, Seq::empty())
        },
        MessageType::Telemetry | MessageType::Response => action is Ignore,
    }
}

/// A message of this type is replied to.
pub open spec fn is_replied_to(msg_type: MessageType) -> bool {
    msg_type is EmergencyStop || msg_type is Heartbeat
}

/// The next sequence number after a message of this type was handled.
pub open spec fn seq_after(seq: u8, msg_type: MessageType) -> u8 {
    if is_replied_to(msg_type) {
        ((seq + 1) % 256) as u8
    } else {
        seq
    }
}

impl CarRadio {
    /// A radio that has heard nothing yet.
    pub fn new() -> (radio: Self)
        ensures
            radio == (CarRadio { seq: 0, last_rx_ms: 0 }),
    {
        CarRadio { seq: 0, last_rx_ms: 0 }
    }

    /// When the last valid packet came, zero if none ever did.
    pub fn last_rx_millis(&self) -> (millis: u32)
        ensures
            millis == self.last_rx_ms,
    {
        self.last_rx_ms
    }

    /// Notes that a valid packet came now.
    pub fn touch_last_rx(&mut self)
        ensures
            final(self).seq == old(self).seq,
    {
        self.touch_last_rx_at(clock::now_millis());
    }

    /// Notes that a valid packet came at `now_ms`.
    pub fn touch_last_rx_at(&mut self, now_ms: u64)
        ensures
            final(self).seq == old(self).seq,
            final(self).last_rx_ms == now_ms % 0x1_0000_0000,
    {
        self.last_rx_ms = (now_ms % 0x1_0000_0000) as u32;
    }

    /// Decides what a valid packet leads to.
    pub fn handle_received_packet(&mut self, packet: &RadioPacket) -> (action: CarAction)
        requires
            packet.wf(),
        ensures
            answers(packet.head().msg_type, packet.data(), old(self).seq, action),
            *final(self) == (CarRadio {
                seq: seq_after(old(self).seq, packet.head().msg_type),
                last_rx_ms: old(self).last_rx_ms,
            }),
    {
        match packet.header.msg_type {
            MessageType::Motion => match MotionPayload::from_bytes(packet.get_payload()) {
                Some(motion) => CarAction::Drive(motion),
                None => CarAction::Ignore,
            },
            MessageType::EmergencyStop => {
                let reply = create_response_packet(next_seq(&mut self.seq), CarStatus::Stopped, 0);
                CarAction::EmergencyStop { motion: MotionPayload::stop(), reply }
            },
            MessageType::Heartbeat => {
                CarAction::Reply(create_heartbeat_packet(next_seq(&mut self.seq)))
            },
            MessageType::Telemetry | MessageType::Response => CarAction::Ignore,
        }
    }

    /// Takes received bytes that came at `now_ms`. Bytes that are no valid frame
    /// are ignored and leave no trace.
    pub fn on_frame_at(&mut self, data: &[u8], now_ms: u64) -> (action: CarAction)
        ensures
            !RadioPacket::accepts(data@) ==> action is Ignore && *final(self) == *old(self),
            RadioPacket::accepts(data@) ==> {
                let msg_type = RadioHeader::parse(data@)->0.msg_type;
                &&& answers(
                    msg_type,
                    data@.subrange(
                        RadioHeader::SIZE as int,
                        RadioPacket::announced_len(data@) - 1,
                    ),
                    old(self).seq,
                    action,
                )
                &&& final(self).seq == seq_after(old(self).seq, msg_type)
                &&& final(self).last_rx_ms == now_ms % 0x1_0000_0000
            },
    {
        match RadioPacket::from_bytes(data) {
            Some(packet) => {
                self.touch_last_rx_at(now_ms);
                assert(packet.data() == data@.subrange(
                    RadioHeader::SIZE as int,
                    RadioPacket::announced_len(data@) - 1,
                ));
                self.handle_received_packet(&packet)
            },
            None => CarAction::Ignore,
        }
    }

    /// Takes received bytes that come now.
    pub fn on_frame(&mut self, data: &[u8]) -> (action: CarAction)
        ensures
            !RadioPacket::accepts(data@) ==> action is Ignore && *final(self) == *old(self),
            RadioPacket::accepts(data@) ==> {
                let msg_type = RadioHeader::parse(data@)->0.msg_type;
                &&& answers(
                    msg_type,
                    data@.subrange(
                        RadioHeader::SIZE as int,
                        RadioPacket::announced_len(data@) - 1,
                    ),
                    old(self).seq,
                    action,
                )
                &&& final(self).seq == seq_after(old(self).seq, msg_type)
            },
    {
        self.on_frame_at(data, clock::now_millis())
    }

    /// Builds the packet that sends telemetry.
    pub fn telemetry_packet(&mut self, telemetry: TelemetryPayload) -> (packet: RadioPacket)
        ensures
            packet.carries(MessageType::Telemetry, old(self).seq, telemetry.wire()),
            *final(self) == (CarRadio {
                seq: ((old(self).seq + 1) % 256) as u8,
                last_rx_ms: old(self).last_rx_ms,
            }),
    {
        create_telemetry_packet(next_seq(&mut self.seq), telemetry)
    }
}

/// A motion command that the controller sends makes the car drive as commanded,
/// within the limits of the protocol, whatever follows the frame on air.
pub proof fn law_command_is_driven(
    sent: RadioPacket,
    sent_seq: u8,
    motion: MotionPayload,
    rest: Seq<u8>,
    seq: u8,
    action: CarAction,
)
    requires
        sent.carries(MessageType::Motion, sent_seq, motion.limited().wire()),
        answers(
            RadioHeader::parse(sent.frame() + rest)->0.msg_type,
            (sent.frame() + rest).subrange(
                RadioHeader::SIZE as int,
                RadioPacket::announced_len(sent.frame() + rest) - 1,
            ),
            seq,
            action,
        ),
    ensures
        RadioPacket::accepts(sent.frame() + rest),
        action == CarAction::Drive(motion.limited()),
        motion.in_range() ==> action == CarAction::Drive(motion),
{
    packet::law_carried_packet(sent, MessageType::Motion, sent_seq, motion.limited().wire());
    packet::law_frame_is_understood(sent, rest);
    packet::law_motion_command_arrives(sent, sent_seq, motion);
}

/// An emergency stop stops the car whatever its frame holds beyond the header,
/// and is acknowledged with the status "stopped".
pub proof fn law_emergency_stop_stops(data: Seq<u8>, seq: u8, action: CarAction)
    requires
        answers(MessageType::EmergencyStop, data, seq, action),
    ensures
        action matches CarAction::EmergencyStop { motion, reply } && motion.is_stop()
            && ResponsePayload::parse(reply.data()) == Some(
            ResponsePayload { status: CarStatus::Stopped, info: 0 },
        ) && reply.consistent(),
{
    let response = ResponsePayload { status: CarStatus::Stopped, info: 0 };
    if let CarAction::EmergencyStop { motion, reply } = action {
        packet::law_carried_packet(
            reply,
            MessageType::Response,
            seq,
            response.wire(),
        );
        payload::law_response_round_trip(response, Seq::empty());
        assert(response.wire() + Seq::<u8>::empty() == response.wire());
    }
}

/// What the car does on each message: a motion of three bytes or more is driven as
/// its bytes say, a shorter one is not; a heartbeat is answered by a heartbeat;
/// responses and telemetry are ignored. The car never drives on anything but a
/// motion.
pub proof fn law_car_acts_on_messages(
    msg_type: MessageType,
    data: Seq<u8>,
    seq: u8,
    action: CarAction,
)
    requires
        answers(msg_type, data, seq, action),
    ensures
        msg_type is Motion && data.len() >= 3 ==> (action matches CarAction::Drive(motion) && {
            &&& (motion.vx - data[0]) % 256 == 0
            &&& (motion.vy - data[1]) % 256 == 0
            &&& (motion.omega - data[2]) % 256 == 0
        }),
        msg_type is Motion && data.len() < 3 ==> action is Ignore,
        msg_type is Heartbeat ==> (action matches CarAction::Reply(reply)
            && reply.head().msg_type is Heartbeat && reply.head().seq == seq && reply.data().len()
            == 0),
        msg_type is EmergencyStop ==> (action matches CarAction::EmergencyStop { motion, reply }
            && motion.vx == 0 && motion.vy == 0 && motion.omega == 0
            && reply.head().msg_type is Response && reply.head().seq == seq && reply.data()
            == seq![2u8, 0u8]),
        msg_type is Response || msg_type is Telemetry ==> action is Ignore,
        action is Drive ==> msg_type is Motion,
        action is EmergencyStop ==> msg_type is EmergencyStop,
{
    if let CarAction::EmergencyStop { motion, reply } = action {
        packet::law_carried_packet(
            reply,
            MessageType::Response,
            seq,
            (ResponsePayload { status: CarStatus::Stopped, info: 0 }).wire(),
        );
    }
}

/// A sequence number is used up by each reply and by nothing else.
pub proof fn law_replies_are_numbered(seq: u8, msg_type: MessageType)
    ensures
        msg_type is Heartbeat || msg_type is EmergencyStop ==> seq_after(seq, msg_type) == (seq + 1)
            % 256,
        msg_type is Motion || msg_type is Response || msg_type is Telemetry ==> seq_after(
            seq,
            msg_type,
        ) == seq,
{
}

} // verus!
