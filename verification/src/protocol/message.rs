//! Message kinds, car status codes and the frame header.
use crate::protocol::MAX_PAYLOAD_SIZE;
use vstd::prelude::*;

verus! {

/// Message types for radio communication.
#[derive(Clone, Copy, PartialEq, Eq, Debug, Structural)]
pub enum MessageType {
    /// Keeps the connection status alive.
    Heartbeat,
    /// Motion command from controller to car.
    Motion,
    /// Response from car to controller.
    Response,
    /// Telemetry data from the car.
    Telemetry,
    /// Emergency stop command, without payload.
    EmergencyStop,
}

impl MessageType {
    /// The byte that stands for this type in a header.
    pub open spec fn code(self) -> u8 {
        match self {
            MessageType::Heartbeat => 0,
            MessageType::Motion => 1,
            MessageType::Response => 2,
            MessageType::Telemetry => 3,
            MessageType::EmergencyStop => 4,
        }
    }

    /// The type that a header byte stands for, if there is one.
    pub open spec fn decode(byte: u8) -> Option<MessageType> {
        if byte == 0 {
            Some(MessageType::Heartbeat)
        } else if byte == 1 {
            Some(MessageType::Motion)
        } else if byte == 2 {
            Some(MessageType::Response)
        } else if byte == 3 {
            Some(MessageType::Telemetry)
        } else if byte == 4 {
            Some(MessageType::EmergencyStop)
        } else {
            None
        }
    }

    /// Returns the header byte of this type.
    pub fn to_byte(self) -> (byte: u8)
        ensures
            byte == self.code(),
    {
        match self {
            MessageType::Heartbeat => 0,
            MessageType::Motion => 1,
            MessageType::Response => 2,
            MessageType::Telemetry => 3,
            MessageType::EmergencyStop => 4,
        }
    }

    /// Returns the type of a header byte, `None` for an unknown one.
    pub fn from_byte(byte: u8) -> (msg_type: Option<MessageType>)
        ensures
            msg_type == Self::decode(byte),
    {
        match byte {
            0 => Some(MessageType::Heartbeat),
            1 => Some(MessageType::Motion),
            2 => Some(MessageType::Response),
            3 => Some(MessageType::Telemetry),
            4 => Some(MessageType::EmergencyStop),
            _ => None,
        }
    }
}

/// Status that the car reports in a response.
#[derive(Clone, Copy, PartialEq, Eq, Debug, Structural)]
pub enum CarStatus {
    /// Ready and idle.
    Ready,
    /// Moving.
    Moving,
    /// Stopped.
    Stopped,
    /// Some error occurred.
    Error,
    /// The battery is low.
    BatteryLow,
}

impl CarStatus {
    /// The byte that stands for this status in a response.
    pub open spec fn code(self) -> u8 {
        match self {
            CarStatus::Ready => 0,
            CarStatus::Moving => 1,
            CarStatus::Stopped => 2,
            CarStatus::Error => 3,
            CarStatus::BatteryLow => 4,
        }
    }

    /// The status that a response byte stands for, if there is one.
    pub open spec fn decode(byte: u8) -> Option<CarStatus> {
        if byte == 0 {
            Some(CarStatus::Ready)
        } else if byte == 1 {
            Some(CarStatus::Moving)
        } else if byte == 2 {
            Some(CarStatus::Stopped)
        } else if byte == 3 {
            Some(CarStatus::Error)
        } else if byte == 4 {
            Some(CarStatus::BatteryLow)
        } else {
            None
        }
    }

    /// Returns the response byte of this status.
    pub fn to_byte(self) -> (byte: u8)
        ensures
            byte == self.code(),
    {
        match self {
            CarStatus::Ready => 0,
            CarStatus::Moving => 1,
            CarStatus::Stopped => 2,
            CarStatus::Error => 3,
            CarStatus::BatteryLow => 4,
        }
    }

    /// Returns the status of a response byte, `None` for an unknown one.
    pub fn from_byte(byte: u8) -> (status: Option<CarStatus>)
        ensures
            status == Self::decode(byte),
    {
        match byte {
            0 => Some(CarStatus::Ready),
            1 => Some(CarStatus::Moving),
            2 => Some(CarStatus::Stopped),
            3 => Some(CarStatus::Error),
            4 => Some(CarStatus::BatteryLow),
            _ => None,
        }
    }
}

/// Frame header.
///
/// Layout: `[version: 1][msg_type: 1][seq: 1][payload_len: 1]`.
#[derive(Clone, Copy, PartialEq, Eq, Debug, Structural)]
pub struct RadioHeader {
    /// Protocol version of the sender.
    pub version: u8,
    /// What the frame carries.
    pub msg_type: MessageType,
    /// Sequence number, wraps around after 255.
    pub seq: u8,
    /// Payload length, at most `MAX_PAYLOAD_SIZE`.
    pub payload_len: u8,
}

impl RadioHeader {
    /// Size of a header in bytes.
    pub const SIZE: usize = 4;

    /// The bytes of this header.
    pub open spec fn wire(self) -> Seq<u8> {
        seq![self.version, self.msg_type.code(), self.seq, self.payload_len]
    }

    /// The header at the front of `bytes`: there is one if the four bytes are
    /// there, the type byte is known and the length is within bounds.
    pub open spec fn parse(bytes: Seq<u8>) -> Option<RadioHeader> {
        if bytes.len() >= Self::SIZE && bytes[3] <= MAX_PAYLOAD_SIZE {
            match MessageType::decode(bytes[1]) {
                Some(msg_type) => Some(
                    RadioHeader {
                        version: bytes[0],
                        msg_type,
                        seq: bytes[2],
                        payload_len: bytes[3],
                    },
                ),
                None => None,
            }
        } else {
            None
        }
    }

    /// Serializes the header.
    pub fn to_bytes(&self) -> (bytes: [u8; Self::SIZE])
        ensures
            bytes@ == self.wire(),
    {
        [self.version, self.msg_type.to_byte(), self.seq, self.payload_len]
    }

    /// Deserializes the header at the front of `bytes`.
    pub fn from_bytes(bytes: &[u8]) -> (header: Option<Self>)
        ensures
            header == Self::parse(bytes@),
    {
        if bytes.len() < Self::SIZE {
            return None;
        }
        let payload_len: u8 = bytes[3];
        if payload_len as usize > MAX_PAYLOAD_SIZE {
            return None;
        }
        match MessageType::from_byte(bytes[1]) {
            Some(msg_type) => Some(
                RadioHeader { version: bytes[0], msg_type, seq: bytes[2], payload_len },
            ),
            None => None,
        }
    }
}

/// A header within bounds is read back from its bytes, whatever follows them.
pub proof fn law_header_round_trip(header: RadioHeader, rest: Seq<u8>)
    requires
        header.payload_len <= MAX_PAYLOAD_SIZE,
    ensures
        RadioHeader::parse(header.wire() + rest) == Some(header),
{
}

/// Whatever parses as a header has that header's bytes in front.
pub proof fn law_header_parse_is_faithful(bytes: Seq<u8>)
    requires
        RadioHeader::parse(bytes) is Some,
    ensures
        RadioHeader::parse(bytes)->0.wire() == bytes.take(RadioHeader::SIZE as int),
        RadioHeader::parse(bytes)->0.payload_len <= MAX_PAYLOAD_SIZE,
{
    assert(RadioHeader::parse(bytes)->0.wire() =~= bytes.take(RadioHeader::SIZE as int));
}

/// Every message type has a byte of its own, and every other byte is unknown.
pub proof fn law_message_bytes(byte: u8)
    ensures
        MessageType::Heartbeat.code() == 0,
        MessageType::Motion.code() == 1,
        MessageType::Response.code() == 2,
        MessageType::Telemetry.code() == 3,
        MessageType::EmergencyStop.code() == 4,
        byte <= 4 ==> (MessageType::decode(byte) matches Some(t) && t.code() == byte),
        byte > 4 ==> MessageType::decode(byte) is None,
{
}

/// Every status has a byte of its own, and every other byte is unknown.
pub proof fn law_status_bytes(byte: u8)
    ensures
        CarStatus::Ready.code() == 0,
        CarStatus::Moving.code() == 1,
        CarStatus::Stopped.code() == 2,
        CarStatus::Error.code() == 3,
        CarStatus::BatteryLow.code() == 4,
        byte <= 4 ==> (CarStatus::decode(byte) matches Some(s) && s.code() == byte),
        byte > 4 ==> CarStatus::decode(byte) is None,
{
}

/// A header is version, type, sequence number and length, one byte each. There is one
/// just if four bytes are there, the type is known and the length is at most 27; the
/// version is not judged.
pub proof fn law_header_bytes(header: RadioHeader, bytes: Seq<u8>)
    ensures
        header.wire() == seq![
            header.version,
            header.msg_type.code(),
            header.seq,
            header.payload_len,
        ],
        RadioHeader::parse(bytes) is Some <==> bytes.len() >= 4 && bytes[1] <= 4 && bytes[3] <= 27,
        RadioHeader::parse(bytes) matches Some(h) ==> {
            &&& h.version == bytes[0]
            &&& h.msg_type.code() == bytes[1]
            &&& h.seq == bytes[2]
            &&& h.payload_len == bytes[3]
        },
{
}

} // verus!
