//! Radio protocol between the controller and the car.
//!
//! A frame is a four-byte header, at most 27 payload bytes and one XOR
//! checksum byte, so that it fits a 32-byte radio packet:
//!
//! ```text
//! [version][msg_type][seq][payload_len] [payload ...] [checksum]
//! ```
use vstd::prelude::*;

pub mod checksum;
pub mod display;
pub mod message;
pub mod packet;
pub mod payload;

pub use checksum::compute_checksum;
pub use message::{CarStatus, MessageType, RadioHeader};
pub use packet::{
    create_emergency_stop_packet, create_heartbeat_packet, create_motion_packet,
    create_response_packet, create_telemetry_packet, RadioPacket,
};
pub use payload::{MotionPayload, ResponsePayload, TelemetryPayload};

verus! {

/// Largest frame the radio carries, in bytes.
pub const MAX_PACKET_SIZE: usize = 32;

/// Largest payload: what header and checksum leave of a frame.
pub const MAX_PAYLOAD_SIZE: usize = MAX_PACKET_SIZE - RadioHeader::SIZE - 1;

/// Version that both ends must agree on.
pub const PROTOCOL_VERSION: u8 = 2;

} // verus!
